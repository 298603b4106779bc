//! Lowercase hexadecimal encoding of byte strings.
//!
//! The cache names each stored file by the hexadecimal form of its key, so
//! the encoding must be filesystem-safe and injective: two distinct keys may
//! never resolve to the same file name.

use vstd::prelude::*;
use vstd::string::StrSliceExecFns;
use vstd::string::StringExecFns;

verus! {

/// The lowercase hexadecimal digit for a nibble `n < 16`.
pub open spec fn hex_digit_spec(n: int) -> char {
    if n == 0 {
        '0'
    } else if n == 1 {
        '1'
    } else if n == 2 {
        '2'
    } else if n == 3 {
        '3'
    } else if n == 4 {
        '4'
    } else if n == 5 {
        '5'
    } else if n == 6 {
        '6'
    } else if n == 7 {
        '7'
    } else if n == 8 {
        '8'
    } else if n == 9 {
        '9'
    } else if n == 10 {
        'a'
    } else if n == 11 {
        'b'
    } else if n == 12 {
        'c'
    } else if n == 13 {
        'd'
    } else if n == 14 {
        'e'
    } else {
        'f'
    }
}

/// The nibble a lowercase hexadecimal digit stands for, if it is one.
pub open spec fn hex_val_spec(c: char) -> Option<int> {
    if c == '0' {
        Some(0int)
    } else if c == '1' {
        Some(1int)
    } else if c == '2' {
        Some(2int)
    } else if c == '3' {
        Some(3int)
    } else if c == '4' {
        Some(4int)
    } else if c == '5' {
        Some(5int)
    } else if c == '6' {
        Some(6int)
    } else if c == '7' {
        Some(7int)
    } else if c == '8' {
        Some(8int)
    } else if c == '9' {
        Some(9int)
    } else if c == 'a' {
        Some(10int)
    } else if c == 'b' {
        Some(11int)
    } else if c == 'c' {
        Some(12int)
    } else if c == 'd' {
        Some(13int)
    } else if c == 'e' {
        Some(14int)
    } else if c == 'f' {
        Some(15int)
    } else {
        None
    }
}

/// `c` is a lowercase hexadecimal digit.
pub open spec fn is_hex_char(c: char) -> bool {
    hex_val_spec(c) is Some
}

/// The lowercase hexadecimal rendering of `bytes`: two digits per byte, high
/// nibble first.
pub open spec fn hex_of(bytes: Seq<u8>) -> Seq<char>
    decreases bytes.len(),
{
    if bytes.len() == 0 {
        Seq::<char>::empty()
    } else {
        hex_of(bytes.drop_last()) + seq![
            hex_digit_spec((bytes.last() / 16) as int),
            hex_digit_spec((bytes.last() % 16) as int),
        ]
    }
}

/// A rendering holds twice as many digits as there are bytes, and every
/// digit is a lowercase hexadecimal one.
pub proof fn lemma_hex_of_shape(bytes: Seq<u8>)
    ensures
        hex_of(bytes).len() == 2 * bytes.len(),
        forall|i: int| 0 <= i < hex_of(bytes).len() ==> is_hex_char(#[trigger] hex_of(bytes)[i]),
    decreases bytes.len(),
{
    if bytes.len() > 0 {
        lemma_hex_of_shape(bytes.drop_last());
    }
}

/// Decoding a nibble's digit yields the nibble back.
pub proof fn lemma_hex_digit_val(n: int)
    requires
        0 <= n < 16,
    ensures
        hex_val_spec(hex_digit_spec(n)) == Some(n),
{
}

/// The digit of a decoded hexadecimal character is that character.
pub proof fn lemma_hex_val_digit(c: char)
    requires
        is_hex_char(c),
    ensures
        hex_val_spec(c) matches Some(n) && hex_digit_spec(n) == c,
{
}

/// Hexadecimal rendering is injective: distinct byte strings have distinct
/// renderings, so distinct keys name distinct files.
pub proof fn lemma_hex_of_injective(a: Seq<u8>, b: Seq<u8>)
    requires
        hex_of(a) == hex_of(b),
    ensures
        a == b,
    decreases a.len(),
{
    lemma_hex_of_shape(a);
    lemma_hex_of_shape(b);
    if a.len() == 0 {
        assert(b.len() == 0);
        assert(a =~= b);
    } else {
        let ha = hex_of(a.drop_last());
        let hb = hex_of(b.drop_last());
        lemma_hex_of_shape(a.drop_last());
        lemma_hex_of_shape(b.drop_last());
        assert(ha.len() == hb.len());
        assert(ha =~= hb) by {
            assert forall|i: int| 0 <= i < ha.len() implies ha[i] == hb[i] by {
                assert(hex_of(a)[i] == ha[i]);
                assert(hex_of(b)[i] == hb[i]);
            }
        }
        lemma_hex_of_injective(a.drop_last(), b.drop_last());
        let la = a.last();
        let lb = b.last();
        assert(hex_of(a)[ha.len() as int] == hex_digit_spec((la / 16) as int));
        assert(hex_of(b)[ha.len() as int] == hex_digit_spec((lb / 16) as int));
        assert(hex_of(a)[ha.len() as int + 1] == hex_digit_spec((la % 16) as int));
        assert(hex_of(b)[ha.len() as int + 1] == hex_digit_spec((lb % 16) as int));
        lemma_hex_digit_val((la / 16) as int);
        lemma_hex_digit_val((lb / 16) as int);
        lemma_hex_digit_val((la % 16) as int);
        lemma_hex_digit_val((lb % 16) as int);
        assert(la / 16 == lb / 16);
        assert(la % 16 == lb % 16);
        assert(la == 16 * (la / 16) + la % 16);
        assert(lb == 16 * (lb / 16) + lb % 16);
        assert(la == lb);
        assert forall|i: int| 0 <= i < a.len() implies a[i] == b[i] by {
            if i < a.len() - 1 {
                assert(a[i] == a.drop_last()[i]);
                assert(b[i] == b.drop_last()[i]);
            } else {
                assert(a[i] == la);
                assert(b[i] == lb);
            }
        }
        assert(a =~= b);
    }
}

/// The one-character string holding the digit for nibble `n`.
fn hex_digit_str(n: u8) -> (s: &'static str)
    requires
        n < 16,
    ensures
        s@ == seq![hex_digit_spec(n as int)],
{
    proof {
        reveal_strlit("0");
        reveal_strlit("1");
        reveal_strlit("2");
        reveal_strlit("3");
        reveal_strlit("4");
        reveal_strlit("5");
        reveal_strlit("6");
        reveal_strlit("7");
        reveal_strlit("8");
        reveal_strlit("9");
        reveal_strlit("a");
        reveal_strlit("b");
        reveal_strlit("c");
        reveal_strlit("d");
        reveal_strlit("e");
        reveal_strlit("f");
    }
    let s: &'static str = match n {
        0 => "0",
        1 => "1",
        2 => "2",
        3 => "3",
        4 => "4",
        5 => "5",
        6 => "6",
        7 => "7",
        8 => "8",
        9 => "9",
        10 => "a",
        11 => "b",
        12 => "c",
        13 => "d",
        14 => "e",
        _ => "f",
    };
    proof {
        assert(s@ =~= seq![hex_digit_spec(n as int)]);
    }
    s
}

/// Renders `bytes` as lowercase hexadecimal.
pub fn encode_hex(bytes: &[u8]) -> (s: String)
    ensures
        s@ == hex_of(bytes@),
{
    let mut s = String::new();
    let mut i: usize = 0;
    while i < bytes.len()
        invariant
            i <= bytes@.len(),
            s@ == hex_of(bytes@.subrange(0, i as int)),
        decreases bytes@.len() - i,
    {
        let b = bytes[i];
        s.append(hex_digit_str(b / 16));
        s.append(hex_digit_str(b % 16));
        i = i + 1;
        proof {
            let pre = bytes@.subrange(0, i as int);
            assert(pre.drop_last() =~= bytes@.subrange(0, i - 1));
            assert(pre.last() == bytes@[i - 1]);
            assert(s@ =~= hex_of(pre));
        }
    }
    proof {
        assert(bytes@.subrange(0, bytes@.len() as int) =~= bytes@);
    }
    s
}

/// The nibble a hexadecimal digit character stands for.
pub fn hex_val(c: char) -> (r: Option<u8>)
    ensures
        r matches Some(n) ==> hex_val_spec(c) == Some(n as int) && n < 16,
        r is None ==> hex_val_spec(c) is None,
{
    match c {
        '0' => Some(0),
        '1' => Some(1),
        '2' => Some(2),
        '3' => Some(3),
        '4' => Some(4),
        '5' => Some(5),
        '6' => Some(6),
        '7' => Some(7),
        '8' => Some(8),
        '9' => Some(9),
        'a' => Some(10),
        'b' => Some(11),
        'c' => Some(12),
        'd' => Some(13),
        'e' => Some(14),
        'f' => Some(15),
        _ => None,
    }
}

/// Decodes a lowercase hexadecimal string back into bytes. Returns `None`
/// exactly when the string has odd length or holds a character that is not
/// a lowercase hexadecimal digit.
pub fn decode_hex(s: &str) -> (r: Option<Vec<u8>>)
    ensures
        r matches Some(v) ==> hex_of(v@) == s@,
        r is None ==> !(s@.len() % 2 == 0 && forall|i: int|
            0 <= i < s@.len() ==> is_hex_char(#[trigger] s@[i])),
{
    let n = s.unicode_len();
    if n % 2 != 0 {
        return None;
    }
    let mut v: Vec<u8> = Vec::new();
    let mut i: usize = 0;
    while i < n
        invariant
            n == s@.len(),
            n % 2 == 0,
            i <= n,
            i % 2 == 0,
            hex_of(v@) == s@.subrange(0, i as int),
            v@.len() == i / 2,
        decreases n - i,
    {
        assert(i + 1 < n);
        let c_hi = s.get_char(i);
        let c_lo = s.get_char(i + 1);
        let hi = match hex_val(c_hi) {
            Some(x) => x,
            None => {
                proof {
                    assert(!is_hex_char(s@[i as int]));
                }
                return None;
            },
        };
        let lo = match hex_val(c_lo) {
            Some(x) => x,
            None => {
                proof {
                    assert(!is_hex_char(s@[i + 1]));
                }
                return None;
            },
        };
        let b: u8 = hi * 16 + lo;
        let ghost vpre = v@;
        let ghost ipre = i as int;
        v.push(b);
        i = i + 2;
        proof {
            assert(v@.drop_last() =~= vpre);
            assert(v@.last() == b);
            assert(b / 16 == hi as int && b % 16 == lo as int);
            lemma_hex_val_digit(c_hi);
            lemma_hex_val_digit(c_lo);
            assert(hex_digit_spec(hi as int) == c_hi);
            assert(hex_digit_spec(lo as int) == c_lo);
            assert(hex_of(v@) =~= s@.subrange(0, i as int)) by {
                assert(hex_of(v@) == hex_of(vpre) + seq![
                    hex_digit_spec((b / 16) as int),
                    hex_digit_spec((b % 16) as int),
                ]);
                assert(s@[ipre] == c_hi);
                assert(s@[ipre + 1] == c_lo);
            }
        }
    }
    proof {
        assert(s@.subrange(0, n as int) =~= s@);
    }
    Some(v)
}

} // verus!
