//! Content digests: the cache's keys.
//!
//! A digest is a fixed-size, deterministic hash of the raw input bytes,
//! computed once by the caller before any cache interaction. Equal inputs
//! give equal digests, and the digest's lowercase hexadecimal form names the
//! stored file, so the encoding here must be injective and filesystem-safe.

use vstd::prelude::*;
use crate::hex::{decode_hex, encode_hex, hex_of, is_hex_char, lemma_hex_of_shape};

verus! {

/// Number of bytes in a digest.
pub const DIGEST_BYTES: usize = 32;

/// Number of characters in a digest's canonical hexadecimal form.
pub const DIGEST_CHARS: usize = 64;

/// The hexadecimal rendering of the hash that the digest function assigns to
/// `input`. The hash depends on the input bytes alone.
pub uninterp spec fn digest_hex_of(input: Seq<u8>) -> Seq<char>;

/// Relies on `wasmer_runtime_core_fl::cache::WasmHash::generate` and
/// `WasmHash::encode`: a 32-byte blake3 digest of the input, rendered by
/// `encode` as lowercase hexadecimal, two digits per byte. The result
/// depends on the input bytes alone.
#[verifier::external_body]
fn wasm_hash_hex(input: &[u8]) -> (r: String)
    ensures
        r@ == digest_hex_of(input@),
        r@.len() == 64,
        forall|i: int| 0 <= i < r@.len() ==> is_hex_char(#[trigger] r@[i]),
{
    wasmer_runtime_core_fl::cache::WasmHash::generate(input).encode()
}

/// The hash of a module's input bytes, used as the key when loading and
/// storing compiled modules.
#[derive(Debug, Clone, PartialEq, Eq)]
pub struct Digest {
    bytes: Vec<u8>,
}

impl View for Digest {
    type V = Seq<u8>;

    closed spec fn view(&self) -> Seq<u8> {
        self.bytes@
    }
}

impl Digest {
    /// A digest always holds exactly `DIGEST_BYTES` bytes.
    pub open spec fn wf(&self) -> bool {
        self@.len() == DIGEST_BYTES
    }

    /// Hashes raw input bytes into a digest.
    ///
    /// Deterministic: equal inputs produce equal digests. No check is made
    /// that the input is meaningful to any compiler; the digest only names
    /// it.
    pub fn generate(input: &[u8]) -> (d: Digest)
        ensures
            d.wf(),
            hex_of(d@) == digest_hex_of(input@),
    {
        let s = wasm_hash_hex(input);
        match decode_hex(s.as_str()) {
            Some(v) => {
                proof {
                    lemma_hex_of_shape(v@);
                }
                Digest { bytes: v }
            },
            None => {
                proof {
                    assert(false);
                }
                Digest { bytes: Vec::new() }
            },
        }
    }

    /// Wraps exactly `DIGEST_BYTES` raw bytes as a digest.
    pub fn from_bytes(bytes: Vec<u8>) -> (r: Option<Digest>)
        ensures
            r matches Some(d) ==> d@ == bytes@ && d.wf(),
            r is Some <==> bytes@.len() == DIGEST_BYTES,
    {
        if bytes.len() == DIGEST_BYTES {
            Some(Digest { bytes })
        } else {
            None
        }
    }

    /// The canonical, filesystem-safe textual form of this digest: lowercase
    /// hexadecimal, two digits per byte. Used as the stored file's name.
    pub fn encode(&self) -> (r: String)
        ensures
            r@ == hex_of(self@),
    {
        encode_hex(self.bytes.as_slice())
    }

    /// Reads a digest back from its canonical textual form. Returns `None`
    /// exactly when the string is not `DIGEST_CHARS` lowercase hexadecimal
    /// digits.
    pub fn from_encoded(s: &str) -> (r: Option<Digest>)
        ensures
            r matches Some(d) ==> d.wf() && hex_of(d@) == s@,
            r is Some <==> (s@.len() == DIGEST_CHARS && forall|i: int|
                0 <= i < s@.len() ==> is_hex_char(#[trigger] s@[i])),
    {
        match decode_hex(s) {
            Some(v) => {
                proof {
                    lemma_hex_of_shape(v@);
                }
                if v.len() == DIGEST_BYTES {
                    Some(Digest { bytes: v })
                } else {
                    None
                }
            },
            None => None,
        }
    }
}

} // verus!
