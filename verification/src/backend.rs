//! Identity of the compilation strategy that produced, or must consume, a
//! stored artifact.

use vstd::prelude::*;
use vstd::string::StringExecFns;

verus! {

/// A small closed enumeration naming which compilation strategy produced an
/// artifact. Every compiled module carries exactly one `Backend`; an artifact
/// stored under backend `b` must only ever be loaded by a loader bound to
/// `b`.
#[derive(Clone, Copy, Debug, PartialEq, Eq, Structural)]
pub enum Backend {
    /// The just-in-time backend; the process-wide default.
    FastJit,
    /// The ahead-of-time backend.
    SlowAot,
}

/// Canonical string form of a backend: the name of its namespace directory
/// under the cache root.
pub open spec fn backend_name_spec(b: Backend) -> Seq<char> {
    match b {
        Backend::FastJit => "fast-jit"@,
        Backend::SlowAot => "slow-aot"@,
    }
}

/// The byte tag that marks a backend inside a serialized artifact.
pub open spec fn backend_tag_spec(b: Backend) -> u8 {
    match b {
        Backend::FastJit => 0u8,
        Backend::SlowAot => 1u8,
    }
}

impl Backend {
    /// Canonical, filesystem-safe string form of this backend.
    pub fn name(&self) -> (r: String)
        ensures
            r@ == backend_name_spec(*self),
    {
        match self {
            Backend::FastJit => String::from_str("fast-jit"),
            Backend::SlowAot => String::from_str("slow-aot"),
        }
    }

    /// The byte tag stored for this backend in a serialized artifact.
    pub fn tag(&self) -> (t: u8)
        ensures
            t == backend_tag_spec(*self),
    {
        match self {
            Backend::FastJit => 0u8,
            Backend::SlowAot => 1u8,
        }
    }

    /// The backend marked by byte tag `t`, if any.
    pub fn from_tag(t: u8) -> (r: Option<Backend>)
        ensures
            r == if t == 0 {
                Some(Backend::FastJit)
            } else if t == 1 {
                Some(Backend::SlowAot)
            } else {
                None::<Backend>
            },
    {
        if t == 0 {
            Some(Backend::FastJit)
        } else if t == 1 {
            Some(Backend::SlowAot)
        } else {
            None
        }
    }
}

/// The backend that `load` uses when the caller pins none.
pub open spec fn default_backend_spec() -> Backend {
    Backend::FastJit
}

impl Default for Backend {
    /// The backend that `load` uses when the caller pins none.
    fn default() -> (r: Self)
        ensures
            r == default_backend_spec(),
    {
        Backend::FastJit
    }
}

/// Distinct backends have distinct canonical names, so their namespace
/// directories under one cache root never coincide.
pub proof fn lemma_backend_names_distinct(b1: Backend, b2: Backend)
    ensures
        backend_name_spec(b1) == backend_name_spec(b2) ==> b1 == b2,
{
    reveal_strlit("fast-jit");
    reveal_strlit("slow-aot");
    if b1 != b2 && backend_name_spec(b1) == backend_name_spec(b2) {
        assert(backend_name_spec(Backend::FastJit)[0] == 'f');
        assert(backend_name_spec(Backend::SlowAot)[0] == 's');
        assert(false);
    }
}

} // verus!
