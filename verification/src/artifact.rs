//! Compiled modules and their serialized artifact container.
//!
//! A compiled module is the in-memory result of compilation: an opaque
//! payload tagged with the backend that produced it. A serialized artifact
//! is its on-disk container: a magic marker, a backend tag, then the payload
//! bytes. Deserializing what serialization produced yields the original
//! payload and backend back; any byte string that does not carry the marker
//! and a known tag is rejected as corrupt.

use vstd::prelude::*;
use vstd::slice::{slice_subrange, slice_to_vec};
use crate::backend::{backend_tag_spec, Backend};
use crate::errors::CacheError;

verus! {

/// What a compiled module holds: its producing backend and opaque payload.
#[verifier::ext_equal]
pub struct ModuleView {
    pub backend: Backend,
    pub payload: Seq<u8>,
}

/// The in-memory result of compilation, owned by the caller. The cache
/// never keeps a live reference: storing persists a serialized copy only.
#[derive(Debug, Clone, PartialEq, Eq)]
pub struct Module {
    backend: Backend,
    payload: Vec<u8>,
}

impl View for Module {
    type V = ModuleView;

    closed spec fn view(&self) -> ModuleView {
        ModuleView { backend: self.backend, payload: self.payload@ }
    }
}

/// What a serialized artifact holds once decoded: the backend tag and the
/// payload carried by the container.
#[verifier::ext_equal]
pub struct ArtifactView {
    pub backend: Backend,
    pub payload: Seq<u8>,
}

/// A binary container representing one compiled module on disk. The cache
/// treats its payload as opaque bytes; validity checking here is structural
/// only.
#[derive(Debug, Clone, PartialEq, Eq)]
pub struct Artifact {
    backend: Backend,
    payload: Vec<u8>,
}

impl View for Artifact {
    type V = ArtifactView;

    closed spec fn view(&self) -> ArtifactView {
        ArtifactView { backend: self.backend, payload: self.payload@ }
    }
}

/// The marker that opens every serialized artifact.
pub open spec fn magic_spec() -> Seq<u8> {
    seq![87u8, 65u8, 83u8, 67u8]
}

/// The byte string that serializing a module with backend `b` and payload
/// `payload` produces: marker, backend tag, then the payload verbatim.
pub open spec fn serialize_spec(b: Backend, payload: Seq<u8>) -> Seq<u8> {
    magic_spec() + seq![backend_tag_spec(b)] + payload
}

/// What a byte string deserializes to: its backend and payload when it is a
/// well-formed container, nothing otherwise.
pub open spec fn parse_spec(bytes: Seq<u8>) -> Option<(Backend, Seq<u8>)> {
    if bytes.len() >= 5 && bytes.subrange(0, 4) == magic_spec() && (bytes[4] == 0 || bytes[4]
        == 1) {
        let b = if bytes[4] == 0 {
            Backend::FastJit
        } else {
            Backend::SlowAot
        };
        Some((b, bytes.subrange(5, bytes.len() as int)))
    } else {
        None
    }
}

/// Deserialization inverts serialization: the container format loses
/// nothing.
pub proof fn lemma_parse_serialize(b: Backend, payload: Seq<u8>)
    ensures
        parse_spec(serialize_spec(b, payload)) == Some((b, payload)),
{
    let s = serialize_spec(b, payload);
    assert(s.subrange(0, 4) =~= magic_spec());
    assert(s[4] == backend_tag_spec(b));
    assert(s.subrange(5, s.len() as int) =~= payload);
}

impl Module {
    /// A module as the compilation pipeline hands it over: a payload tagged
    /// with the backend that produced it.
    pub fn new(backend: Backend, payload: Vec<u8>) -> (m: Module)
        ensures
            m@.backend == backend,
            m@.payload == payload@,
    {
        Module { backend, payload }
    }

    /// The backend that produced this module and must consume its artifact.
    pub fn backend_identity(&self) -> (b: Backend)
        ensures
            b == self@.backend,
    {
        self.backend
    }

    /// The module's opaque payload.
    pub fn payload(&self) -> (p: &Vec<u8>)
        ensures
            p@ == self@.payload,
    {
        &self.payload
    }

    /// Packs this module into a serialized artifact carrying the same
    /// backend and payload. In this container format every module is
    /// representable, so packing always succeeds.
    pub fn to_artifact(&self) -> (r: Result<Artifact, CacheError>)
        ensures
            r matches Ok(a) && a@.backend == self@.backend && a@.payload == self@.payload,
    {
        Ok(Artifact { backend: self.backend, payload: slice_to_vec(self.payload.as_slice()) })
    }
}

impl Artifact {
    /// An artifact assembled directly from a backend tag and payload bytes.
    pub fn new(backend: Backend, payload: Vec<u8>) -> (a: Artifact)
        ensures
            a@.backend == backend,
            a@.payload == payload@,
    {
        Artifact { backend, payload }
    }

    /// The backend whose loader this artifact is meant for.
    pub fn backend_identity(&self) -> (b: Backend)
        ensures
            b == self@.backend,
    {
        self.backend
    }

    /// The payload carried by this container.
    pub fn payload(&self) -> (p: &Vec<u8>)
        ensures
            p@ == self@.payload,
    {
        &self.payload
    }

    /// Takes the payload out of this container without copying it.
    pub fn into_payload(self) -> (p: Vec<u8>)
        ensures
            p@ == self@.payload,
    {
        self.payload
    }

    /// Renders this artifact as the contiguous byte buffer that is written
    /// to durable storage.
    pub fn serialize(&self) -> (r: Vec<u8>)
        ensures
            r@ == serialize_spec(self@.backend, self@.payload),
    {
        let mut r: Vec<u8> = Vec::new();
        r.push(87);
        r.push(65);
        r.push(83);
        r.push(67);
        r.push(self.backend.tag());
        let mut i: usize = 0;
        while i < self.payload.len()
            invariant
                i <= self.payload@.len(),
                r@ == magic_spec() + seq![backend_tag_spec(self.backend)] + self.payload@
                    .subrange(0, i as int),
            decreases self.payload@.len() - i,
        {
            r.push(self.payload[i]);
            i = i + 1;
            proof {
                assert(r@ =~= magic_spec() + seq![backend_tag_spec(self.backend)]
                    + self.payload@.subrange(0, i as int));
            }
        }
        proof {
            assert(magic_spec() + seq![backend_tag_spec(self.backend)] =~= r@.subrange(0, 5));
            assert(self.payload@.subrange(0, self.payload@.len() as int) =~= self.payload@);
            assert(r@ =~= serialize_spec(self@.backend, self@.payload));
        }
        r
    }

    /// Reads an artifact back from stored bytes. Returns the corruption
    /// error exactly when the bytes are not a well-formed container: too
    /// short, missing the marker, or naming no known backend.
    pub fn deserialize(bytes: &[u8]) -> (r: Result<Artifact, CacheError>)
        ensures
            parse_spec(bytes@) matches Some(bp) ==> r matches Ok(a) && a@.backend == bp.0
                && a@.payload == bp.1,
            parse_spec(bytes@) is None ==> r matches Err(CacheError::Corruption),
    {
        if bytes.len() < 5 {
            return Err(CacheError::Corruption);
        }
        if !(bytes[0] == 87 && bytes[1] == 65 && bytes[2] == 83 && bytes[3] == 67) {
            proof {
                assert(bytes@.subrange(0, 4) == magic_spec() ==> bytes@[0] == 87 && bytes@[1]
                    == 65 && bytes@[2] == 83 && bytes@[3] == 67);
            }
            return Err(CacheError::Corruption);
        }
        proof {
            assert(bytes@.subrange(0, 4) =~= magic_spec());
        }
        let backend = match Backend::from_tag(bytes[4]) {
            Some(b) => b,
            None => {
                return Err(CacheError::Corruption);
            },
        };
        let payload = slice_to_vec(slice_subrange(bytes, 5, bytes.len()));
        Ok(Artifact { backend, payload })
    }
}

} // verus!
