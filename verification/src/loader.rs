//! Loaders and the registry that binds them to backends.
//!
//! A loader reconstructs an executable module from a serialized artifact and
//! is bound to exactly one backend. The registry is the extensibility point:
//! a cache resolves the requested backend to a loader through it, and a
//! backend with no registered loader is a distinct, reportable failure.

use vstd::prelude::*;
use crate::artifact::{Artifact, Module};
use crate::backend::Backend;
use crate::errors::CacheError;

verus! {

/// Reconstructs executable modules from artifacts produced by one backend.
#[derive(Debug, Clone, Copy)]
pub struct Loader {
    backend: Backend,
}

impl Loader {
    /// The backend this loader is bound to.
    pub closed spec fn backend_spec(&self) -> Backend {
        self.backend
    }

    /// The backend this loader is bound to.
    pub fn backend_bound(&self) -> (b: Backend)
        ensures
            b == self.backend_spec(),
    {
        self.backend
    }

    /// Reconstructs an executable module from `artifact`.
    ///
    /// The loader only accepts an artifact whose tag names its own backend:
    /// one produced under another backend is not a valid artifact for this
    /// loader and is rejected as corrupt rather than executed.
    pub fn load(&self, artifact: Artifact) -> (r: Result<Module, CacheError>)
        ensures
            artifact@.backend == self.backend_spec() ==> (r matches Ok(m) && m@.backend
                == artifact@.backend && m@.payload == artifact@.payload),
            artifact@.backend != self.backend_spec() ==> r matches Err(CacheError::Corruption),
    {
        let b = artifact.backend_identity();
        if b == self.backend {
            let payload = artifact.into_payload();
            Ok(Module::new(b, payload))
        } else {
            Err(CacheError::Corruption)
        }
    }
}

/// Which backends have a loader in this process, and the loader each
/// resolves to.
#[derive(Debug, Clone)]
pub struct LoaderRegistry {
    supported: Vec<Backend>,
}

impl View for LoaderRegistry {
    type V = Seq<Backend>;

    closed spec fn view(&self) -> Seq<Backend> {
        self.supported@
    }
}

/// The backends a registry supports unless the caller chooses otherwise:
/// every backend this crate knows.
pub open spec fn default_supported_spec() -> Seq<Backend> {
    seq![Backend::FastJit, Backend::SlowAot]
}

impl LoaderRegistry {
    /// A registry with loaders for exactly the given backends.
    pub fn with_backends(supported: Vec<Backend>) -> (r: LoaderRegistry)
        ensures
            r@ == supported@,
    {
        LoaderRegistry { supported }
    }

    /// The loader registered for `backend`, if any.
    pub fn loader_for(&self, backend: Backend) -> (r: Option<Loader>)
        ensures
            r matches Some(l) ==> l.backend_spec() == backend,
            r is Some <==> self@.contains(backend),
    {
        let mut i: usize = 0;
        while i < self.supported.len()
            invariant
                i <= self@.len(),
                forall|j: int| 0 <= j < i ==> self@[j] != backend,
            decreases self@.len() - i,
        {
            if self.supported[i] == backend {
                return Some(Loader { backend });
            }
            i = i + 1;
        }
        proof {
            assert(!self@.contains(backend));
        }
        None
    }

    /// Whether a loader is registered for `backend`.
    pub fn supports(&self, backend: Backend) -> (r: bool)
        ensures
            r == self@.contains(backend),
    {
        self.loader_for(backend).is_some()
    }
}

impl Default for LoaderRegistry {
    /// A registry with a loader for every backend this crate knows.
    fn default() -> (r: Self)
        ensures
            r@ == default_supported_spec(),
    {
        let mut supported: Vec<Backend> = Vec::new();
        supported.push(Backend::FastJit);
        supported.push(Backend::SlowAot);
        proof {
            assert(supported@ =~= default_supported_spec());
        }
        LoaderRegistry { supported }
    }
}

} // verus!
