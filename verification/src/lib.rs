//! Content-addressed, on-disk cache for compiled module artifacts.
//!
//! Given the digest of an input, the cache persists the compiled artifact
//! once and retrieves it on later runs without repeating compilation. Stored
//! artifacts are partitioned by the identity of the backend that produced
//! them: an artifact written under one backend's namespace is never handed to
//! a loader for another.
//!
//! The crate verifies the cache's logic: key encoding, namespace and path
//! derivation, the binary container codec, loader dispatch, and the error
//! taxonomy. The thin layer that touches the real file system lives outside
//! the library and only carries bytes between the disk and these functions.

pub mod artifact;
pub mod backend;
pub mod cache;
pub mod digest;
pub mod errors;
pub mod hex;
pub mod loader;

pub use artifact::Artifact;
pub use artifact::Module;
pub use backend::Backend;
pub use cache::Cache;
pub use cache::FileFetch;
pub use cache::FileSystemCache;
pub use cache::PathStatus;
pub use cache::StorePlan;
pub use digest::Digest;
pub use errors::CacheError;
pub use loader::Loader;
pub use loader::LoaderRegistry;
