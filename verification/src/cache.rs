//! The cache contract and the filesystem-backed implementation.
//!
//! A `FileSystemCache` is rooted at one directory and stores each artifact
//! at `<root>/<backend-name>/<encoded-digest>`. This module verifies every
//! decision the cache takes: which construction states succeed, how paths
//! are derived, what each answer from the storage medium means, and what
//! bytes a store writes where. The medium itself is reached through three
//! plain values: `PathStatus` reports what stands at the root, `FileFetch`
//! reports what a read found at a resolved path, and `StorePlan` instructs
//! the single write a store performs.
//!
//! The durable state is modeled as a map from (backend, digest) locations to
//! stored bytes; the lemmas at the end relate load and store to that model.

use vstd::prelude::*;
use vstd::string::StringExecFns;
use crate::artifact::{parse_spec, serialize_spec, Artifact, Module, ModuleView};
use crate::backend::{backend_name_spec, default_backend_spec, lemma_backend_names_distinct, Backend};
use crate::digest::Digest;
use crate::errors::CacheError;
use crate::hex::{hex_of, lemma_hex_of_injective, lemma_hex_of_shape};
use crate::loader::{default_supported_spec, LoaderRegistry};

verus! {

/// What stands at a prospective cache root, as the storage medium reports
/// it.
#[derive(Debug, Clone, Copy, PartialEq, Eq, Structural)]
pub enum PathStatus {
    /// Nothing exists at the path.
    Missing,
    /// The path is a directory; `readonly` tells whether the medium refuses
    /// writes into it.
    Directory { readonly: bool },
    /// The path exists but is not a directory, for instance a regular file.
    NotDirectory,
}

/// What reading the file at a resolved artifact path yielded.
#[derive(Debug)]
pub enum FileFetch {
    /// No file exists at the path: an ordinary miss.
    Missing,
    /// The medium refused access; carries its description of the refusal.
    Denied(String),
    /// The medium failed in some other way; carries its description.
    Failed(String),
    /// The file's full contents.
    Found(Vec<u8>),
}

/// The one write a store performs: create the namespace directory if it is
/// absent, then write `bytes` to `file_path`, truncating any previous file.
/// Last write wins; no merge and no version check.
#[derive(Debug)]
pub struct StorePlan {
    /// The backend's namespace directory, directly under the cache root.
    pub namespace_dir: String,
    /// The artifact file inside the namespace directory, named by the
    /// digest's canonical encoding.
    pub file_path: String,
    /// The serialized artifact, written whole.
    pub bytes: Vec<u8>,
}

/// The namespace directory for backend `b` under `root`.
pub open spec fn namespace_path_spec(root: Seq<char>, b: Backend) -> Seq<char> {
    root + "/"@ + backend_name_spec(b)
}

/// The file that holds the artifact stored for digest bytes `key` under
/// backend `b`'s namespace.
pub open spec fn artifact_path_spec(root: Seq<char>, b: Backend, key: Seq<u8>) -> Seq<char> {
    namespace_path_spec(root, b) + "/"@ + hex_of(key)
}

/// The message reported when the root directory exists but is read-only.
pub open spec fn readonly_message_spec(root: Seq<char>) -> Seq<char> {
    "the supplied path is readonly: "@ + root
}

/// The message reported when the root path is not a directory.
pub open spec fn not_directory_message_spec(root: Seq<char>) -> Seq<char> {
    "the supplied path already points to a file: "@ + root
}

/// The capability contract every cache implementation satisfies: load and
/// store keyed by content digest, with distinct failure types for the two
/// paths, and backend-pinned loading. `fetch` hands a load what the medium
/// returned at the resolved path; a store answers with the single write to
/// perform.
pub trait Cache {
    /// Failure type of the load path.
    type LoadError;

    /// Failure type of the store path.
    type StoreError;

    /// Loads the artifact stored for `key` under the implementation's
    /// default backend. Equivalent to `load_with_backend` with that
    /// default.
    fn load(&self, key: &Digest, fetch: FileFetch) -> Result<Module, Self::LoadError>;

    /// Loads the artifact stored for `key` under `backend`'s namespace and
    /// reconstructs an executable module with a loader bound to `backend`.
    fn load_with_backend(&self, key: &Digest, backend: Backend, fetch: FileFetch) -> Result<
        Module,
        Self::LoadError,
    >;

    /// Serializes `module` and directs its persistence under the namespace
    /// of the module's own backend, at the path derived from `key`.
    fn store(&self, key: &Digest, module: &Module) -> Result<StorePlan, Self::StoreError>;
}

/// A cache rooted at one directory on durable storage.
///
/// Construction performs no integrity verification of what already lies
/// under the root: the caller asserts the provenance of the directory's
/// contents, and a load checks artifacts structurally only.
#[derive(Debug)]
pub struct FileSystemCache {
    root: String,
    loaders: LoaderRegistry,
}

/// What constructing a cache must yield for each state of the root path:
/// success on a missing path (the caller then creates the directory) and on
/// a writable directory; a permission error naming the path otherwise.
pub open spec fn construction_post(
    root: Seq<char>,
    status: PathStatus,
    supported: Seq<Backend>,
    r: Result<FileSystemCache, CacheError>,
) -> bool {
    match status {
        PathStatus::Missing => (r matches Ok(c) && c.root_spec() == root && c.supported_spec()
            == supported),
        PathStatus::Directory { readonly } => if readonly {
            (r matches Err(e) && e matches CacheError::PermissionDenied(m) && m@
                == readonly_message_spec(root))
        } else {
            (r matches Ok(c) && c.root_spec() == root && c.supported_spec() == supported)
        },
        PathStatus::NotDirectory => (r matches Err(e) && e matches CacheError::PermissionDenied(m)
            && m@ == not_directory_message_spec(root)),
    }
}

/// What a load must yield for each answer of the medium: the medium's own
/// failures pass through; found bytes are deserialized, the backend is
/// resolved to a loader, and the loader reconstructs the module.
pub open spec fn load_post(
    supported: Seq<Backend>,
    backend: Backend,
    fetch: FileFetch,
    r: Result<Module, CacheError>,
) -> bool {
    match fetch {
        FileFetch::Missing => r matches Err(CacheError::NotFound),
        FileFetch::Denied(m) => (r matches Err(e) && e matches CacheError::PermissionDenied(mm)
            && mm@ == m@),
        FileFetch::Failed(m) => (r matches Err(e) && e matches CacheError::Io(mm) && mm@ == m@),
        FileFetch::Found(bytes) => found_post(supported, backend, bytes@, r),
    }
}

/// What a load must yield from the bytes found at the resolved path.
pub open spec fn found_post(
    supported: Seq<Backend>,
    backend: Backend,
    bytes: Seq<u8>,
    r: Result<Module, CacheError>,
) -> bool {
    match parse_spec(bytes) {
        None => r matches Err(CacheError::Corruption),
        Some(bp) => if !supported.contains(backend) {
            (r matches Err(e) && e matches CacheError::UnsupportedBackend(n) && n@
                == backend_name_spec(backend))
        } else if bp.0 != backend {
            r matches Err(CacheError::Corruption)
        } else {
            (r matches Ok(m) && m@.backend == backend && m@.payload == bp.1)
        },
    }
}

impl FileSystemCache {
    /// The root directory this cache was constructed over.
    pub closed spec fn root_spec(&self) -> Seq<char> {
        self.root@
    }

    /// The backends the cache's registry has loaders for.
    pub closed spec fn supported_spec(&self) -> Seq<Backend> {
        self.loaders@
    }

    /// Constructs a cache rooted at `root`, whose state the medium reports
    /// as `status`, with loaders for every backend this crate knows.
    ///
    /// A missing root succeeds: the caller creates the directory, parents
    /// included, before using the cache. An existing writable directory
    /// succeeds. A read-only directory and a non-directory fail with a
    /// permission error whose message identifies the path. No integrity
    /// check of existing contents is made.
    pub fn new(root: String, status: PathStatus) -> (r: Result<FileSystemCache, CacheError>)
        ensures
            construction_post(root@, status, default_supported_spec(), r),
    {
        Self::with_loaders(root, status, LoaderRegistry::default())
    }

    /// Constructs a cache as [`Self::new`] does, with the given loader
    /// registry in place of the default one.
    pub fn with_loaders(root: String, status: PathStatus, loaders: LoaderRegistry) -> (r: Result<
        FileSystemCache,
        CacheError,
    >)
        ensures
            construction_post(root@, status, loaders@, r),
    {
        match status {
            PathStatus::Missing => Ok(FileSystemCache { root, loaders }),
            PathStatus::Directory { readonly } => {
                if readonly {
                    let msg = String::from_str("the supplied path is readonly: ").concat(
                        root.as_str(),
                    );
                    Err(CacheError::PermissionDenied(msg))
                } else {
                    Ok(FileSystemCache { root, loaders })
                }
            },
            PathStatus::NotDirectory => {
                let msg = String::from_str("the supplied path already points to a file: ").concat(
                    root.as_str(),
                );
                Err(CacheError::PermissionDenied(msg))
            },
        }
    }

    /// The path at which the artifact for `key` under `backend`'s namespace
    /// is stored: `<root>/<backend-name>/<encoded-digest>`.
    pub fn load_path(&self, key: &Digest, backend: Backend) -> (p: String)
        ensures
            p@ == artifact_path_spec(self.root_spec(), backend, key@),
    {
        let mut p = String::new();
        p.append(self.root.as_str());
        p.append("/");
        p.append(backend.name().as_str());
        p.append("/");
        p.append(key.encode().as_str());
        p
    }

    /// Loads the artifact stored for `key` using the default backend.
    ///
    /// `fetch` must be what the medium returned when reading the file at
    /// `load_path(key, default backend)`.
    pub fn load(&self, key: &Digest, fetch: FileFetch) -> (r: Result<Module, CacheError>)
        ensures
            load_post(self.supported_spec(), default_backend_spec(), fetch, r),
    {
        self.load_with_backend(key, Backend::default(), fetch)
    }

    /// Loads the artifact stored for `key` under `backend`'s namespace.
    ///
    /// `fetch` must be what the medium returned when reading the file at
    /// `load_path(key, backend)`. A missing file is the not-found miss; the
    /// medium's own failures pass through; found bytes must deserialize
    /// structurally, `backend` must have a registered loader, and the
    /// artifact must carry `backend`'s own tag, else the load reports
    /// corruption rather than handing mismatched binary data to a loader.
    pub fn load_with_backend(&self, key: &Digest, backend: Backend, fetch: FileFetch) -> (r:
        Result<Module, CacheError>)
        ensures
            load_post(self.supported_spec(), backend, fetch, r),
    {
        match fetch {
            FileFetch::Missing => Err(CacheError::NotFound),
            FileFetch::Denied(m) => Err(CacheError::PermissionDenied(m)),
            FileFetch::Failed(m) => Err(CacheError::Io(m)),
            FileFetch::Found(bytes) => {
                let artifact = match Artifact::deserialize(bytes.as_slice()) {
                    Ok(a) => a,
                    Err(e) => {
                        return Err(e);
                    },
                };
                match self.loaders.loader_for(backend) {
                    None => Err(CacheError::UnsupportedBackend(backend.name())),
                    Some(loader) => loader.load(artifact),
                }
            },
        }
    }

    /// Serializes `module` and answers with the single write that persists
    /// it: the namespace directory of the module's own backend, the file
    /// named by `key`'s encoding, and the serialized bytes, which replace
    /// any previous file at that path whole.
    pub fn store(&self, key: &Digest, module: &Module) -> (r: Result<StorePlan, CacheError>)
        ensures
            r matches Ok(p) && p.namespace_dir@ == namespace_path_spec(
                self.root_spec(),
                module@.backend,
            ) && p.file_path@ == artifact_path_spec(self.root_spec(), module@.backend, key@)
                && p.bytes@ == serialize_spec(module@.backend, module@.payload),
    {
        let artifact = match module.to_artifact() {
            Ok(a) => a,
            Err(e) => {
                proof {
                    assert(false);
                }
                return Err(e);
            },
        };
        let bytes = artifact.serialize();
        let backend = module.backend_identity();
        let mut namespace_dir = String::new();
        namespace_dir.append(self.root.as_str());
        namespace_dir.append("/");
        namespace_dir.append(backend.name().as_str());
        let mut file_path = String::new();
        file_path.append(namespace_dir.as_str());
        file_path.append("/");
        file_path.append(key.encode().as_str());
        Ok(StorePlan { namespace_dir, file_path, bytes })
    }
}

/// The outcome a load has in the modeled durable state.
pub enum LoadSpec {
    /// The stored artifact parsed and a loader rebuilt this module.
    Loaded(ModuleView),
    /// Nothing is stored at the location: the not-found miss.
    Missing,
    /// Bytes are stored but are no valid artifact for the requested
    /// backend.
    Corrupt,
    /// No loader is registered for the requested backend.
    Unsupported,
}

/// The durable state after storing module `m` under digest bytes `key`: the
/// serialized artifact replaces whatever lay at the module's own backend's
/// location for `key`, and no other location changes.
pub open spec fn fs_store_spec(
    fs: Map<(Backend, Seq<u8>), Seq<u8>>,
    key: Seq<u8>,
    m: ModuleView,
) -> Map<(Backend, Seq<u8>), Seq<u8>> {
    fs.insert((m.backend, key), serialize_spec(m.backend, m.payload))
}

/// The outcome of loading digest bytes `key` under `backend` from durable
/// state `fs`, with loaders for `supported`. Loading is a pure function of
/// the state: it writes nothing.
pub open spec fn load_spec(
    fs: Map<(Backend, Seq<u8>), Seq<u8>>,
    key: Seq<u8>,
    backend: Backend,
    supported: Seq<Backend>,
) -> LoadSpec {
    if !fs.contains_key((backend, key)) {
        LoadSpec::Missing
    } else {
        match parse_spec(fs[(backend, key)]) {
            None => LoadSpec::Corrupt,
            Some(bp) => if !supported.contains(backend) {
                LoadSpec::Unsupported
            } else if bp.0 != backend {
                LoadSpec::Corrupt
            } else {
                LoadSpec::Loaded(ModuleView { backend, payload: bp.1 })
            },
        }
    }
}

/// How an executable load result realizes a modeled outcome.
pub open spec fn realizes(
    r: Result<Module, CacheError>,
    outcome: LoadSpec,
    backend: Backend,
) -> bool {
    match outcome {
        LoadSpec::Loaded(mv) => (r matches Ok(m) && m@ == mv),
        LoadSpec::Missing => r matches Err(CacheError::NotFound),
        LoadSpec::Corrupt => r matches Err(CacheError::Corruption),
        LoadSpec::Unsupported => (r matches Err(e) && e matches CacheError::UnsupportedBackend(n)
            && n@ == backend_name_spec(backend)),
    }
}

/// When the medium's answer reflects the modeled durable state at the
/// resolved location, a load that meets its contract realizes exactly the
/// model's outcome.
pub proof fn lemma_load_realizes_model(
    fs: Map<(Backend, Seq<u8>), Seq<u8>>,
    key: Seq<u8>,
    backend: Backend,
    supported: Seq<Backend>,
    fetch: FileFetch,
    r: Result<Module, CacheError>,
)
    requires
        load_post(supported, backend, fetch, r),
        fs.contains_key((backend, key)) ==> (fetch matches FileFetch::Found(bytes) && bytes@
            == fs[(backend, key)]),
        !fs.contains_key((backend, key)) ==> fetch matches FileFetch::Missing,
    ensures
        realizes(r, load_spec(fs, key, backend, supported), backend),
{
    if fs.contains_key((backend, key)) {
        match load_spec(fs, key, backend, supported) {
            LoadSpec::Loaded(mv) => {
                assert(r matches Ok(m) && m@ =~= mv);
            },
            _ => {},
        }
    }
}

/// Round-trip: storing a module and then loading the same digest under the
/// module's own backend yields that module back, whenever a loader is
/// registered for its backend.
pub proof fn lemma_store_then_load(
    fs: Map<(Backend, Seq<u8>), Seq<u8>>,
    key: Seq<u8>,
    m: ModuleView,
    supported: Seq<Backend>,
)
    requires
        supported.contains(m.backend),
    ensures
        load_spec(fs_store_spec(fs, key, m), key, m.backend, supported) == LoadSpec::Loaded(m),
{
    crate::artifact::lemma_parse_serialize(m.backend, m.payload);
    let stored = fs_store_spec(fs, key, m);
    assert(stored[(m.backend, key)] == serialize_spec(m.backend, m.payload));
    assert(ModuleView { backend: m.backend, payload: m.payload } =~= m);
}

/// Backend isolation: a store touches only its own backend's namespace.
/// Loading the same digest under a different backend where nothing is
/// stored misses; it never reads the other backend's file.
pub proof fn lemma_backend_isolation(
    fs: Map<(Backend, Seq<u8>), Seq<u8>>,
    key: Seq<u8>,
    m: ModuleView,
    other: Backend,
    supported: Seq<Backend>,
)
    requires
        other != m.backend,
        !fs.contains_key((other, key)),
    ensures
        load_spec(fs_store_spec(fs, key, m), key, other, supported) == LoadSpec::Missing,
{
}

/// Idempotent miss: loading a digest that was never stored misses, on every
/// call alike. The outcome is a pure function of the durable state, and a
/// load directs no write, so the state is unchanged for the next call.
pub proof fn lemma_miss_deterministic(
    fs: Map<(Backend, Seq<u8>), Seq<u8>>,
    key: Seq<u8>,
    backend: Backend,
    supported: Seq<Backend>,
)
    requires
        !fs.contains_key((backend, key)),
    ensures
        load_spec(fs, key, backend, supported) == LoadSpec::Missing,
{
}

/// Overwrite: storing twice under the same digest and backend leaves the
/// durable state exactly as if only the second store had happened — one
/// location, holding the second serialization.
pub proof fn lemma_overwrite(
    fs: Map<(Backend, Seq<u8>), Seq<u8>>,
    key: Seq<u8>,
    m1: ModuleView,
    m2: ModuleView,
)
    requires
        m1.backend == m2.backend,
    ensures
        fs_store_spec(fs_store_spec(fs, key, m1), key, m2) == fs_store_spec(fs, key, m2),
{
    assert(fs_store_spec(fs_store_spec(fs, key, m1), key, m2) =~= fs_store_spec(fs, key, m2));
}

/// Distinct locations resolve to distinct file paths under one root: the
/// flat directory layout realizes the keyed model faithfully, so no store
/// can clobber a file that belongs to another backend or digest.
pub proof fn lemma_artifact_paths_injective(
    root: Seq<char>,
    b1: Backend,
    k1: Seq<u8>,
    b2: Backend,
    k2: Seq<u8>,
)
    requires
        artifact_path_spec(root, b1, k1) == artifact_path_spec(root, b2, k2),
    ensures
        b1 == b2,
        k1 == k2,
{
    reveal_strlit("/");
    reveal_strlit("fast-jit");
    reveal_strlit("slow-aot");
    lemma_hex_of_shape(k1);
    lemma_hex_of_shape(k2);
    let p1 = artifact_path_spec(root, b1, k1);
    let p2 = artifact_path_spec(root, b2, k2);
    let n1 = backend_name_spec(b1);
    let n2 = backend_name_spec(b2);
    assert(n1.len() == 8 && n2.len() == 8);
    assert(p1.len() == root.len() + 10 + 2 * k1.len());
    assert(p2.len() == root.len() + 10 + 2 * k2.len());
    assert(k1.len() == k2.len());
    assert forall|i: int| 0 <= i < 8 implies n1[i] == n2[i] by {
        assert(p1[root.len() + 1 + i] == n1[i]);
        assert(p2[root.len() + 1 + i] == n2[i]);
    }
    assert(n1 =~= n2);
    lemma_backend_names_distinct(b1, b2);
    let h1 = hex_of(k1);
    let h2 = hex_of(k2);
    assert forall|i: int| 0 <= i < h1.len() implies h1[i] == h2[i] by {
        assert(p1[root.len() + 10 + i] == h1[i]);
        assert(p2[root.len() + 10 + i] == h2[i]);
    }
    assert(h1 =~= h2);
    lemma_hex_of_injective(k1, k2);
}

impl Cache for FileSystemCache {
    type LoadError = CacheError;

    type StoreError = CacheError;

    fn load(&self, key: &Digest, fetch: FileFetch) -> Result<Module, CacheError> {
        self.load(key, fetch)
    }

    fn load_with_backend(&self, key: &Digest, backend: Backend, fetch: FileFetch) -> Result<
        Module,
        CacheError,
    > {
        self.load_with_backend(key, backend, fetch)
    }

    fn store(&self, key: &Digest, module: &Module) -> Result<StorePlan, CacheError> {
        self.store(key, module)
    }
}

} // verus!
