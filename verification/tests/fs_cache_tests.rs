use std::collections::HashMap;

use wasm_cache::{
    Backend, Cache, CacheError, Digest, FileFetch, FileSystemCache, LoaderRegistry, Module,
    PathStatus,
};

fn zero_key() -> Digest {
    Digest::from_bytes(vec![0u8; 32]).unwrap()
}

fn cache_at(root: &str) -> FileSystemCache {
    FileSystemCache::new(root.to_string(), PathStatus::Missing).unwrap()
}

#[test]
fn construction_over_missing_path_succeeds() {
    assert!(FileSystemCache::new("cache-root".to_string(), PathStatus::Missing).is_ok());
}

#[test]
fn construction_over_writable_directory_succeeds() {
    let status = PathStatus::Directory { readonly: false };
    assert!(FileSystemCache::new("cache-root".to_string(), status).is_ok());
}

#[test]
fn construction_over_readonly_directory_fails() {
    let status = PathStatus::Directory { readonly: true };
    let err = FileSystemCache::new("cache-root".to_string(), status).unwrap_err();
    match err {
        CacheError::PermissionDenied(msg) => {
            assert_eq!(msg, "the supplied path is readonly: cache-root");
        },
        other => panic!("wrong error: {:?}", other),
    }
}

#[test]
fn construction_over_regular_file_fails() {
    let err =
        FileSystemCache::new("cache-root".to_string(), PathStatus::NotDirectory).unwrap_err();
    match err {
        CacheError::PermissionDenied(msg) => {
            assert_eq!(msg, "the supplied path already points to a file: cache-root");
        },
        other => panic!("wrong error: {:?}", other),
    }
}

#[test]
fn load_path_layout() {
    let cache = cache_at("cache-root");
    let key = zero_key();
    let expected = format!("cache-root/fast-jit/{}", "0".repeat(64));
    assert_eq!(cache.load_path(&key, Backend::FastJit), expected);
}

#[test]
fn store_plan_names_backend_namespace_and_key() {
    let cache = cache_at("cache-root");
    let key = zero_key();
    let module = Module::new(Backend::SlowAot, vec![9, 9]);
    let plan = cache.store(&key, &module).unwrap();
    assert_eq!(plan.namespace_dir, "cache-root/slow-aot");
    assert_eq!(
        plan.file_path,
        format!("cache-root/slow-aot/{}", "0".repeat(64))
    );
    assert_eq!(plan.bytes, vec![87, 65, 83, 67, 1, 9, 9]);
}

#[test]
fn store_then_load_roundtrip() {
    let cache = cache_at("cache-root");
    let key = zero_key();
    let module = Module::new(Backend::SlowAot, vec![1, 2, 3]);
    let plan = cache.store(&key, &module).unwrap();
    let loaded = cache
        .load_with_backend(&key, Backend::SlowAot, FileFetch::Found(plan.bytes))
        .unwrap();
    assert_eq!(loaded.backend_identity(), Backend::SlowAot);
    assert_eq!(loaded.payload(), &vec![1, 2, 3]);
}

#[test]
fn backend_isolation_yields_not_found() {
    let cache = cache_at("cache-root");
    let key = zero_key();
    let module = Module::new(Backend::FastJit, vec![1]);
    let plan = cache.store(&key, &module).unwrap();
    assert_eq!(plan.namespace_dir, "cache-root/fast-jit");
    // Nothing was written under slow-aot's namespace, so reading there finds
    // no file.
    let err = cache
        .load_with_backend(&key, Backend::SlowAot, FileFetch::Missing)
        .unwrap_err();
    assert!(err.is_not_found());
}

#[test]
fn miss_is_deterministic_and_writes_nothing() {
    let cache = cache_at("cache-root");
    let key = zero_key();
    for _ in 0..3 {
        let err = cache.load(&key, FileFetch::Missing).unwrap_err();
        assert!(err.is_not_found());
    }
}

#[test]
fn overwrite_leaves_one_file_with_second_contents() {
    let cache = cache_at("cache-root");
    let key = zero_key();
    let first = Module::new(Backend::FastJit, vec![1, 1, 1]);
    let second = Module::new(Backend::FastJit, vec![2, 2]);
    let plan1 = cache.store(&key, &first).unwrap();
    let plan2 = cache.store(&key, &second).unwrap();
    assert_eq!(plan1.file_path, plan2.file_path);

    let mut disk: HashMap<String, Vec<u8>> = HashMap::new();
    disk.insert(plan1.file_path.clone(), plan1.bytes);
    disk.insert(plan2.file_path.clone(), plan2.bytes);
    assert_eq!(disk.len(), 1);
    let contents = disk.get(&plan2.file_path).unwrap().clone();
    assert_eq!(contents, vec![87, 65, 83, 67, 0, 2, 2]);

    let loaded = cache
        .load_with_backend(&key, Backend::FastJit, FileFetch::Found(contents))
        .unwrap();
    assert_eq!(loaded.payload(), &vec![2, 2]);
}

#[test]
fn medium_failures_pass_through() {
    let cache = cache_at("cache-root");
    let key = zero_key();
    let err = cache
        .load(&key, FileFetch::Denied("no access".to_string()))
        .unwrap_err();
    match err {
        CacheError::PermissionDenied(msg) => assert_eq!(msg, "no access"),
        other => panic!("wrong error: {:?}", other),
    }
    let err = cache
        .load(&key, FileFetch::Failed("disk gone".to_string()))
        .unwrap_err();
    match err {
        CacheError::Io(msg) => assert_eq!(msg, "disk gone"),
        other => panic!("wrong error: {:?}", other),
    }
}

#[test]
fn unparsable_bytes_are_corruption() {
    let cache = cache_at("cache-root");
    let key = zero_key();
    let err = cache
        .load(&key, FileFetch::Found(vec![1, 2, 3]))
        .unwrap_err();
    assert!(matches!(err, CacheError::Corruption));
}

#[test]
fn mismatched_backend_tag_is_corruption() {
    let cache = cache_at("cache-root");
    let key = zero_key();
    let module = Module::new(Backend::SlowAot, vec![4]);
    let plan = cache.store(&key, &module).unwrap();
    // A file that somehow carries another backend's artifact is rejected,
    // never executed.
    let err = cache
        .load_with_backend(&key, Backend::FastJit, FileFetch::Found(plan.bytes))
        .unwrap_err();
    assert!(matches!(err, CacheError::Corruption));
}

#[test]
fn unregistered_backend_is_unsupported() {
    let registry = LoaderRegistry::with_backends(vec![Backend::FastJit]);
    let cache = FileSystemCache::with_loaders(
        "cache-root".to_string(),
        PathStatus::Missing,
        registry,
    )
    .unwrap();
    let key = zero_key();
    let module = Module::new(Backend::SlowAot, vec![4]);
    let plan = cache.store(&key, &module).unwrap();
    let err = cache
        .load_with_backend(&key, Backend::SlowAot, FileFetch::Found(plan.bytes))
        .unwrap_err();
    match err {
        CacheError::UnsupportedBackend(name) => assert_eq!(name, "slow-aot"),
        other => panic!("wrong error: {:?}", other),
    }
}

#[test]
fn cache_trait_dispatches_to_filesystem_cache() {
    fn miss_through<C: Cache>(cache: &C, key: &Digest) -> Result<Module, C::LoadError> {
        cache.load(key, FileFetch::Missing)
    }
    let cache = cache_at("cache-root");
    let key = zero_key();
    let err = miss_through(&cache, &key).unwrap_err();
    assert!(err.is_not_found());
}
