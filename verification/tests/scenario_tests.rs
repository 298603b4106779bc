//! End-to-end scenario: hash a small input, store a module under the
//! default backend, and read it back, with the on-disk directory simulated
//! by a map from paths to file contents.

use std::collections::HashMap;

use wasm_cache::{Backend, Digest, FileFetch, FileSystemCache, Module, PathStatus};

#[test]
fn digest_store_load_scenario() {
    let input: &[u8] = b"ten bytes!";
    assert_eq!(input.len(), 10);
    let key = Digest::generate(input);

    let cache = FileSystemCache::new("croot".to_string(), PathStatus::Missing).unwrap();
    let module = Module::new(Backend::FastJit, vec![0xAA, 0xBB, 0xCC]);

    // Storing creates <root>/fast-jit/<hex(key)>.
    let plan = cache.store(&key, &module).unwrap();
    assert_eq!(plan.namespace_dir, "croot/fast-jit");
    assert_eq!(plan.file_path, format!("croot/fast-jit/{}", key.encode()));

    let mut disk: HashMap<String, Vec<u8>> = HashMap::new();
    disk.insert(plan.file_path.clone(), plan.bytes.clone());

    // Loading with the default backend ("fast-jit") succeeds and returns a
    // module with the same backend identity.
    let fetched = disk.get(&cache.load_path(&key, Backend::default())).unwrap().clone();
    let loaded = cache.load(&key, FileFetch::Found(fetched)).unwrap();
    assert_eq!(loaded.backend_identity(), Backend::FastJit);
    assert_eq!(loaded.backend_identity().name(), "fast-jit");
    assert_eq!(loaded.payload(), &vec![0xAA, 0xBB, 0xCC]);

    // No file exists under "slow-aot" for this key, so a pinned load misses.
    let other_path = cache.load_path(&key, Backend::SlowAot);
    assert!(disk.get(&other_path).is_none());
    let err = cache
        .load_with_backend(&key, Backend::SlowAot, FileFetch::Missing)
        .unwrap_err();
    assert!(err.is_not_found());
}
