use wasm_cache::{Artifact, Backend, CacheError, Loader, LoaderRegistry, Module};

#[test]
fn backend_names_and_default() {
    assert_eq!(Backend::FastJit.name(), "fast-jit");
    assert_eq!(Backend::SlowAot.name(), "slow-aot");
    assert_eq!(Backend::default(), Backend::FastJit);
}

#[test]
fn backend_tags_roundtrip() {
    assert_eq!(Backend::FastJit.tag(), 0);
    assert_eq!(Backend::SlowAot.tag(), 1);
    assert_eq!(Backend::from_tag(0), Some(Backend::FastJit));
    assert_eq!(Backend::from_tag(1), Some(Backend::SlowAot));
    assert_eq!(Backend::from_tag(2), None);
}

#[test]
fn artifact_serialize_exact_bytes() {
    let a = Artifact::new(Backend::SlowAot, vec![9, 8, 7]);
    assert_eq!(a.serialize(), vec![87, 65, 83, 67, 1, 9, 8, 7]);
    let b = Artifact::new(Backend::FastJit, Vec::new());
    assert_eq!(b.serialize(), vec![87, 65, 83, 67, 0]);
}

#[test]
fn artifact_roundtrip() {
    let a = Artifact::new(Backend::FastJit, vec![1, 2, 3, 4]);
    let bytes = a.serialize();
    let back = Artifact::deserialize(&bytes).unwrap();
    assert_eq!(back.backend_identity(), Backend::FastJit);
    assert_eq!(back.payload(), &vec![1, 2, 3, 4]);
}

#[test]
fn deserialize_rejects_short_input() {
    assert!(matches!(
        Artifact::deserialize(&[87, 65, 83]),
        Err(CacheError::Corruption)
    ));
    assert!(matches!(Artifact::deserialize(&[]), Err(CacheError::Corruption)));
}

#[test]
fn deserialize_rejects_wrong_magic() {
    assert!(matches!(
        Artifact::deserialize(&[0, 0, 0, 0, 0]),
        Err(CacheError::Corruption)
    ));
}

#[test]
fn deserialize_rejects_unknown_tag() {
    assert!(matches!(
        Artifact::deserialize(&[87, 65, 83, 67, 9]),
        Err(CacheError::Corruption)
    ));
}

#[test]
fn module_packs_into_artifact() {
    let m = Module::new(Backend::SlowAot, vec![42]);
    assert_eq!(m.backend_identity(), Backend::SlowAot);
    assert_eq!(m.payload(), &vec![42]);
    let a = m.to_artifact().unwrap();
    assert_eq!(a.backend_identity(), Backend::SlowAot);
    assert_eq!(a.payload(), &vec![42]);
}

#[test]
fn registry_resolves_registered_backends() {
    let reg = LoaderRegistry::default();
    assert!(reg.supports(Backend::FastJit));
    assert!(reg.supports(Backend::SlowAot));
    let l: Loader = reg.loader_for(Backend::SlowAot).unwrap();
    assert_eq!(l.backend_bound(), Backend::SlowAot);

    let narrow = LoaderRegistry::with_backends(vec![Backend::FastJit]);
    assert!(narrow.supports(Backend::FastJit));
    assert!(!narrow.supports(Backend::SlowAot));
    assert!(narrow.loader_for(Backend::SlowAot).is_none());
}

#[test]
fn loader_rebuilds_matching_artifact() {
    let reg = LoaderRegistry::default();
    let l = reg.loader_for(Backend::FastJit).unwrap();
    let a = Artifact::new(Backend::FastJit, vec![5, 6]);
    let m = l.load(a).unwrap();
    assert_eq!(m.backend_identity(), Backend::FastJit);
    assert_eq!(m.payload(), &vec![5, 6]);
}

#[test]
fn loader_rejects_mismatched_artifact() {
    let reg = LoaderRegistry::default();
    let l = reg.loader_for(Backend::FastJit).unwrap();
    let a = Artifact::new(Backend::SlowAot, vec![5, 6]);
    assert!(matches!(l.load(a), Err(CacheError::Corruption)));
}
