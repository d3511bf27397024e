use agent_core::codebase_auto_indexing::{
    auto_index_candidate_roots, codebase_auto_indexing_enabled, should_auto_index_codebase,
    CodebaseAutoIndexingSurface, IndexingFeatureFlags,
};

fn flags(embedding: bool, remote: bool) -> IndexingFeatureFlags {
    IndexingFeatureFlags {
        full_source_code_embedding: embedding,
        remote_codebase_indexing: remote,
    }
}

#[test]
fn local_auto_indexing_requires_full_source_code_embedding_codebase_context_and_auto_indexing() {
    assert!(!codebase_auto_indexing_enabled(
        flags(false, false),
        CodebaseAutoIndexingSurface::Local,
        true,
        true,
    ));
    assert!(codebase_auto_indexing_enabled(
        flags(true, false),
        CodebaseAutoIndexingSurface::Local,
        true,
        true,
    ));
    assert!(!codebase_auto_indexing_enabled(
        flags(true, false),
        CodebaseAutoIndexingSurface::Local,
        false,
        true,
    ));
    assert!(!codebase_auto_indexing_enabled(
        flags(true, false),
        CodebaseAutoIndexingSurface::Local,
        true,
        false,
    ));
    assert!(!codebase_auto_indexing_enabled(
        flags(true, false),
        CodebaseAutoIndexingSurface::Local,
        false,
        false,
    ));
}

#[test]
fn remote_auto_indexing_requires_remote_feature() {
    assert!(!codebase_auto_indexing_enabled(
        flags(true, false),
        CodebaseAutoIndexingSurface::Remote,
        true,
        true,
    ));
    assert!(codebase_auto_indexing_enabled(
        flags(true, true),
        CodebaseAutoIndexingSurface::Remote,
        true,
        true,
    ));
}

#[test]
fn candidate_roots_are_deduped_before_filtering() {
    let roots: Vec<String> = vec!["/repo", "/repo", "/other"]
        .into_iter()
        .map(String::from)
        .collect();
    let candidates = auto_index_candidate_roots(roots, |root| root != "/other");

    assert_eq!(candidates, vec!["/repo".to_string()]);
}

#[test]
fn filter_is_asked_once_per_distinct_root() {
    let roots: Vec<String> = vec!["/a", "/b", "/a", "/c", "/b"]
        .into_iter()
        .map(String::from)
        .collect();
    let asked = std::cell::RefCell::new(Vec::new());
    let candidates = auto_index_candidate_roots(roots, |root| {
        asked.borrow_mut().push(root.clone());
        root != "/b"
    });
    assert_eq!(candidates, vec!["/a".to_string(), "/c".to_string()]);
    assert_eq!(asked.into_inner(), vec!["/a", "/b", "/c"]);
}

#[test]
fn automatic_indexing_is_never_requested() {
    for surface in [CodebaseAutoIndexingSurface::Local, CodebaseAutoIndexingSurface::Remote] {
        assert!(!should_auto_index_codebase(flags(true, true), surface));
    }
}
