//! Whether to index a codebase automatically, and which roots to index.
use vstd::prelude::*;

verus! {

/// Where the codebase lives.
#[derive(Debug, Clone, Copy, PartialEq, Eq, Structural)]
pub enum CodebaseAutoIndexingSurface {
    Local,
    Remote,
}

/// The feature flags that indexing depends on.
#[derive(Debug, Clone, Copy, PartialEq, Eq, Structural)]
pub struct IndexingFeatureFlags {
    pub full_source_code_embedding: bool,
    pub remote_codebase_indexing: bool,
}

impl CodebaseAutoIndexingSurface {
    /// Whether the surface's own feature is on: always for local codebases, behind the
    /// remote-indexing flag for remote ones.
    pub fn required_feature_enabled(self, flags: IndexingFeatureFlags) -> (r: bool)
        ensures
            r == match self {
                CodebaseAutoIndexingSurface::Local => true,
                CodebaseAutoIndexingSurface::Remote => flags.remote_codebase_indexing,
            },
    {
        match self {
            CodebaseAutoIndexingSurface::Local => true,
            CodebaseAutoIndexingSurface::Remote => flags.remote_codebase_indexing,
        }
    }
}

/// Whether indexing is enabled: embedding is on, the surface's feature is on, and the user
/// enabled codebase context.
pub open spec fn indexing_enabled_spec(
    flags: IndexingFeatureFlags,
    surface: CodebaseAutoIndexingSurface,
    codebase_context_enabled: bool,
) -> bool {
    flags.full_source_code_embedding && (surface == CodebaseAutoIndexingSurface::Local
        || flags.remote_codebase_indexing) && codebase_context_enabled
}

/// Whether codebase indexing is enabled; see [`indexing_enabled_spec`].
pub fn codebase_indexing_enabled(
    flags: IndexingFeatureFlags,
    surface: CodebaseAutoIndexingSurface,
    codebase_context_enabled: bool,
) -> (r: bool)
    ensures
        r == indexing_enabled_spec(flags, surface, codebase_context_enabled),
{
    flags.full_source_code_embedding && surface.required_feature_enabled(flags)
        && codebase_context_enabled
}

/// Whether automatic indexing is enabled: indexing is enabled and so is automatic indexing.
pub fn codebase_auto_indexing_enabled(
    flags: IndexingFeatureFlags,
    surface: CodebaseAutoIndexingSurface,
    codebase_context_enabled: bool,
    auto_indexing_enabled: bool,
) -> (r: bool)
    ensures
        r == (indexing_enabled_spec(flags, surface, codebase_context_enabled)
            && auto_indexing_enabled),
{
    codebase_indexing_enabled(flags, surface, codebase_context_enabled) && auto_indexing_enabled
}

/// Whether a codebase should be indexed automatically. Codebase context and automatic
/// indexing are both off here, since no search backend could query the index, so the answer
/// is always no.
pub fn should_auto_index_codebase(flags: IndexingFeatureFlags, surface: CodebaseAutoIndexingSurface) -> (r: bool)
    ensures
        !r,
{
    codebase_auto_indexing_enabled(flags, surface, false, false)
}

/// Whether the filter returned `r` for a root with these contents.
pub open spec fn has_verdict<F: Fn(&String) -> bool>(f: F, s: Seq<char>, r: bool) -> bool {
    exists|x: &String| x@ == s && #[trigger] call_ensures(f, (x,), r)
}

/// The filter's answer for a root, as a function of its contents.
pub open spec fn verdict_of<F: Fn(&String) -> bool>(f: F, s: Seq<char>) -> bool {
    choose|r: bool| #[trigger] has_verdict(f, s, r)
}

/// The filter gives equal answers for roots with equal contents.
pub open spec fn filter_deterministic<F: Fn(&String) -> bool>(f: F) -> bool {
    forall|a: &String, b: &String, ra: bool, rb: bool|
        a@ == b@ && #[trigger] call_ensures(f, (a,), ra) && #[trigger] call_ensures(f, (b,), rb)
            ==> ra == rb
}

/// Whether `roots[i]` is the first root with its contents.
pub open spec fn first_occurrence(roots: Seq<String>, i: int) -> bool {
    forall|j: int| 0 <= j < i ==> (#[trigger] roots[j])@ != roots[i]@
}

/// The candidates among the first `k` roots: each distinct root once, at its first
/// occurrence, when the filter accepts it.
pub open spec fn candidates_spec(roots: Seq<String>, k: int, keep: spec_fn(Seq<char>) -> bool) -> Seq<Seq<char>>
    decreases k,
{
    if k <= 0 {
        Seq::empty()
    } else {
        let prev = candidates_spec(roots, k - 1, keep);
        if first_occurrence(roots, k - 1) && keep(roots[k - 1]@) {
            prev.push(roots[k - 1]@)
        } else {
            prev
        }
    }
}

/// Whether `s` occurs among the first `k` roots.
fn seen_before(roots: &Vec<String>, k: usize, s: &String) -> (r: bool)
    requires
        k <= roots@.len(),
    ensures
        r == exists|j: int| 0 <= j < k && (#[trigger] roots@[j])@ == s@,
{
    let mut j: usize = 0;
    while j < k
        invariant
            k <= roots@.len(),
            j <= k,
            forall|i: int| 0 <= i < j ==> (#[trigger] roots@[i])@ != s@,
        decreases k - j,
    {
        if roots[j] == *s {
            return true;
        }
        j = j + 1;
    }
    false
}

/// The roots to request indexing for: duplicates removed (the first of each kept, in
/// order), then filtered by `should_request_index`, which is asked once per distinct root.
/// When the filter answers by contents alone, the result is exactly [`candidates_spec`].
pub fn auto_index_candidate_roots<F: Fn(&String) -> bool>(roots: Vec<String>, should_request_index: F) -> (r: Vec<String>)
    requires
        forall|x: &String| call_requires(should_request_index, (x,)),
    ensures
        filter_deterministic(should_request_index) ==> r.deep_view() == candidates_spec(
            roots@,
            roots@.len() as int,
            |s: Seq<char>| verdict_of(should_request_index, s),
        ),
        forall|i: int, j: int| 0 <= i < j < r@.len() ==> (#[trigger] r@[i])@ != (#[trigger] r@[j])@,
{
    let ghost keep = |s: Seq<char>| verdict_of(should_request_index, s);
    let mut candidates: Vec<String> = Vec::new();
    let mut i: usize = 0;
    while i < roots.len()
        invariant
            i <= roots@.len(),
            keep == |s: Seq<char>| verdict_of(should_request_index, s),
            forall|x: &String| call_requires(should_request_index, (x,)),
            filter_deterministic(should_request_index) ==> candidates.deep_view() == candidates_spec(roots@, i as int, keep),
            forall|a: int, b: int| 0 <= a < b < candidates@.len() ==> (#[trigger] candidates@[a])@ != (#[trigger] candidates@[b])@,
            forall|a: int, j: int| 0 <= a < candidates@.len() && i <= j < roots@.len() && first_occurrence(roots@, j) ==> (#[trigger] roots@[j])@ != (#[trigger] candidates@[a])@,
        decreases roots@.len() - i,
    {
        let root = &roots[i];
        let fresh = !seen_before(&roots, i, root);
        if fresh {
            let accept = should_request_index(root);
            proof {
                if filter_deterministic(should_request_index) {
                    assert(has_verdict(should_request_index, root@, accept));
                    let r2 = verdict_of(should_request_index, root@);
                    assert(has_verdict(should_request_index, root@, r2));
                    let x2 = choose|x2: &String| x2@ == root@ && call_ensures(should_request_index, (x2,), r2);
                    assert(call_ensures(should_request_index, (x2,), r2));
                    assert(keep(root@) == accept);
                }
            }
            if accept {
                proof {
                    assert forall|a: int| 0 <= a < candidates@.len() implies (#[trigger] candidates@[a])@ != root@ by {
                        assert(first_occurrence(roots@, i as int));
                    }
                }
                candidates.push(root.clone());
            }
        }
        proof {
            assert(first_occurrence(roots@, i as int) == fresh);
        }
        i = i + 1;
    }
    candidates
}

} // verus!
