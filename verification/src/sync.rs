//! The Dependency Updater and Manager semantics over in-memory trees.
//!
//! Per dependency the update runs: fetch into scratch, clean the target,
//! selectively extract, release scratch.  Cleaning happens only after a
//! successful fetch, so a failed fetch never destroys previously vendored
//! content.  The fan-out updates dependencies in order and stops at the first
//! failure, leaving later targets untouched; nothing is rolled back.
//!
//! `sync_one` and `sync_all` are that engine, with the outcome of the
//! external fetch step supplied as a value: every decision the engine makes
//! from there on is verified for every possible outcome.

use vstd::prelude::*;

use crate::error::{DomainError, DomainErrorView};
use crate::models::{Dependency, DependencyView};
use crate::repositories::GitStatus;
use crate::selector::all_patterns_ok;
use crate::selector::{first_invalid, invalid_pattern_message};
use crate::tree::{
    extract_into, has_selected_file, merged, no_match_message, selected_entries, FileTree,
    TreeEntryView,
};

verus! {

/// Abstract value of a `FetchOutcome`.
pub enum FetchOutcomeView {
    Fetched(Seq<TreeEntryView>),
    Failed(DomainErrorView),
}

/// What the fetch step produced for one dependency: the tree fetched into the
/// scratch directory, or the failure it reported.
#[derive(Debug, Clone, PartialEq, Eq)]
pub enum FetchOutcome {
    Fetched(FileTree),
    Failed(DomainError),
}

impl View for FetchOutcome {
    type V = FetchOutcomeView;

    open spec fn view(&self) -> FetchOutcomeView {
        match self {
            FetchOutcome::Fetched(t) => FetchOutcomeView::Fetched(t@),
            FetchOutcome::Failed(e) => FetchOutcomeView::Failed(e@),
        }
    }
}

impl DeepView for FetchOutcome {
    type V = FetchOutcomeView;

    open spec fn deep_view(&self) -> FetchOutcomeView {
        self.view()
    }
}

/// Whether updating one dependency succeeds, given what its fetch produced.
pub open spec fn sync_succeeds(dep: DependencyView, fetched: FetchOutcomeView) -> bool {
    match fetched {
        FetchOutcomeView::Failed(_) => false,
        FetchOutcomeView::Fetched(tree) => dep.sparse_paths.len() == 0 || (all_patterns_ok(
            dep.sparse_paths,
        ) && has_selected_file(dep.sparse_paths, tree)),
    }
}

/// The dependency's target tree after one update attempt over `before`.
/// A failed fetch leaves the target untouched; after a successful fetch the
/// target is cleaned and then filled with what extraction selected, so a
/// selection failure leaves behind exactly the selected directories (none,
/// when nothing matched at all).
pub open spec fn target_after(
    dep: DependencyView,
    fetched: FetchOutcomeView,
    before: Seq<TreeEntryView>,
) -> Seq<TreeEntryView> {
    match fetched {
        FetchOutcomeView::Failed(_) => before,
        FetchOutcomeView::Fetched(tree) => if dep.sparse_paths.len() == 0 {
            tree
        } else if !all_patterns_ok(dep.sparse_paths) {
            Seq::empty()
        } else {
            selected_entries(dep.sparse_paths, tree)
        },
    }
}

/// The error a failed extraction reports: the leftmost invalid pattern, or
/// the (non-empty) pattern set that selected no file, named in the message.
pub open spec fn extract_failure(patterns: Seq<Seq<char>>) -> DomainErrorView {
    if !all_patterns_ok(patterns) {
        DomainErrorView::PathPatternError(invalid_pattern_message(first_invalid(patterns)))
    } else {
        DomainErrorView::PathPatternError(no_match_message(patterns))
    }
}

/// Updates a single dependency's target tree from its fetch outcome.
///
/// If the fetch failed, the error is reported and the target is untouched:
/// cleaning happens only after a successful fetch.  Otherwise the target is
/// cleaned and the selected content extracted into it.
pub fn sync_one(dep: &Dependency, fetched: &FetchOutcome, target: &mut FileTree) -> (r: Result<
    (),
    DomainError,
>)
    ensures
        r is Ok <==> sync_succeeds(dep@, fetched@),
        final(target)@ == target_after(dep@, fetched@, old(target)@),
        fetched@ matches FetchOutcomeView::Failed(ev) ==> r matches Err(re) && re@ == ev,
        ((fetched@ matches FetchOutcomeView::Fetched(_)) && !sync_succeeds(dep@, fetched@)) ==> (
        r matches Err(re) && re@ == extract_failure(dep@.sparse_paths)),
{
    match fetched {
        FetchOutcome::Failed(e) => Err(e.duplicate()),
        FetchOutcome::Fetched(tree) => {
            target.clean();
            let r = extract_into(tree, &dep.sparse_paths, target);
            proof {
                assert(merged(Seq::<TreeEntryView>::empty(), tree@) =~= tree@);
                assert(merged(
                    Seq::<TreeEntryView>::empty(),
                    selected_entries(dep@.sparse_paths, tree@),
                ) =~= selected_entries(dep@.sparse_paths, tree@));
            }
            r
        },
    }
}

/// Every dependency before index `k` synchronizes successfully.
pub open spec fn all_succeed_upto(
    deps: Seq<DependencyView>,
    fetches: Seq<FetchOutcomeView>,
    k: int,
) -> bool {
    forall|i: int| 0 <= i < k ==> sync_succeeds(deps[i], fetches[i])
}

/// Index of the first dependency whose synchronization fails, or the number
/// of dependencies when every one succeeds.  This identifies the dependency
/// a failed run's error is attributable to.
pub open spec fn first_failure(deps: Seq<DependencyView>, fetches: Seq<FetchOutcomeView>) -> int
    decreases deps.len(),
{
    if deps.len() == 0 {
        0
    } else if !sync_succeeds(deps[0], fetches[0]) {
        0
    } else {
        1 + first_failure(
            deps.subrange(1, deps.len() as int),
            fetches.subrange(1, fetches.len() as int),
        )
    }
}

proof fn lemma_first_failure_at(deps: Seq<DependencyView>, fetches: Seq<FetchOutcomeView>, k: int)
    requires
        deps.len() == fetches.len(),
        0 <= k < deps.len(),
        all_succeed_upto(deps, fetches, k),
        !sync_succeeds(deps[k], fetches[k]),
    ensures
        first_failure(deps, fetches) == k,
    decreases deps.len(),
{
    if k > 0 {
        let drest = deps.subrange(1, deps.len() as int);
        let frest = fetches.subrange(1, fetches.len() as int);
        assert(!sync_succeeds(drest[k - 1], frest[k - 1]));
        assert forall|j: int| 0 <= j < k - 1 implies sync_succeeds(drest[j], frest[j]) by {
            assert(drest[j] == deps[j + 1]);
            assert(frest[j] == fetches[j + 1]);
        }
        lemma_first_failure_at(drest, frest, k - 1);
    }
}

/// The state of target `i` after a run of the manager over `before`: targets
/// are attempted in order until the first failure, so target `i` is updated
/// exactly when every earlier dependency succeeded.
pub open spec fn expected_target(
    deps: Seq<DependencyView>,
    fetches: Seq<FetchOutcomeView>,
    before: Seq<Seq<TreeEntryView>>,
    i: int,
) -> Seq<TreeEntryView> {
    if all_succeed_upto(deps, fetches, i) {
        target_after(deps[i], fetches[i], before[i])
    } else {
        before[i]
    }
}

/// Updates all dependencies in declaration order over their target trees.
///
/// Unless overridden by `force`, an unclean workspace fails the whole run
/// before any target is touched.  Otherwise dependencies are updated one at a
/// time; the first failure stops the run, later targets stay as they were,
/// and earlier successes are not rolled back.  The reported error is the
/// failing dependency's own.
pub fn sync_all(
    deps: &Vec<Dependency>,
    fetches: &Vec<FetchOutcome>,
    targets: &mut Vec<FileTree>,
    status: &GitStatus,
    force: bool,
) -> (r: Result<(), DomainError>)
    requires
        deps@.len() == fetches@.len(),
        old(targets)@.len() == deps@.len(),
    ensures
        final(targets)@.len() == old(targets)@.len(),
        !force && !status.clean_state() ==> (r matches Err(e) && e@ == DomainErrorView::GitError(
            "workspace has uncommitted changes"@,
        )) && final(targets).deep_view() == old(targets).deep_view(),
        force || status.clean_state() ==> forall|i: int|
            0 <= i < deps@.len() ==> final(targets).deep_view()[i] == expected_target(
                deps.deep_view(),
                fetches.deep_view(),
                old(targets).deep_view(),
                i,
            ),
        r is Ok <==> (force || status.clean_state()) && all_succeed_upto(
            deps.deep_view(),
            fetches.deep_view(),
            deps@.len() as int,
        ),
        ((force || status.clean_state()) && r is Err) ==> ({
            let k = first_failure(deps.deep_view(), fetches.deep_view());
            0 <= k < deps@.len() && !sync_succeeds(deps.deep_view()[k], fetches.deep_view()[k])
                && (match fetches.deep_view()[k] {
                FetchOutcomeView::Failed(ev) => r->Err_0@ == ev,
                FetchOutcomeView::Fetched(_) => r->Err_0@ == extract_failure(
                    deps.deep_view()[k].sparse_paths,
                ),
            })
        }),
{
    if !force && !status.is_clean() {
        return Err(DomainError::GitError(("workspace has uncommitted changes").to_owned()));
    }
    let ghost dv = deps.deep_view();
    let ghost fv = fetches.deep_view();
    let ghost tv = targets.deep_view();
    let mut out: Vec<FileTree> = Vec::new();
    let mut err: Option<DomainError> = None;
    let ghost mut fail_idx: int = 0;
    let mut i: usize = 0;
    while i < deps.len()
        invariant
            i <= deps@.len(),
            deps@.len() == fetches@.len(),
            targets@.len() == deps@.len(),
            dv == deps.deep_view(),
            fv == fetches.deep_view(),
            tv == targets.deep_view(),
            out@.len() == i,
            forall|j: int| 0 <= j < i ==> out@[j]@ == expected_target(dv, fv, tv, j),
            err is None <==> all_succeed_upto(dv, fv, i as int),
            err matches Some(e) ==> 0 <= fail_idx < i && all_succeed_upto(dv, fv, fail_idx)
                && !sync_succeeds(dv[fail_idx], fv[fail_idx]) && (match fv[fail_idx] {
                FetchOutcomeView::Failed(ev) => e@ == ev,
                FetchOutcomeView::Fetched(_) => e@ == extract_failure(dv[fail_idx].sparse_paths),
            }),
        decreases deps@.len() - i,
    {
        proof {
            assert(dv[i as int] == deps@[i as int]@);
            assert(fv[i as int] == fetches@[i as int]@);
            assert(tv[i as int] == targets@[i as int]@);
        }
        let attempt = err.is_none();
        if attempt {
            let mut cur = targets[i].duplicate();
            match sync_one(&deps[i], &fetches[i], &mut cur) {
                Ok(()) => {
                    proof {
                        assert(all_succeed_upto(dv, fv, i + 1));
                    }
                },
                Err(e) => {
                    err = Some(e);
                    proof {
                        fail_idx = i as int;
                        assert(!all_succeed_upto(dv, fv, i + 1));
                    }
                },
            }
            out.push(cur);
            proof {
                assert(out@[i as int]@ == expected_target(dv, fv, tv, i as int));
            }
        } else {
            out.push(targets[i].duplicate());
            proof {
                assert(!all_succeed_upto(dv, fv, i as int));
                assert(!all_succeed_upto(dv, fv, i + 1));
                assert(out@[i as int]@ == expected_target(dv, fv, tv, i as int));
            }
        }
        i = i + 1;
    }
    proof {
        assert forall|j: int| 0 <= j < deps@.len() implies out.deep_view()[j] == expected_target(
            dv,
            fv,
            tv,
            j,
        ) by {
            assert(out.deep_view()[j] == out@[j]@);
        }
    }
    *targets = out;
    match err {
        None => Ok(()),
        Some(e) => {
            proof {
                lemma_first_failure_at(dv, fv, fail_idx);
            }
            Err(e)
        },
    }
}

proof fn lemma_selected_entries_empty(patterns: Seq<Seq<char>>, entries: Seq<TreeEntryView>)
    requires
        forall|i: int| 0 <= i < entries.len() ==> !crate::selector::selects(
            patterns,
            entries[i].path,
        ),
    ensures
        selected_entries(patterns, entries) =~= Seq::<TreeEntryView>::empty(),
    decreases entries.len(),
{
    if entries.len() > 0 {
        assert forall|i: int| 0 <= i < entries.drop_last().len()
            implies !crate::selector::selects(patterns, entries.drop_last()[i].path) by {
            assert(entries.drop_last()[i] == entries[i]);
        }
        lemma_selected_entries_empty(patterns, entries.drop_last());
    }
}

/// With an empty pattern set, a successful fetch makes the target an exact
/// mirror of the fetched tree's full file set.
pub proof fn lemma_empty_patterns_mirror(
    dep: DependencyView,
    tree: Seq<TreeEntryView>,
    before: Seq<TreeEntryView>,
)
    requires
        dep.sparse_paths.len() == 0,
    ensures
        sync_succeeds(dep, FetchOutcomeView::Fetched(tree)),
        target_after(dep, FetchOutcomeView::Fetched(tree), before) == tree,
{
}

/// With a non-empty, valid pattern set that selects no path of the fetched
/// tree, the update attempt fails and the target is left empty, not restored:
/// cleaning happens before extraction.
pub proof fn lemma_no_match_leaves_target_empty(
    dep: DependencyView,
    tree: Seq<TreeEntryView>,
    before: Seq<TreeEntryView>,
)
    requires
        dep.sparse_paths.len() > 0,
        all_patterns_ok(dep.sparse_paths),
        forall|i: int| 0 <= i < tree.len() ==> !crate::selector::selects(
            dep.sparse_paths,
            tree[i].path,
        ),
    ensures
        !sync_succeeds(dep, FetchOutcomeView::Fetched(tree)),
        target_after(dep, FetchOutcomeView::Fetched(tree), before) =~= Seq::<
            TreeEntryView,
        >::empty(),
{
    lemma_selected_entries_empty(dep.sparse_paths, tree);
}

/// Running the manager twice with the same fetch outcomes changes nothing the
/// second time: the target trees after the second run equal those after the
/// first, whatever mix of successes and failures the run had.
pub proof fn lemma_sync_all_idempotent(
    deps: Seq<DependencyView>,
    fetches: Seq<FetchOutcomeView>,
    t0: Seq<Seq<TreeEntryView>>,
    t1: Seq<Seq<TreeEntryView>>,
    t2: Seq<Seq<TreeEntryView>>,
)
    requires
        deps.len() == fetches.len(),
        t0.len() == deps.len(),
        t1.len() == deps.len(),
        t2.len() == deps.len(),
        forall|i: int| 0 <= i < deps.len() ==> t1[i] == expected_target(deps, fetches, t0, i),
        forall|i: int| 0 <= i < deps.len() ==> t2[i] == expected_target(deps, fetches, t1, i),
    ensures
        t2 =~= t1,
{
    assert forall|i: int| 0 <= i < deps.len() implies t2[i] == t1[i] by {
        if all_succeed_upto(deps, fetches, i) {
            match fetches[i] {
                FetchOutcomeView::Failed(_) => {
                    assert(t1[i] == t0[i]);
                    assert(t2[i] == t1[i]);
                },
                FetchOutcomeView::Fetched(_) => {
                    assert(t1[i] == target_after(deps[i], fetches[i], t0[i]));
                    assert(t2[i] == target_after(deps[i], fetches[i], t1[i]));
                },
            }
        }
    }
}

} // verus!
