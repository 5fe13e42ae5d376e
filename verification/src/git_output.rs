//! Classification of version-control process output.  The engine's decisions
//! that depend on captured text — which clone failure triggers the fallback,
//! when a commit's failure is benign, whether untracked files exist — are
//! isolated here as verified functions over the captured strings.

use vstd::prelude::*;

use crate::error::{DomainError, DomainErrorView};
use crate::repositories::GitStatus;
use crate::text::{all_blank, contains_seq, str_contains, str_is_blank};

verus! {

/// The clone failure that triggers the fallback strategy: the remote has no
/// such branch or tag.  Any other failure class is fatal and not retried.
pub open spec fn branch_not_found_text(stderr: Seq<char>) -> bool {
    contains_seq(stderr, "Remote branch"@) && contains_seq(stderr, "not found"@)
}

/// Decides from a failed clone's diagnostic text whether to fall back to a
/// full clone plus explicit checkout.
pub fn is_branch_not_found(stderr: &str) -> (r: bool)
    ensures
        r == branch_not_found_text(stderr@),
{
    str_contains(stderr, "Remote branch") && str_contains(stderr, "not found")
}

/// A failed commit is benign exactly when there was nothing to commit.
pub open spec fn commit_acceptable(exit_ok: bool, stdout: Seq<char>, stderr: Seq<char>) -> bool {
    exit_ok || contains_seq(stderr, "nothing to commit"@) || contains_seq(
        stdout,
        "nothing to commit"@,
    )
}

/// The error text a rejected commit reports, carrying the captured
/// diagnostic.
pub open spec fn commit_failure_message(stderr: Seq<char>) -> Seq<char> {
    "commit failed: "@ + stderr
}

/// Decides a commit attempt's outcome from its exit status and captured
/// output: "nothing to commit" counts as success; anything else that failed
/// is an error carrying the captured diagnostic.
pub fn commit_outcome(exit_ok: bool, stdout: &str, stderr: &str) -> (r: Result<(), DomainError>)
    ensures
        r is Ok <==> commit_acceptable(exit_ok, stdout@, stderr@),
        r matches Err(e) ==> e@ == DomainErrorView::GitError(commit_failure_message(stderr@)),
{
    if exit_ok {
        return Ok(());
    }
    if str_contains(stderr, "nothing to commit") || str_contains(stdout, "nothing to commit") {
        return Ok(());
    }
    let mut m = ("commit failed: ").to_owned();
    m.append(stderr);
    Err(DomainError::GitError(m))
}

/// Assembles the workspace status from the three independent checks: the exit
/// statuses of the staged and unstaged diff queries, and the listing of
/// untracked files (untracked exactly when the listing is not blank).
pub fn status_from_checks(staged_diff_clean: bool, unstaged_diff_clean: bool, untracked_listing:
    &str) -> (r: GitStatus)
    ensures
        r.has_staged_changes == !staged_diff_clean,
        r.has_unstaged_changes == !unstaged_diff_clean,
        r.has_untracked_files == !all_blank(untracked_listing@),
{
    GitStatus {
        has_staged_changes: !staged_diff_clean,
        has_unstaged_changes: !unstaged_diff_clean,
        has_untracked_files: !str_is_blank(untracked_listing),
    }
}

} // verus!
