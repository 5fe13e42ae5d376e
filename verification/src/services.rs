//! Orchestration over the capability ports: the per-dependency updater and
//! the all-dependencies manager.
//!
//! These functions drive unverified collaborators (real fetchers, file
//! systems and version control reached through the ports), so their own
//! contracts cannot pin down effects on the outside world.  Every decision
//! they take on a port's result therefore runs through a contracted
//! function: the fetch outcome and the fetched tree are handed as values to
//! `sync_one`, which computes the new target content with the engine's full
//! contract, and the clean-workspace precondition is decided by
//! `workspace_precondition`.

use vstd::prelude::*;

use crate::error::DomainError;
use crate::models::Dependency;
use crate::paths::join_path;
use crate::repositories::{
    workspace_precondition, FileSystemManager, GitOperations, RepositoryFetcher,
};
use crate::selector::all_patterns_ok;
use crate::sync::{sync_one, FetchOutcome};
use crate::tree::FileTree;

verus! {

/// Service for updating a single dependency: scratch fetch, target clean,
/// selective materialize, scratch release.
pub struct DependencyUpdater<R, F, G> where
    R: RepositoryFetcher,
    F: FileSystemManager,
    G: GitOperations,
 {
    repository_fetcher: R,
    file_system_manager: F,
    git_operations: G,
}

impl<R, F, G> DependencyUpdater<R, F, G> where
    R: RepositoryFetcher,
    F: FileSystemManager,
    G: GitOperations,
 {
    pub fn new(repository_fetcher: R, file_system_manager: F, git_operations: G) -> Self {
        DependencyUpdater { repository_fetcher, file_system_manager, git_operations }
    }

    /// Updates a single dependency.  The fetch runs into a scratch
    /// directory and its outcome — the fetched tree, or the failure — is
    /// handed to `sync_one`, which decides the result and computes the new
    /// target content.  Only after a successful fetch is the target created,
    /// cleaned and rewritten with what the engine computed (on a selection
    /// failure that is the cleaned state plus any selected directories); a
    /// failed fetch leaves the target untouched.  The scratch directory is
    /// released on every path once it was allocated.
    ///
    /// Whatever the collaborators return, an invalid selection pattern can
    /// never yield success: the engine rejects it for every fetch outcome.
    pub fn update(&self, dependency: &Dependency, repo_root: &str) -> (r: Result<
        (),
        DomainError,
    >)
        ensures
            dependency@.sparse_paths.len() > 0 && !all_patterns_ok(dependency@.sparse_paths)
                ==> r is Err,
    {
        let temp_dir = match self.file_system_manager.create_temp_directory() {
            Ok(t) => t,
            Err(e) => {
                return Err(e);
            },
        };
        let outcome = match self.repository_fetcher.fetch(
            dependency.repository_url.as_str(),
            dependency.revision.as_str(),
            temp_dir.as_str(),
        ) {
            Ok(()) => {
                match self.file_system_manager.read_tree(temp_dir.as_str()) {
                    Ok(tree) => FetchOutcome::Fetched(tree),
                    Err(e) => {
                        let _ = self.file_system_manager.remove_temp_directory(temp_dir.as_str());
                        return Err(e);
                    },
                }
            },
            Err(e) => FetchOutcome::Failed(e),
        };
        let mut staged = FileTree::empty();
        let result = sync_one(dependency, &outcome, &mut staged);
        match &outcome {
            FetchOutcome::Failed(_) => {
                // By sync_one's contract the result is the fetch's own error
                // and nothing was staged; the target is never touched.
                let _ = self.file_system_manager.remove_temp_directory(temp_dir.as_str());
                return result;
            },
            FetchOutcome::Fetched(_) => (),
        }
        let target_path = join_path(repo_root, dependency.target_location.as_str());
        match self.file_system_manager.create_directory(target_path.as_str()) {
            Ok(()) => (),
            Err(e) => {
                let _ = self.file_system_manager.remove_temp_directory(temp_dir.as_str());
                return Err(e);
            },
        }
        match self.file_system_manager.clean_directory(target_path.as_str()) {
            Ok(()) => (),
            Err(e) => {
                let _ = self.file_system_manager.remove_temp_directory(temp_dir.as_str());
                return Err(e);
            },
        }
        // Materialize what the engine computed — even when it reported a
        // selection failure, the target keeps exactly the selected
        // directories over the cleaned state.
        match self.file_system_manager.write_tree(target_path.as_str(), &staged) {
            Ok(()) => (),
            Err(e) => {
                let _ = self.file_system_manager.remove_temp_directory(temp_dir.as_str());
                return Err(e);
            },
        }
        match &result {
            Ok(()) => {
                match self.file_system_manager.remove_temp_directory(temp_dir.as_str()) {
                    Ok(()) => Ok(()),
                    Err(e) => Err(e),
                }
            },
            Err(_) => {
                let _ = self.file_system_manager.remove_temp_directory(temp_dir.as_str());
                result
            },
        }
    }
}

/// Service for managing all dependencies: guards the clean-workspace
/// precondition, fans out over the declared dependencies in order stopping at
/// the first failure, and optionally commits the aggregate result.
pub struct DependencyManager<R, F, G> where
    R: RepositoryFetcher,
    F: FileSystemManager,
    G: GitOperations,
 {
    dependency_updater: DependencyUpdater<R, F, G>,
}

impl<R, F, G> DependencyManager<R, F, G> where
    R: RepositoryFetcher,
    F: FileSystemManager,
    G: GitOperations,
 {
    pub fn new(repository_fetcher: R, file_system_manager: F, git_operations: G) -> Self {
        DependencyManager {
            dependency_updater: DependencyUpdater::new(
                repository_fetcher,
                file_system_manager,
                git_operations,
            ),
        }
    }

    /// Asserts the clean-workspace precondition (decided by
    /// `workspace_precondition`) unless overridden, updates each dependency
    /// in declaration order stopping at the first failure — later
    /// dependencies are never fetched — and on full success optionally
    /// stages and commits with the given message.  Without a message,
    /// changes are left uncommitted for manual inspection.
    ///
    /// A run over a dependency whose selection patterns are invalid can
    /// never succeed, whatever the collaborators return.
    pub fn update_all(
        &self,
        dependencies: &Vec<Dependency>,
        repo_root: &str,
        commit_message: Option<&String>,
        force: bool,
    ) -> (r: Result<(), DomainError>)
        ensures
            force && dependencies@.len() == 0 && commit_message is None ==> r is Ok,
            (exists|i: int|
                0 <= i < dependencies@.len() && dependencies.deep_view()[i].sparse_paths.len() > 0
                    && !all_patterns_ok(
                    #[trigger] dependencies.deep_view()[i].sparse_paths,
                )) ==> r is Err,
    {
        if !force {
            let is_repo = match self.dependency_updater.git_operations.is_git_repository(
                repo_root,
            ) {
                Ok(b) => b,
                Err(e) => {
                    return Err(e);
                },
            };
            let status = if is_repo {
                match self.dependency_updater.git_operations.get_status(repo_root) {
                    Ok(s) => s,
                    Err(e) => {
                        return Err(e);
                    },
                }
            } else {
                crate::repositories::GitStatus {
                    has_staged_changes: false,
                    has_unstaged_changes: false,
                    has_untracked_files: false,
                }
            };
            match workspace_precondition(is_repo, &status, false) {
                Ok(()) => (),
                Err(e) => {
                    return Err(e);
                },
            }
        }
        let mut i: usize = 0;
        while i < dependencies.len()
            invariant
                i <= dependencies@.len(),
                forall|j: int| 0 <= j < i ==> !(dependencies.deep_view()[j].sparse_paths.len() > 0
                    && !all_patterns_ok(#[trigger] dependencies.deep_view()[j].sparse_paths)),
            decreases dependencies.len() - i,
        {
            proof {
                assert(dependencies.deep_view()[i as int] == dependencies@[i as int]@);
            }
            match self.dependency_updater.update(&dependencies[i], repo_root) {
                Ok(()) => (),
                Err(e) => {
                    return Err(e);
                },
            }
            i = i + 1;
        }
        match commit_message {
            Some(message) => {
                let is_repo = match self.dependency_updater.git_operations.is_git_repository(
                    repo_root,
                ) {
                    Ok(b) => b,
                    Err(e) => {
                        return Err(e);
                    },
                };
                if is_repo {
                    match self.dependency_updater.git_operations.stage_all(repo_root) {
                        Ok(()) => (),
                        Err(e) => {
                            return Err(e);
                        },
                    }
                    match self.dependency_updater.git_operations.commit(
                        repo_root,
                        message.as_str(),
                    ) {
                        Ok(()) => (),
                        Err(e) => {
                            return Err(e);
                        },
                    }
                }
                Ok(())
            },
            None => Ok(()),
        }
    }
}

} // verus!
