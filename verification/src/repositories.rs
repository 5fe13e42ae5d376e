//! Capability interfaces (ports) consumed by the synchronization engine, and
//! the workspace status value the Workspace State Guard reports.
//!
//! Production implementations of these ports invoke external processes and
//! the real file system, so they live outside the verified library; the
//! engine is written against the interfaces alone.

use vstd::prelude::*;

use crate::error::{DomainError, DomainErrorView};
use crate::models::Configuration;
use crate::tree::FileTree;

verus! {

/// Git repository status information: the three independent dirtiness checks.
#[derive(Debug, Clone, Copy, PartialEq, Eq, Structural)]
pub struct GitStatus {
    pub has_staged_changes: bool,
    pub has_unstaged_changes: bool,
    pub has_untracked_files: bool,
}

impl GitStatus {
    /// A workspace is clean exactly when none of the three checks reports changes.
    pub open spec fn clean_state(self) -> bool {
        !self.has_staged_changes && !self.has_unstaged_changes && !self.has_untracked_files
    }

    /// Whether the workspace is in a known, clean state.
    pub fn is_clean(&self) -> (r: bool)
        ensures
            r == self.clean_state(),
    {
        !self.has_staged_changes && !self.has_unstaged_changes && !self.has_untracked_files
    }
}

/// Decides the clean-workspace precondition from what the Workspace State
/// Guard reported.  Unless overridden, a directory outside a workspace, or a
/// workspace with staged, unstaged or untracked changes, fails the run.
pub fn workspace_precondition(is_repo: bool, status: &GitStatus, force: bool) -> (r: Result<
    (),
    DomainError,
>)
    ensures
        r is Ok <==> force || (is_repo && status.clean_state()),
        !force && !is_repo ==> (r matches Err(e) && e@ == DomainErrorView::GitError(
            "not inside a version-controlled workspace"@,
        )),
        !force && is_repo && !status.clean_state() ==> (r matches Err(e) && e@
            == DomainErrorView::GitError("workspace has uncommitted changes"@)),
{
    if force {
        return Ok(());
    }
    if !is_repo {
        return Err(DomainError::GitError(("not inside a version-controlled workspace").to_owned()));
    }
    if !status.is_clean() {
        return Err(DomainError::GitError(("workspace has uncommitted changes").to_owned()));
    }
    Ok(())
}

/// Port for retrieving repository content.
pub trait RepositoryFetcher {
    /// Fetches content from a remote repository at a revision into a local
    /// scratch directory.
    fn fetch(&self, url: &str, revision: &str, temp_path: &str) -> Result<(), DomainError>;

    /// Extracts the paths selected by glob patterns from a fetched repository
    /// into a target directory.
    fn extract_paths(&self, repo_path: &str, patterns: &Vec<String>, target_path: &str) -> Result<
        (),
        DomainError,
    >;
}

/// Port for file system operations.
pub trait FileSystemManager {
    /// Removes every direct child of `path`; succeeds trivially if `path`
    /// does not exist.
    fn clean_directory(&self, path: &str) -> Result<(), DomainError>;

    /// Recursively mirrors `source` into `destination`.
    fn copy_content(&self, source: &str, destination: &str) -> Result<(), DomainError>;

    /// Creates the directory (and parents) if absent.
    fn create_directory(&self, path: &str) -> Result<(), DomainError>;

    /// Allocates an ephemeral scratch directory.
    fn create_temp_directory(&self) -> Result<String, DomainError>;

    /// Releases a scratch directory; safe on a path that no longer exists.
    fn remove_temp_directory(&self, path: &str) -> Result<(), DomainError>;

    /// Reads the directory at `path` into an in-memory tree of its entries.
    fn read_tree(&self, path: &str) -> Result<FileTree, DomainError>;

    /// Materializes an in-memory tree under `path`.
    fn write_tree(&self, path: &str, tree: &FileTree) -> Result<(), DomainError>;

    /// Whether a path exists on disk.
    fn path_exists(&self, path: &str) -> bool;
}

/// Port for version-control operations on the enclosing workspace.
pub trait GitOperations {
    /// Stages all changes in the workspace.
    fn stage_all(&self, repo_path: &str) -> Result<(), DomainError>;

    /// Commits staged changes; "nothing to commit" counts as success.
    fn commit(&self, repo_path: &str, message: &str) -> Result<(), DomainError>;

    /// Whether `path` lies inside a version-controlled workspace.
    fn is_git_repository(&self, path: &str) -> Result<bool, DomainError>;

    /// The current workspace status.
    fn get_status(&self, repo_path: &str) -> Result<GitStatus, DomainError>;
}

/// Port for loading and storing the configuration.
pub trait ConfigurationRepository {
    /// Loads the configuration from a file.
    fn load(&self, path: &str) -> Result<Configuration, DomainError>;

    /// Saves the configuration to a file.
    fn save(&self, config: &Configuration, path: &str) -> Result<(), DomainError>;

    /// Initializes a new, empty configuration file.
    fn init(&self, path: &str) -> Result<(), DomainError>;
}

} // verus!
