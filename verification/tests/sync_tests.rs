use acdm::error::DomainError;
use acdm::models::{Dependency, RepositoryType};
use acdm::repositories::{
    FileSystemManager, GitOperations, GitStatus, RepositoryFetcher,
};
use acdm::services::{DependencyManager, DependencyUpdater};
use acdm::sync::{sync_all, sync_one, FetchOutcome};
use acdm::tree::{FileTree, TreeEntry};

fn file(path: &str, data: &[u8]) -> TreeEntry {
    TreeEntry { path: path.to_string(), is_dir: false, data: data.to_vec() }
}

fn tree(entries: Vec<TreeEntry>) -> FileTree {
    FileTree { entries }
}

fn dep(name: &str, patterns: &[&str], target: &str) -> Dependency {
    Dependency {
        name: name.to_string(),
        repository_url: format!("git@example.com:{}.git", name),
        revision: "main".to_string(),
        repository_type: RepositoryType::Git,
        sparse_paths: patterns.iter().map(|p| p.to_string()).collect(),
        target_location: target.to_string(),
    }
}

fn clean_status() -> GitStatus {
    GitStatus {
        has_staged_changes: false,
        has_unstaged_changes: false,
        has_untracked_files: false,
    }
}

#[test]
fn fetch_failure_leaves_target_untouched() {
    // Clean-before-fetch ordering: a failed fetch never reaches the clean step.
    let d = dep("a", &[], "vendor/a");
    let failure = FetchOutcome::Failed(DomainError::GitError("clone failed".to_string()));
    let before = tree(vec![file("kept.txt", b"kept")]);
    let mut target = before.clone();
    let r = sync_one(&d, &failure, &mut target);
    assert_eq!(r, Err(DomainError::GitError("clone failed".to_string())));
    assert_eq!(target, before);
}

#[test]
fn successful_sync_replaces_target() {
    let d = dep("a", &[], "vendor/a");
    let fetched = FetchOutcome::Fetched(tree(vec![file("new.txt", b"new")]));
    let mut target = tree(vec![file("stale.txt", b"stale")]);
    let r = sync_one(&d, &fetched, &mut target);
    assert!(r.is_ok());
    assert_eq!(target, tree(vec![file("new.txt", b"new")]));
}

#[test]
fn selective_sync_cleans_then_extracts() {
    let d = dep("a", &["docs/**"], "vendor/a");
    let fetched =
        FetchOutcome::Fetched(tree(vec![file("docs/a.md", b"a"), file("src/b.rs", b"b")]));
    let mut target = tree(vec![file("stale.txt", b"stale")]);
    let r = sync_one(&d, &fetched, &mut target);
    assert!(r.is_ok());
    assert_eq!(target, tree(vec![file("docs/a.md", b"a")]));
}

#[test]
fn no_match_sync_fails_with_emptied_target() {
    let d = dep("a", &["nothing/**"], "vendor/a");
    let fetched = FetchOutcome::Fetched(tree(vec![file("docs/a.md", b"a")]));
    let mut target = tree(vec![file("stale.txt", b"stale")]);
    let r = sync_one(&d, &fetched, &mut target);
    assert!(matches!(r, Err(DomainError::PathPatternError(_))));
    assert_eq!(target.len(), 0);
}

#[test]
fn partial_failure_updates_earlier_targets_only() {
    // Dependencies [a, b, c] where b's fetch fails: a's target is updated,
    // b's and c's are unchanged, and the error is b's own.
    let deps = vec![dep("a", &[], "vendor/a"), dep("b", &[], "vendor/b"), dep("c", &[], "vendor/c")];
    let b_error = DomainError::GitError("clone of b failed".to_string());
    let fetches = vec![
        FetchOutcome::Fetched(tree(vec![file("a.txt", b"a")])),
        FetchOutcome::Failed(b_error.clone()),
        FetchOutcome::Fetched(tree(vec![file("c.txt", b"c")])),
    ];
    let before_b = tree(vec![file("old-b.txt", b"b")]);
    let before_c = tree(vec![file("old-c.txt", b"c")]);
    let mut targets = vec![FileTree::empty(), before_b.clone(), before_c.clone()];
    let r = sync_all(&deps, &fetches, &mut targets, &clean_status(), false);
    assert_eq!(r, Err(b_error));
    assert_eq!(targets[0], tree(vec![file("a.txt", b"a")]));
    assert_eq!(targets[1], before_b);
    assert_eq!(targets[2], before_c);
}

#[test]
fn unclean_workspace_fails_before_any_update() {
    let deps = vec![dep("a", &[], "vendor/a")];
    let fetches = vec![FetchOutcome::Fetched(tree(vec![file("a.txt", b"a")]))];
    let before = tree(vec![file("old.txt", b"old")]);
    let mut targets = vec![before.clone()];
    let status = GitStatus {
        has_staged_changes: false,
        has_unstaged_changes: false,
        has_untracked_files: true,
    };
    let r = sync_all(&deps, &fetches, &mut targets, &status, false);
    assert!(matches!(r, Err(DomainError::GitError(_))));
    assert_eq!(targets[0], before);
}

#[test]
fn force_overrides_unclean_workspace() {
    let deps = vec![dep("a", &[], "vendor/a")];
    let fetches = vec![FetchOutcome::Fetched(tree(vec![file("a.txt", b"a")]))];
    let mut targets = vec![FileTree::empty()];
    let status = GitStatus {
        has_staged_changes: true,
        has_unstaged_changes: false,
        has_untracked_files: false,
    };
    let r = sync_all(&deps, &fetches, &mut targets, &status, true);
    assert!(r.is_ok());
    assert_eq!(targets[0], tree(vec![file("a.txt", b"a")]));
}

#[test]
fn update_all_twice_is_idempotent() {
    // With the same fetch outcomes and patterns, a second run leaves every
    // target tree byte-identical to the first run's result.
    let deps = vec![dep("a", &["docs/**"], "vendor/a"), dep("b", &[], "vendor/b")];
    let fetches = vec![
        FetchOutcome::Fetched(tree(vec![file("docs/a.md", b"a"), file("src/x.rs", b"x")])),
        FetchOutcome::Fetched(tree(vec![file("b.txt", b"b")])),
    ];
    let mut targets = vec![FileTree::empty(), FileTree::empty()];
    let r1 = sync_all(&deps, &fetches, &mut targets, &clean_status(), false);
    assert!(r1.is_ok());
    let after_first = targets.clone();
    let r2 = sync_all(&deps, &fetches, &mut targets, &clean_status(), false);
    assert!(r2.is_ok());
    assert_eq!(targets, after_first);
}

struct StubFetcher;

impl RepositoryFetcher for StubFetcher {
    fn fetch(&self, url: &str, revision: &str, _temp_path: &str) -> Result<(), DomainError> {
        if url == "git@github.com:example/repo.git" && revision == "main" {
            Ok(())
        } else {
            Err(DomainError::GitError("unexpected fetch".to_string()))
        }
    }

    fn extract_paths(
        &self,
        _repo_path: &str,
        _patterns: &Vec<String>,
        _target_path: &str,
    ) -> Result<(), DomainError> {
        Ok(())
    }
}

struct StubFileSystem;

impl FileSystemManager for StubFileSystem {
    fn clean_directory(&self, _path: &str) -> Result<(), DomainError> {
        Ok(())
    }

    fn copy_content(&self, _source: &str, _destination: &str) -> Result<(), DomainError> {
        Ok(())
    }

    fn create_directory(&self, _path: &str) -> Result<(), DomainError> {
        Ok(())
    }

    fn create_temp_directory(&self) -> Result<String, DomainError> {
        Ok("scratch".to_string())
    }

    fn remove_temp_directory(&self, _path: &str) -> Result<(), DomainError> {
        Ok(())
    }

    fn read_tree(&self, _path: &str) -> Result<FileTree, DomainError> {
        Ok(tree(vec![file("docs/a.md", b"a"), file("src/lib.rs", b"l")]))
    }

    fn write_tree(&self, _path: &str, _tree: &FileTree) -> Result<(), DomainError> {
        Ok(())
    }

    fn path_exists(&self, _path: &str) -> bool {
        true
    }
}

struct StubGit {
    clean: bool,
}

impl GitOperations for StubGit {
    fn stage_all(&self, _repo_path: &str) -> Result<(), DomainError> {
        Ok(())
    }

    fn commit(&self, _repo_path: &str, _message: &str) -> Result<(), DomainError> {
        Ok(())
    }

    fn is_git_repository(&self, _path: &str) -> Result<bool, DomainError> {
        Ok(true)
    }

    fn get_status(&self, _repo_path: &str) -> Result<GitStatus, DomainError> {
        Ok(GitStatus {
            has_staged_changes: false,
            has_unstaged_changes: false,
            has_untracked_files: !self.clean,
        })
    }
}

#[test]
fn test_dependency_update_with_mocks() {
    let dependency = Dependency {
        name: "example-dep".to_string(),
        repository_url: "git@github.com:example/repo.git".to_string(),
        revision: "main".to_string(),
        repository_type: RepositoryType::Git,
        sparse_paths: vec!["docs/**".to_string(), "src/**".to_string()],
        target_location: "vendor/example".to_string(),
    };
    let updater = DependencyUpdater::new(StubFetcher, StubFileSystem, StubGit { clean: true });
    let result = updater.update(&dependency, "repo-root");
    assert!(result.is_ok(), "Expected update to succeed, got: {:?}", result);
}

#[test]
fn updater_propagates_fetch_failure() {
    // The stub fetcher only accepts the expected URL; any other fetch fails,
    // and the updater reports that failure.
    let d = dep("unknown", &[], "vendor/unknown");
    let updater = DependencyUpdater::new(StubFetcher, StubFileSystem, StubGit { clean: true });
    let r = updater.update(&d, "repo-root");
    assert_eq!(r, Err(DomainError::GitError("unexpected fetch".to_string())));
}

#[test]
fn updater_rejects_invalid_patterns_whatever_the_ports_do() {
    let d = Dependency {
        name: "example".to_string(),
        repository_url: "git@github.com:example/repo.git".to_string(),
        revision: "main".to_string(),
        repository_type: RepositoryType::Git,
        sparse_paths: vec!["a**".to_string()],
        target_location: "vendor/example".to_string(),
    };
    let updater = DependencyUpdater::new(StubFetcher, StubFileSystem, StubGit { clean: true });
    let r = updater.update(&d, "repo-root");
    match r {
        Err(DomainError::PathPatternError(m)) => {
            assert_eq!(m, "invalid pattern: a**");
        }
        other => panic!("expected a pattern error, got {:?}", other),
    }
}

#[test]
fn updater_reports_patterns_that_matched_nothing() {
    let d = Dependency {
        name: "example".to_string(),
        repository_url: "git@github.com:example/repo.git".to_string(),
        revision: "main".to_string(),
        repository_type: RepositoryType::Git,
        sparse_paths: vec!["nothing/**".to_string()],
        target_location: "vendor/example".to_string(),
    };
    let updater = DependencyUpdater::new(StubFetcher, StubFileSystem, StubGit { clean: true });
    let r = updater.update(&d, "repo-root");
    match r {
        Err(DomainError::PathPatternError(m)) => {
            assert_eq!(m, "No files matched the provided patterns: nothing/**");
        }
        other => panic!("expected a no-match error, got {:?}", other),
    }
}

#[test]
fn manager_rejects_unclean_workspace() {
    let deps = vec![dep("a", &[], "vendor/a")];
    let manager =
        DependencyManager::new(StubFetcher, StubFileSystem, StubGit { clean: false });
    let r = manager.update_all(&deps, "root", None, false);
    assert!(matches!(r, Err(DomainError::GitError(_))));
}

#[test]
fn manager_commits_on_success_with_message() {
    let d = Dependency {
        name: "example".to_string(),
        repository_url: "git@github.com:example/repo.git".to_string(),
        revision: "main".to_string(),
        repository_type: RepositoryType::Git,
        sparse_paths: Vec::new(),
        target_location: "vendor/example".to_string(),
    };
    let manager = DependencyManager::new(StubFetcher, StubFileSystem, StubGit { clean: true });
    let message = "Update dependencies".to_string();
    let r = manager.update_all(&vec![d], "root", Some(&message), false);
    assert!(r.is_ok());
}
