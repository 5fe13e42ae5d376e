use acdm::auth::AuthenticationService;
use acdm::error::DomainError;
use acdm::examples::{AuthHelper, ErrorHandler};
use acdm::git_output::{commit_outcome, is_branch_not_found, status_from_checks};
use acdm::models::{AuthType, RepositoryAuth};
use acdm::paths::{join_path, parent_dir};
use acdm::text::{str_contains, str_eq, str_find, str_is_blank, str_starts_with};

#[test]
fn string_equality_is_exact() {
    assert!(str_eq("abc", "abc"));
    assert!(!str_eq("abc", "abd"));
    assert!(!str_eq("abc", "ab"));
    assert!(str_eq("", ""));
}

#[test]
fn substring_search_finds_needles() {
    assert!(str_contains("Remote branch main not found", "not found"));
    assert!(str_contains("abc", ""));
    assert!(!str_contains("abc", "abcd"));
    assert!(str_contains("aaab", "aab"));
    assert!(!str_contains("nothing here", "commit"));
}

#[test]
fn prefix_test_checks_start_only() {
    assert!(str_starts_with("git@github.com:x/y.git", "git@"));
    assert!(!str_starts_with("https://github.com", "git@"));
    assert!(str_starts_with("abc", ""));
}

#[test]
fn blank_test_accepts_whitespace_only() {
    assert!(str_is_blank(""));
    assert!(str_is_blank(" \t\r\n"));
    assert!(!str_is_blank(" x "));
}

#[test]
fn find_returns_first_occurrence() {
    assert_eq!(str_find("user:pass:extra", ':'), Some(4));
    assert_eq!(str_find("nope", ':'), None);
}

#[test]
fn branch_not_found_classification() {
    assert!(is_branch_not_found("fatal: Remote branch v9.9 not found in upstream origin"));
    assert!(!is_branch_not_found("fatal: Authentication failed"));
    assert!(!is_branch_not_found("Remote branch exists"));
}

#[test]
fn commit_outcome_treats_nothing_to_commit_as_success() {
    assert!(commit_outcome(true, "", "").is_ok());
    assert!(commit_outcome(false, "nothing to commit, working tree clean", "").is_ok());
    assert!(commit_outcome(false, "", "On branch main\nnothing to commit").is_ok());
    match commit_outcome(false, "", "fatal: bad object") {
        Err(DomainError::GitError(m)) => {
            assert_eq!(m, "commit failed: fatal: bad object");
        }
        other => panic!("expected a commit failure, got {:?}", other),
    }
}

#[test]
fn status_is_assembled_from_the_three_checks() {
    let s = status_from_checks(true, true, "");
    assert!(s.is_clean());
    let s = status_from_checks(false, true, "");
    assert!(s.has_staged_changes && !s.has_unstaged_changes && !s.has_untracked_files);
    let s = status_from_checks(true, false, "  \n");
    assert!(!s.has_staged_changes && s.has_unstaged_changes && !s.has_untracked_files);
    let s = status_from_checks(true, true, "untracked.txt\n");
    assert!(s.has_untracked_files && !s.is_clean());
}

#[test]
fn ssh_urls_use_ssh_auth() {
    let service = AuthenticationService::new();
    let auth = service.get_auth_for_repository("git@github.com:x/y.git", None).unwrap();
    assert_eq!(auth.auth_type, AuthType::Ssh);
    assert_eq!(auth.credentials, None);
}

#[test]
fn https_urls_use_token_when_available() {
    let service = AuthenticationService::new();
    let auth = service
        .get_auth_for_repository("https://github.com/x/y.git", Some("tok".to_string()))
        .unwrap();
    assert_eq!(auth.auth_type, AuthType::HttpsToken);
    assert_eq!(auth.credentials, Some("tok".to_string()));
    let bare = service.get_auth_for_repository("https://github.com/x/y.git", None).unwrap();
    assert_eq!(bare.auth_type, AuthType::NoAuth);
    assert_eq!(bare.credentials, None);
}

#[test]
fn unsupported_url_schemes_get_no_auth() {
    let service = AuthenticationService::new();
    assert!(service.get_auth_for_repository("ftp://example.com/repo", None).is_none());
}

#[test]
fn basic_auth_joins_username_and_password() {
    let auth = AuthenticationService::create_basic_auth("user", "secret");
    assert_eq!(auth.auth_type, AuthType::HttpsBasic);
    assert_eq!(auth.credentials, Some("user:secret".to_string()));
}

#[test]
fn credentials_formatting_masks_secrets() {
    let helper = AuthHelper::new();
    let basic = RepositoryAuth {
        auth_type: AuthType::HttpsBasic,
        credentials: Some("user:secret".to_string()),
    };
    assert_eq!(helper.format_credentials(&basic), "HTTP Basic: user:******");
    let no_colon = RepositoryAuth {
        auth_type: AuthType::HttpsBasic,
        credentials: Some("usersecret".to_string()),
    };
    assert_eq!(helper.format_credentials(&no_colon), "Invalid HTTP Basic format");
    let missing =
        RepositoryAuth { auth_type: AuthType::HttpsBasic, credentials: None };
    assert_eq!(helper.format_credentials(&missing), "Missing HTTP Basic credentials");
    let token = RepositoryAuth {
        auth_type: AuthType::HttpsToken,
        credentials: Some("tok".to_string()),
    };
    assert_eq!(helper.format_credentials(&token), "HTTP Token: ******");
    let ssh = RepositoryAuth { auth_type: AuthType::Ssh, credentials: None };
    assert_eq!(helper.format_credentials(&ssh), "SSH key authentication");
    let none = RepositoryAuth { auth_type: AuthType::NoAuth, credentials: None };
    assert_eq!(helper.format_credentials(&none), "No authentication");
}

#[test]
fn auth_type_labels() {
    assert_eq!(AuthType::NoAuth.label(), "None");
    assert_eq!(AuthType::Ssh.label(), "SSH");
    assert_eq!(AuthType::HttpsBasic.label(), "HTTPS Basic");
    assert_eq!(AuthType::HttpsToken.label(), "HTTPS Token");
}

#[test]
fn generated_errors_cover_every_class() {
    let handler = ErrorHandler::new();
    assert!(matches!(handler.generate_error("repository"), DomainError::RepositoryError(_)));
    assert!(matches!(handler.generate_error("filesystem"), DomainError::FileSystemError(_)));
    assert!(matches!(handler.generate_error("config"), DomainError::ConfigurationError(_)));
    assert!(matches!(
        handler.generate_error("dependency"),
        DomainError::InvalidDependencyError(_)
    ));
    assert!(matches!(handler.generate_error("git"), DomainError::GitError(_)));
    assert!(matches!(handler.generate_error("pattern"), DomainError::PathPatternError(_)));
    assert!(matches!(handler.generate_error("whatever"), DomainError::UnknownError(_)));
}

#[test]
fn displayed_errors_carry_class_and_message() {
    let handler = ErrorHandler::new();
    let e = DomainError::GitError("boom".to_string());
    assert_eq!(handler.display_error(&e), "Error: Git operation failed: boom");
    let e = DomainError::PathPatternError("bad".to_string());
    assert_eq!(handler.display_error(&e), "Error: Path pattern error: bad");
}

#[test]
fn error_describe_prefixes_each_class() {
    assert_eq!(
        DomainError::RepositoryError("x".to_string()).describe(),
        "Repository operation failed: x"
    );
    assert_eq!(
        DomainError::FileSystemError("x".to_string()).describe(),
        "File system operation failed: x"
    );
    assert_eq!(
        DomainError::ConfigurationError("x".to_string()).describe(),
        "Configuration error: x"
    );
    assert_eq!(
        DomainError::InvalidDependencyError("x".to_string()).describe(),
        "Invalid dependency: x"
    );
    assert_eq!(DomainError::UnknownError("x".to_string()).describe(), "Unknown error: x");
}

#[test]
fn path_joining_inserts_one_separator() {
    assert_eq!(join_path("root", "vendor/a"), "root/vendor/a");
    assert_eq!(join_path("", "vendor/a"), "vendor/a");
    assert_eq!(join_path("root/", "vendor/a"), "root/vendor/a");
}

#[test]
fn parent_dir_strips_the_file_name() {
    assert_eq!(parent_dir("dir/sub/acdm.toml"), "dir/sub");
    assert_eq!(parent_dir("acdm.toml"), "");
    assert_eq!(parent_dir(""), "");
}
