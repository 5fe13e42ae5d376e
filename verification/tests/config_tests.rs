use acdm::configuration::{ConfigFile, SourceConfig, TomlConfigurationRepository};
use acdm::dto::{AddDependencyDto, IncludePathsDto};
use acdm::error::DomainError;
use acdm::models::{Configuration, Dependency, RepositoryType};
use acdm::status::statuses_for;
use acdm::use_cases::{
    add_dependency_to_config, include_paths_in_config, select_for_update,
};

fn dep(name: &str, patterns: &[&str], target: &str) -> Dependency {
    Dependency {
        name: name.to_string(),
        repository_url: format!("git@example.com:{}.git", name),
        revision: "main".to_string(),
        repository_type: RepositoryType::Git,
        sparse_paths: patterns.iter().map(|p| p.to_string()).collect(),
        target_location: target.to_string(),
    }
}

fn config(deps: Vec<Dependency>) -> Configuration {
    Configuration { default_location: Some("vendor".to_string()), dependencies: deps }
}

#[test]
fn configuration_survives_the_file_round_trip() {
    let repo = TomlConfigurationRepository::new();
    let c = config(vec![dep("test-dep", &["docs/**", "src/**"], "vendor/test")]);
    let file = repo.domain_to_toml(&c);
    assert_eq!(file.location, Some("vendor".to_string()));
    assert_eq!(file.sources.len(), 1);
    assert_eq!(file.sources[0].name, "test-dep");
    assert_eq!(file.sources[0].repo_type, "git");
    let back = repo.toml_to_domain(file).unwrap();
    assert_eq!(back, c);
}

#[test]
fn unsupported_repository_type_is_rejected() {
    let repo = TomlConfigurationRepository::new();
    let file = ConfigFile {
        location: None,
        sources: vec![SourceConfig {
            repo: "git@example.com:a.git".to_string(),
            name: "a".to_string(),
            rev: "main".to_string(),
            repo_type: "svn".to_string(),
            sparse_paths: Vec::new(),
            target: "vendor/a".to_string(),
        }],
    };
    match repo.toml_to_domain(file) {
        Err(DomainError::ConfigurationError(m)) => {
            assert_eq!(m, "Unsupported repository type: svn");
        }
        other => panic!("expected a configuration error, got {:?}", other),
    }
}

fn add_dto(name: &str, repo_type: &str) -> AddDependencyDto {
    AddDependencyDto {
        name: name.to_string(),
        repository_url: "git@example.com:r.git".to_string(),
        revision: "main".to_string(),
        repository_type: repo_type.to_string(),
        target_location: "vendor/r".to_string(),
    }
}

#[test]
fn adding_a_dependency_appends_it() {
    let mut c = config(vec![dep("a", &[], "vendor/a")]);
    assert!(add_dependency_to_config(&mut c, add_dto("b", "git")).is_ok());
    assert_eq!(c.dependencies.len(), 2);
    assert_eq!(c.dependencies[1].name, "b");
    assert!(c.dependencies[1].sparse_paths.is_empty());
}

#[test]
fn adding_accepts_the_keyword_case_insensitively() {
    let mut c = config(vec![]);
    assert!(add_dependency_to_config(&mut c, add_dto("a", "GIT")).is_ok());
    assert!(add_dependency_to_config(&mut c, add_dto("b", "Git")).is_ok());
}

#[test]
fn adding_a_duplicate_name_fails() {
    let mut c = config(vec![dep("a", &[], "vendor/a")]);
    let before = c.clone();
    let r = add_dependency_to_config(&mut c, add_dto("a", "git"));
    match r {
        Err(DomainError::InvalidDependencyError(m)) => {
            assert_eq!(m, "a dependency with this name already exists: a");
        }
        other => panic!("expected a duplicate-name error, got {:?}", other),
    }
    assert_eq!(c, before);
}

#[test]
fn adding_an_unsupported_type_fails() {
    let mut c = config(vec![]);
    let r = add_dependency_to_config(&mut c, add_dto("a", "svn"));
    match r {
        Err(DomainError::ConfigurationError(m)) => {
            assert_eq!(m, "Unsupported repository type: svn");
        }
        other => panic!("expected a configuration error, got {:?}", other),
    }
    assert!(c.dependencies.is_empty());
}

#[test]
fn including_paths_appends_only_new_ones() {
    let mut c = config(vec![dep("a", &["docs/**"], "vendor/a")]);
    let dto = IncludePathsDto {
        dependency_name: "a".to_string(),
        paths: vec!["docs/**".to_string(), "src/**".to_string(), "src/**".to_string()],
    };
    assert!(include_paths_in_config(&mut c, dto).is_ok());
    assert_eq!(
        c.dependencies[0].sparse_paths,
        vec!["docs/**".to_string(), "src/**".to_string()]
    );
}

#[test]
fn including_paths_on_a_missing_dependency_fails() {
    let mut c = config(vec![dep("a", &[], "vendor/a")]);
    let before = c.clone();
    let dto = IncludePathsDto {
        dependency_name: "missing".to_string(),
        paths: vec!["docs/**".to_string()],
    };
    let r = include_paths_in_config(&mut c, dto);
    match r {
        Err(DomainError::InvalidDependencyError(m)) => {
            assert_eq!(m, "dependency not found: missing");
        }
        other => panic!("expected a not-found error, got {:?}", other),
    }
    assert_eq!(c, before);
}

#[test]
fn selecting_without_a_filter_takes_all_dependencies() {
    let c = config(vec![dep("a", &[], "vendor/a"), dep("b", &[], "vendor/b")]);
    let sel = select_for_update(&c, &None).unwrap();
    assert_eq!(sel.len(), 2);
    assert_eq!(sel[0].name, "a");
    assert_eq!(sel[1].name, "b");
}

#[test]
fn selecting_with_a_filter_keeps_declaration_order() {
    let c = config(vec![dep("a", &[], "vendor/a"), dep("b", &[], "vendor/b"), dep("c", &[], "vendor/c")]);
    let names = Some(vec!["c".to_string(), "a".to_string()]);
    let sel = select_for_update(&c, &names).unwrap();
    assert_eq!(sel.len(), 2);
    assert_eq!(sel[0].name, "a");
    assert_eq!(sel[1].name, "c");
}

#[test]
fn selecting_nothing_is_an_error() {
    let empty = config(vec![]);
    assert!(matches!(
        select_for_update(&empty, &None),
        Err(DomainError::ConfigurationError(_))
    ));
    let c = config(vec![dep("a", &[], "vendor/a")]);
    let names = Some(vec!["zzz".to_string()]);
    assert!(matches!(
        select_for_update(&c, &names),
        Err(DomainError::ConfigurationError(_))
    ));
}

#[test]
fn statuses_reflect_target_presence() {
    let c = config(vec![dep("a", &["docs/**"], "vendor/a"), dep("b", &[], "vendor/b")]);
    let statuses = statuses_for(&c, &vec![true, false]);
    assert_eq!(statuses.len(), 2);
    assert_eq!(statuses[0].name, "a");
    assert_eq!(statuses[0].status, "Fetched");
    assert_eq!(statuses[0].sparse_paths, vec!["docs/**".to_string()]);
    assert_eq!(statuses[1].name, "b");
    assert_eq!(statuses[1].status, "Not fetched");
    assert_eq!(statuses[1].target_location, "vendor/b");
}
