//! Conversion between the domain configuration and the plain shape of the
//! on-disk configuration file.  Reading and writing the file itself is a
//! collaborator's job; the conversions here are total functions on values
//! and are verified.

use vstd::prelude::*;

use crate::error::{DomainError, DomainErrorView};
use crate::models::{
    clone_string_vec, Configuration, ConfigurationView, Dependency, DependencyView,
    RepositoryType,
};
use crate::text::str_eq;

verus! {

/// Abstract value of a `SourceConfig`.
pub struct SourceConfigView {
    pub repo: Seq<char>,
    pub name: Seq<char>,
    pub rev: Seq<char>,
    pub repo_type: Seq<char>,
    pub sparse_paths: Seq<Seq<char>>,
    pub target: Seq<char>,
}

/// One source entry as the configuration file stores it.
#[derive(Debug, Clone, PartialEq, Eq)]
pub struct SourceConfig {
    pub repo: String,
    pub name: String,
    pub rev: String,
    pub repo_type: String,
    pub sparse_paths: Vec<String>,
    pub target: String,
}

impl View for SourceConfig {
    type V = SourceConfigView;

    open spec fn view(&self) -> SourceConfigView {
        SourceConfigView {
            repo: self.repo@,
            name: self.name@,
            rev: self.rev@,
            repo_type: self.repo_type@,
            sparse_paths: self.sparse_paths.deep_view(),
            target: self.target@,
        }
    }
}

impl DeepView for SourceConfig {
    type V = SourceConfigView;

    open spec fn deep_view(&self) -> SourceConfigView {
        self.view()
    }
}

/// Abstract value of a `ConfigFile`.
pub struct ConfigFileView {
    pub location: Option<Seq<char>>,
    pub sources: Seq<SourceConfigView>,
}

/// The configuration file's shape: an optional default location and a list
/// of sources.
#[derive(Debug, Clone, PartialEq, Eq)]
pub struct ConfigFile {
    pub location: Option<String>,
    pub sources: Vec<SourceConfig>,
}

impl View for ConfigFile {
    type V = ConfigFileView;

    open spec fn view(&self) -> ConfigFileView {
        ConfigFileView {
            location: match &self.location {
                Some(l) => Some(l@),
                None => None,
            },
            sources: self.sources.deep_view(),
        }
    }
}

/// The file entry that stores a dependency.
pub open spec fn source_of_dependency(d: DependencyView) -> SourceConfigView {
    SourceConfigView {
        repo: d.repository_url,
        name: d.name,
        rev: d.revision,
        repo_type: "git"@,
        sparse_paths: d.sparse_paths,
        target: d.target_location,
    }
}

/// The file shape that stores a configuration.
pub open spec fn config_to_file(c: ConfigurationView) -> ConfigFileView {
    ConfigFileView {
        location: c.default_location,
        sources: Seq::new(c.dependencies.len(), |i: int| source_of_dependency(c.dependencies[i])),
    }
}

/// The dependency a file entry denotes (its type keyword already checked).
pub open spec fn dependency_of_source(s: SourceConfigView) -> DependencyView {
    DependencyView {
        name: s.name,
        repository_url: s.repo,
        revision: s.rev,
        repository_type: RepositoryType::Git,
        sparse_paths: s.sparse_paths,
        target_location: s.target,
    }
}

/// The repository-type keyword of the first source whose type is not the
/// supported one; meaningful only when such a source exists.
pub open spec fn first_unsupported_type(sources: Seq<SourceConfigView>) -> Seq<char>
    decreases sources.len(),
{
    if sources.len() == 0 {
        Seq::empty()
    } else if sources[0].repo_type != "git"@ {
        sources[0].repo_type
    } else {
        first_unsupported_type(sources.subrange(1, sources.len() as int))
    }
}

proof fn lemma_first_unsupported_type_at(sources: Seq<SourceConfigView>, i: int)
    requires
        0 <= i < sources.len(),
        sources[i].repo_type != "git"@,
        forall|j: int| 0 <= j < i ==> sources[j].repo_type == "git"@,
    ensures
        first_unsupported_type(sources) == sources[i].repo_type,
    decreases sources.len(),
{
    if i > 0 {
        let rest = sources.subrange(1, sources.len() as int);
        assert(rest[i - 1].repo_type != "git"@);
        assert forall|j: int| 0 <= j < i - 1 implies rest[j].repo_type == "git"@ by {
            assert(rest[j] == sources[j + 1]);
        }
        lemma_first_unsupported_type_at(rest, i - 1);
    }
}

/// The configuration a file shape denotes.
pub open spec fn file_to_config(f: ConfigFileView) -> ConfigurationView {
    ConfigurationView {
        default_location: f.location,
        dependencies: Seq::new(f.sources.len(), |i: int| dependency_of_source(f.sources[i])),
    }
}

/// Storing a configuration and reading it back yields the same
/// configuration.
pub proof fn lemma_config_file_round_trip(c: ConfigurationView)
    ensures
        file_to_config(config_to_file(c)) == c,
{
    let back = file_to_config(config_to_file(c));
    assert forall|i: int| 0 <= i < c.dependencies.len() implies back.dependencies[i]
        == c.dependencies[i] by {
        assert(c.dependencies[i].repository_type == RepositoryType::Git);
    }
    assert(back.dependencies =~= c.dependencies);
}

/// Repository for the configuration file's format.
pub struct TomlConfigurationRepository;

impl TomlConfigurationRepository {
    pub fn new() -> Self {
        TomlConfigurationRepository
    }

    /// Converts the domain configuration into the file shape.
    pub fn domain_to_toml(&self, config: &Configuration) -> (r: ConfigFile)
        ensures
            r@ == config_to_file(config@),
    {
        let mut sources: Vec<SourceConfig> = Vec::new();
        let mut i: usize = 0;
        while i < config.dependencies.len()
            invariant
                i <= config.dependencies.len(),
                sources@.len() == i,
                forall|j: int| 0 <= j < i ==> sources@[j]@ == source_of_dependency(
                    config@.dependencies[j],
                ),
            decreases config.dependencies.len() - i,
        {
            let d = &config.dependencies[i];
            sources.push(
                SourceConfig {
                    repo: d.repository_url.clone(),
                    name: d.name.clone(),
                    rev: d.revision.clone(),
                    repo_type: ("git").to_owned(),
                    sparse_paths: clone_string_vec(&d.sparse_paths),
                    target: d.target_location.clone(),
                },
            );
            proof {
                assert(config@.dependencies[i as int] == config.dependencies@[i as int]@);
                assert(sources@[i as int]@ == source_of_dependency(config@.dependencies[i as int]));
            }
            i = i + 1;
        }
        let location = match &config.default_location {
            Some(l) => Some(l.clone()),
            None => None,
        };
        let r = ConfigFile { location, sources };
        proof {
            assert(r@.sources =~= config_to_file(config@).sources);
        }
        r
    }

    /// Converts the file shape back into the domain configuration, rejecting
    /// the first source whose repository type is not the supported keyword,
    /// naming that type.
    pub fn toml_to_domain(&self, config_file: ConfigFile) -> (r: Result<
        Configuration,
        DomainError,
    >)
        ensures
            r is Ok <==> (forall|i: int|
                0 <= i < config_file@.sources.len() ==> config_file@.sources[i].repo_type
                    == "git"@),
            r matches Ok(c) ==> c@ == file_to_config(config_file@),
            r matches Err(e) ==> e@ == DomainErrorView::ConfigurationError(
                "Unsupported repository type: "@ + first_unsupported_type(config_file@.sources),
            ),
    {
        let mut dependencies: Vec<Dependency> = Vec::new();
        let mut i: usize = 0;
        while i < config_file.sources.len()
            invariant
                i <= config_file.sources.len(),
                dependencies@.len() == i,
                forall|j: int| 0 <= j < i ==> dependencies@[j]@ == dependency_of_source(
                    config_file@.sources[j],
                ),
                forall|j: int| 0 <= j < i ==> config_file@.sources[j].repo_type == "git"@,
            decreases config_file.sources.len() - i,
        {
            let s = &config_file.sources[i];
            proof {
                assert(config_file@.sources[i as int] == config_file.sources@[i as int]@);
            }
            if !str_eq(s.repo_type.as_str(), "git") {
                proof {
                    lemma_first_unsupported_type_at(config_file@.sources, i as int);
                }
                let mut m = ("Unsupported repository type: ").to_owned();
                m.append(s.repo_type.as_str());
                return Err(DomainError::ConfigurationError(m));
            }
            dependencies.push(
                Dependency {
                    name: s.name.clone(),
                    repository_url: s.repo.clone(),
                    revision: s.rev.clone(),
                    repository_type: RepositoryType::Git,
                    sparse_paths: clone_string_vec(&s.sparse_paths),
                    target_location: s.target.clone(),
                },
            );
            proof {
                assert(dependencies@[i as int]@ == dependency_of_source(
                    config_file@.sources[i as int],
                ));
            }
            i = i + 1;
        }
        let c = Configuration {
            default_location: match &config_file.location {
                Some(l) => Some(l.clone()),
                None => None,
            },
            dependencies,
        };
        proof {
            assert(c@.dependencies =~= file_to_config(config_file@).dependencies);
        }
        Ok(c)
    }
}

impl Default for TomlConfigurationRepository {
    fn default() -> (r: Self)
        ensures
            r == TomlConfigurationRepository,
    {
        TomlConfigurationRepository
    }
}

} // verus!
