//! Application use cases: initialize a configuration, add a dependency,
//! include selection paths, and update dependencies.  Each use case drives a
//! configuration repository port; the decision logic in between is verified
//! with exact contracts.

use vstd::prelude::*;

use crate::dto::{AddDependencyDto, IncludePathsDto, InitConfigDto, UpdateDependenciesDto};
use crate::error::{DomainError, DomainErrorView};
use crate::models::{Configuration, Dependency, DependencyView, RepositoryType};
use crate::paths::parent_dir;
use crate::repositories::{
    ConfigurationRepository, FileSystemManager, GitOperations, RepositoryFetcher,
};
use crate::services::DependencyManager;
use crate::text::str_eq;

verus! {

/// Some dependency of the list carries this name.
pub open spec fn has_dependency_named(deps: Seq<DependencyView>, name: Seq<char>) -> bool {
    exists|i: int| 0 <= i < deps.len() && deps[i].name == name
}

/// The repository-type keyword, compared without regard to letter case.
pub open spec fn is_git_keyword(s: Seq<char>) -> bool {
    s.len() == 3 && (s[0] == 'g' || s[0] == 'G') && (s[1] == 'i' || s[1] == 'I') && (s[2] == 't'
        || s[2] == 'T')
}

fn is_git_keyword_exec(s: &str) -> (r: bool)
    ensures
        r == is_git_keyword(s@),
{
    if s.unicode_len() != 3 {
        return false;
    }
    let c0 = s.get_char(0);
    let c1 = s.get_char(1);
    let c2 = s.get_char(2);
    (c0 == 'g' || c0 == 'G') && (c1 == 'i' || c1 == 'I') && (c2 == 't' || c2 == 'T')
}

/// The dependency a well-formed add request denotes: no selection patterns
/// yet, type fixed to the one supported kind.
pub open spec fn dependency_of_add(dto: AddDependencyDto) -> DependencyView {
    DependencyView {
        name: dto.name@,
        repository_url: dto.repository_url@,
        revision: dto.revision@,
        repository_type: RepositoryType::Git,
        sparse_paths: Seq::empty(),
        target_location: dto.target_location@,
    }
}

/// Adds a dependency to the configuration.  Fails (leaving the configuration
/// unchanged) when a dependency of the same name exists or the repository
/// type is unsupported; otherwise appends the new dependency.
pub fn add_dependency_to_config(config: &mut Configuration, dto: AddDependencyDto) -> (r: Result<
    (),
    DomainError,
>)
    ensures
        r is Ok <==> !has_dependency_named(old(config)@.dependencies, dto.name@)
            && is_git_keyword(dto.repository_type@),
        r is Ok ==> final(config)@.dependencies == old(config)@.dependencies.push(
            dependency_of_add(dto),
        ) && final(config)@.default_location == old(config)@.default_location,
        r is Err ==> final(config)@ == old(config)@,
        (r is Err && has_dependency_named(old(config)@.dependencies, dto.name@)) ==> r->Err_0@
            == DomainErrorView::InvalidDependencyError(
            "a dependency with this name already exists: "@ + dto.name@),
        (r is Err && !has_dependency_named(old(config)@.dependencies, dto.name@)) ==> r->Err_0@
            == DomainErrorView::ConfigurationError(
            "Unsupported repository type: "@ + dto.repository_type@),
{
    let mut i: usize = 0;
    while i < config.dependencies.len()
        invariant
            i <= config.dependencies.len(),
            forall|j: int| 0 <= j < i ==> config@.dependencies[j].name != dto.name@,
        decreases config.dependencies.len() - i,
    {
        proof {
            assert(config@.dependencies[i as int] == config.dependencies@[i as int]@);
        }
        if str_eq(config.dependencies[i].name.as_str(), dto.name.as_str()) {
            let mut m = ("a dependency with this name already exists: ").to_owned();
            m.append(dto.name.as_str());
            return Err(DomainError::InvalidDependencyError(m));
        }
        i = i + 1;
    }
    if !is_git_keyword_exec(dto.repository_type.as_str()) {
        let mut m = ("Unsupported repository type: ").to_owned();
        m.append(dto.repository_type.as_str());
        return Err(DomainError::ConfigurationError(m));
    }
    let dep = Dependency {
        name: dto.name,
        repository_url: dto.repository_url,
        revision: dto.revision,
        repository_type: RepositoryType::Git,
        sparse_paths: Vec::new(),
        target_location: dto.target_location,
    };
    proof {
        assert(dep@.sparse_paths =~= Seq::<Seq<char>>::empty());
    }
    config.dependencies.push(dep);
    proof {
        assert(config@.dependencies =~= old(config)@.dependencies.push(dependency_of_add(dto)));
    }
    Ok(())
}

/// Index of the first dependency carrying `name`, or -1 when none does.
pub open spec fn first_index_named(deps: Seq<DependencyView>, name: Seq<char>) -> int
    decreases deps.len(),
{
    if deps.len() == 0 {
        -1
    } else if deps[0].name == name {
        0
    } else {
        let rest = first_index_named(deps.subrange(1, deps.len() as int), name);
        if rest < 0 {
            -1
        } else {
            rest + 1
        }
    }
}

proof fn lemma_first_index_named_at(deps: Seq<DependencyView>, name: Seq<char>, i: int)
    requires
        0 <= i < deps.len(),
        deps[i].name == name,
        forall|j: int| 0 <= j < i ==> deps[j].name != name,
    ensures
        first_index_named(deps, name) == i,
    decreases deps.len(),
{
    if i > 0 {
        let rest = deps.subrange(1, deps.len() as int);
        assert(rest[i - 1].name == name);
        assert forall|j: int| 0 <= j < i - 1 implies rest[j].name != name by {
            assert(rest[j] == deps[j + 1]);
        }
        lemma_first_index_named_at(rest, name, i - 1);
    }
}

/// The selection patterns after appending each new pattern that is not
/// already present, in order.
pub open spec fn append_unique(existing: Seq<Seq<char>>, new: Seq<Seq<char>>) -> Seq<Seq<char>>
    decreases new.len(),
{
    if new.len() == 0 {
        existing
    } else {
        append_unique(
            if existing.contains(new[0]) {
                existing
            } else {
                existing.push(new[0])
            },
            new.subrange(1, new.len() as int),
        )
    }
}

fn find_dependency_index(deps: &Vec<Dependency>, name: &str) -> (r: Option<usize>)
    ensures
        match r {
            Some(k) => k < deps@.len() && deps.deep_view()[k as int].name == name@ && forall|j:
                int| 0 <= j < k ==> deps.deep_view()[j].name != name@,
            None => !has_dependency_named(deps.deep_view(), name@),
        },
{
    let mut k: usize = 0;
    while k < deps.len()
        invariant
            k <= deps@.len(),
            forall|j: int| 0 <= j < k ==> deps.deep_view()[j].name != name@,
        decreases deps@.len() - k,
    {
        proof {
            assert(deps.deep_view()[k as int] == deps@[k as int]@);
        }
        if str_eq(deps[k].name.as_str(), name) {
            return Some(k);
        }
        k = k + 1;
    }
    None
}

fn string_vec_contains(v: &Vec<String>, s: &str) -> (r: bool)
    ensures
        r == v.deep_view().contains(s@),
{
    let mut i: usize = 0;
    while i < v.len()
        invariant
            i <= v.len(),
            forall|j: int| 0 <= j < i ==> v.deep_view()[j] != s@,
        decreases v.len() - i,
    {
        proof {
            assert(v.deep_view()[i as int] == v@[i as int]@);
        }
        if str_eq(v[i].as_str(), s) {
            proof {
                assert(v.deep_view()[i as int] == s@);
            }
            return true;
        }
        i = i + 1;
    }
    proof {
        assert forall|j: int| 0 <= j < v.deep_view().len() implies v.deep_view()[j] != s@ by {}
    }
    false
}

/// Appends the given paths to the named dependency's selection patterns,
/// skipping any pattern the dependency already has.  Fails (leaving the
/// configuration unchanged) when no dependency carries the name.
pub fn include_paths_in_config(config: &mut Configuration, dto: IncludePathsDto) -> (r: Result<
    (),
    DomainError,
>)
    ensures
        r is Ok <==> has_dependency_named(old(config)@.dependencies, dto.dependency_name@),
        r is Err ==> final(config)@ == old(config)@ && r->Err_0@
            == DomainErrorView::InvalidDependencyError(
            "dependency not found: "@ + dto.dependency_name@),
        r is Ok ==> {
            let k = first_index_named(old(config)@.dependencies, dto.dependency_name@);
            let d = old(config)@.dependencies[k];
            final(config)@.default_location == old(config)@.default_location
                && final(config)@.dependencies == old(config)@.dependencies.update(
                k,
                DependencyView {
                    sparse_paths: append_unique(d.sparse_paths, dto.paths.deep_view()),
                    ..d
                },
            )
        },
{
    let ghost deps0 = config@.dependencies;
    let k = match find_dependency_index(&config.dependencies, dto.dependency_name.as_str()) {
        Some(k) => k,
        None => {
            let mut m = ("dependency not found: ").to_owned();
            m.append(dto.dependency_name.as_str());
            return Err(DomainError::InvalidDependencyError(m));
        },
    };
    proof {
        lemma_first_index_named_at(deps0, dto.dependency_name@, k as int);
        assert(has_dependency_named(deps0, dto.dependency_name@));
    }
    let mut dep = config.dependencies.remove(k);
    let ghost orig_paths = dep@.sparse_paths;
    let ghost new_paths = dto.paths.deep_view();
    proof {
        assert(dep@ == deps0[k as int]);
        assert(new_paths.skip(0) =~= new_paths);
    }
    let mut j: usize = 0;
    while j < dto.paths.len()
        invariant
            j <= dto.paths.len(),
            0 <= k < deps0.len(),
            new_paths == dto.paths.deep_view(),
            append_unique(dep@.sparse_paths, new_paths.skip(j as int)) == append_unique(
                orig_paths,
                new_paths,
            ),
            dep@.name == deps0[k as int].name,
            dep@.repository_url == deps0[k as int].repository_url,
            dep@.revision == deps0[k as int].revision,
            dep@.repository_type == deps0[k as int].repository_type,
            dep@.target_location == deps0[k as int].target_location,
        decreases dto.paths.len() - j,
    {
        let ghost cur = dep@.sparse_paths;
        proof {
            assert(new_paths.skip(j as int)[0] == new_paths[j as int]);
            assert(new_paths.skip(j as int).subrange(
                1,
                new_paths.skip(j as int).len() as int,
            ) =~= new_paths.skip(j + 1));
            assert(new_paths[j as int] == dto.paths@[j as int]@);
        }
        let p = dto.paths[j].clone();
        if !string_vec_contains(&dep.sparse_paths, p.as_str()) {
            dep.sparse_paths.push(p);
            proof {
                assert(dep@.sparse_paths == cur.push(new_paths[j as int]));
            }
        }
        proof {
            assert(append_unique(cur, new_paths.skip(j as int)) == append_unique(
                dep@.sparse_paths,
                new_paths.skip(j + 1),
            ));
        }
        j = j + 1;
    }
    proof {
        assert(new_paths.skip(dto.paths@.len() as int) =~= Seq::<Seq<char>>::empty());
        assert(append_unique(dep@.sparse_paths, Seq::<Seq<char>>::empty()) == dep@.sparse_paths);
    }
    config.dependencies.insert(k, dep);
    proof {
        assert(config@.dependencies =~= old(config)@.dependencies.update(
            k as int,
            DependencyView {
                sparse_paths: append_unique(orig_paths, new_paths),
                ..deps0[k as int]
            },
        ));
    }
    Ok(())
}

/// Whether a dependency name is selected by an optional name filter: every
/// name when no filter is given.
pub open spec fn name_selected(names: Option<Seq<Seq<char>>>, n: Seq<char>) -> bool {
    match names {
        Option::None => true,
        Option::Some(ns) => ns.contains(n),
    }
}

/// The dependencies an update request selects, in declaration order.
pub open spec fn selected_dependencies(
    deps: Seq<DependencyView>,
    names: Option<Seq<Seq<char>>>,
) -> Seq<DependencyView>
    decreases deps.len(),
{
    if deps.len() == 0 {
        Seq::empty()
    } else {
        selected_dependencies(deps.drop_last(), names) + if name_selected(
            names,
            deps.last().name,
        ) {
            seq![deps.last()]
        } else {
            Seq::empty()
        }
    }
}

/// Picks the dependencies to update: those matching the name filter, or all
/// of them without a filter.  An empty selection is an error, not a no-op.
pub fn select_for_update(config: &Configuration, names: &Option<Vec<String>>) -> (r: Result<
    Vec<Dependency>,
    DomainError,
>)
    ensures
        r is Ok <==> selected_dependencies(config@.dependencies, names.deep_view()).len() > 0,
        r matches Ok(sel) ==> sel.deep_view() == selected_dependencies(
            config@.dependencies,
            names.deep_view(),
        ),
        r matches Err(e) ==> e@ == DomainErrorView::ConfigurationError(
            "no dependencies found to update"@,
        ),
{
    let ghost deps = config@.dependencies;
    let ghost ns = names.deep_view();
    let mut out: Vec<Dependency> = Vec::new();
    let mut i: usize = 0;
    while i < config.dependencies.len()
        invariant
            i <= config.dependencies.len(),
            deps == config@.dependencies,
            ns == names.deep_view(),
            out.deep_view() == selected_dependencies(deps.take(i as int), ns),
        decreases config.dependencies.len() - i,
    {
        proof {
            assert(deps.take(i + 1).drop_last() =~= deps.take(i as int));
            assert(deps.take(i + 1).last() == deps[i as int]);
            assert(deps[i as int] == config.dependencies@[i as int]@);
        }
        let d = &config.dependencies[i];
        let selected = match names {
            Option::Some(filter) => string_vec_contains(filter, d.name.as_str()),
            Option::None => true,
        };
        if selected {
            out.push(d.duplicate());
        }
        proof {
            assert(out.deep_view() =~= selected_dependencies(deps.take(i + 1), ns));
        }
        i = i + 1;
    }
    proof {
        assert(deps.take(deps.len() as int) =~= deps);
    }
    if out.len() == 0 {
        return Err(
            DomainError::ConfigurationError(("no dependencies found to update").to_owned()),
        );
    }
    Ok(out)
}

/// Use case for initializing a new configuration.
pub struct InitConfigUseCase<C: ConfigurationRepository> {
    config_repo: C,
}

impl<C: ConfigurationRepository> InitConfigUseCase<C> {
    pub fn new(config_repo: C) -> Self {
        InitConfigUseCase { config_repo }
    }

    /// Initializes the configuration file, then stores the default location
    /// if one was given.
    pub fn execute(&self, dto: InitConfigDto) -> Result<(), DomainError> {
        match self.config_repo.init(dto.config_path.as_str()) {
            Ok(()) => (),
            Err(e) => {
                return Err(e);
            },
        }
        match dto.default_location {
            Some(location) => {
                let mut config = match self.config_repo.load(dto.config_path.as_str()) {
                    Ok(c) => c,
                    Err(e) => {
                        return Err(e);
                    },
                };
                config.default_location = Some(location);
                self.config_repo.save(&config, dto.config_path.as_str())
            },
            None => Ok(()),
        }
    }
}

/// Use case for adding a new dependency.
pub struct AddDependencyUseCase<C: ConfigurationRepository> {
    config_repo: C,
}

impl<C: ConfigurationRepository> AddDependencyUseCase<C> {
    pub fn new(config_repo: C) -> Self {
        AddDependencyUseCase { config_repo }
    }

    /// Loads the configuration, adds the dependency, and saves the result.
    pub fn execute(&self, config_path: &str, dto: AddDependencyDto) -> Result<(), DomainError> {
        let mut config = match self.config_repo.load(config_path) {
            Ok(c) => c,
            Err(e) => {
                return Err(e);
            },
        };
        match add_dependency_to_config(&mut config, dto) {
            Ok(()) => (),
            Err(e) => {
                return Err(e);
            },
        }
        self.config_repo.save(&config, config_path)
    }
}

/// Use case for including selection paths in a dependency.
pub struct IncludePathsUseCase<C: ConfigurationRepository> {
    config_repo: C,
}

impl<C: ConfigurationRepository> IncludePathsUseCase<C> {
    pub fn new(config_repo: C) -> Self {
        IncludePathsUseCase { config_repo }
    }

    /// Loads the configuration, appends the paths, and saves the result.
    pub fn execute(&self, config_path: &str, dto: IncludePathsDto) -> Result<(), DomainError> {
        let mut config = match self.config_repo.load(config_path) {
            Ok(c) => c,
            Err(e) => {
                return Err(e);
            },
        };
        match include_paths_in_config(&mut config, dto) {
            Ok(()) => (),
            Err(e) => {
                return Err(e);
            },
        }
        self.config_repo.save(&config, config_path)
    }
}

/// Use case for updating dependencies.
pub struct UpdateDependenciesUseCase<C, R, F, G> where
    C: ConfigurationRepository,
    R: RepositoryFetcher,
    F: FileSystemManager,
    G: GitOperations,
 {
    config_repo: C,
    dependency_manager: DependencyManager<R, F, G>,
}

impl<C, R, F, G> UpdateDependenciesUseCase<C, R, F, G> where
    C: ConfigurationRepository,
    R: RepositoryFetcher,
    F: FileSystemManager,
    G: GitOperations,
 {
    pub fn new(
        config_repo: C,
        repository_fetcher: R,
        file_system_manager: F,
        git_operations: G,
    ) -> Self {
        UpdateDependenciesUseCase {
            config_repo,
            dependency_manager: DependencyManager::new(
                repository_fetcher,
                file_system_manager,
                git_operations,
            ),
        }
    }

    /// Loads the configuration, selects the requested dependencies, and runs
    /// the manager over them with the workspace root taken from the
    /// configuration file's directory.
    pub fn execute(&self, dto: UpdateDependenciesDto) -> Result<(), DomainError> {
        let config = match self.config_repo.load(dto.config_path.as_str()) {
            Ok(c) => c,
            Err(e) => {
                return Err(e);
            },
        };
        let selected = match select_for_update(&config, &dto.dependencies) {
            Ok(s) => s,
            Err(e) => {
                return Err(e);
            },
        };
        let repo_root = parent_dir(dto.config_path.as_str());
        self.dependency_manager.update_all(
            &selected,
            repo_root.as_str(),
            dto.commit_message.as_ref(),
            dto.force,
        )
    }
}

} // verus!
