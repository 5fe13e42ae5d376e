//! Data transfer objects carried between the interface layer and the use
//! cases.

use vstd::prelude::*;

verus! {

/// Request to initialize a new configuration.
#[derive(Debug, Clone)]
pub struct InitConfigDto {
    pub config_path: String,
    pub default_location: Option<String>,
}

/// Request to add a new dependency.
#[derive(Debug, Clone)]
pub struct AddDependencyDto {
    pub name: String,
    pub repository_url: String,
    pub revision: String,
    pub repository_type: String,
    pub target_location: String,
}

/// Request to include selection paths in a dependency.
#[derive(Debug, Clone)]
pub struct IncludePathsDto {
    pub dependency_name: String,
    pub paths: Vec<String>,
}

/// Request to update dependencies.
#[derive(Debug, Clone)]
pub struct UpdateDependenciesDto {
    pub config_path: String,
    pub dependencies: Option<Vec<String>>,
    pub commit_message: Option<String>,
    pub force: bool,
}

/// Abstract value of a `DependencyStatusDto`.
pub struct DependencyStatusDtoView {
    pub name: Seq<char>,
    pub repository_url: Seq<char>,
    pub revision: Seq<char>,
    pub target_location: Seq<char>,
    pub sparse_paths: Seq<Seq<char>>,
    pub status: Seq<char>,
}

/// One dependency's status as reported to the caller.
#[derive(Debug, Clone, PartialEq, Eq)]
pub struct DependencyStatusDto {
    pub name: String,
    pub repository_url: String,
    pub revision: String,
    pub target_location: String,
    pub sparse_paths: Vec<String>,
    pub status: String,
}

impl View for DependencyStatusDto {
    type V = DependencyStatusDtoView;

    open spec fn view(&self) -> DependencyStatusDtoView {
        DependencyStatusDtoView {
            name: self.name@,
            repository_url: self.repository_url@,
            revision: self.revision@,
            target_location: self.target_location@,
            sparse_paths: self.sparse_paths.deep_view(),
            status: self.status@,
        }
    }
}

impl DeepView for DependencyStatusDto {
    type V = DependencyStatusDtoView;

    open spec fn deep_view(&self) -> DependencyStatusDtoView {
        self.view()
    }
}

} // verus!
