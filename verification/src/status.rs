//! Read-only status reporting: classifies each dependency as fetched or not
//! from whether its target directory is present.

use vstd::prelude::*;

use crate::dto::{DependencyStatusDto, DependencyStatusDtoView};
use crate::error::DomainError;
use crate::models::{clone_string_vec, Configuration, DependencyView};
use crate::paths::join_path;
use crate::repositories::{ConfigurationRepository, FileSystemManager};

verus! {

/// The status line reported for a dependency whose target directory is
/// present (`present == true`) or absent.
pub open spec fn status_of(d: DependencyView, present: bool) -> DependencyStatusDtoView {
    DependencyStatusDtoView {
        name: d.name,
        repository_url: d.repository_url,
        revision: d.revision,
        target_location: d.target_location,
        sparse_paths: d.sparse_paths,
        status: if present {
            "Fetched"@
        } else {
            "Not fetched"@
        },
    }
}

/// Builds the status report for every dependency of a configuration, given
/// for each whether its target directory is present on disk.
pub fn statuses_for(config: &Configuration, present: &Vec<bool>) -> (r: Vec<DependencyStatusDto>)
    requires
        present@.len() == config@.dependencies.len(),
    ensures
        r@.len() == config@.dependencies.len(),
        forall|i: int| 0 <= i < r@.len() ==> r@[i]@ == status_of(
            config@.dependencies[i],
            present@[i],
        ),
{
    let mut out: Vec<DependencyStatusDto> = Vec::new();
    let mut i: usize = 0;
    while i < config.dependencies.len()
        invariant
            i <= config.dependencies.len(),
            present@.len() == config@.dependencies.len(),
            config@.dependencies.len() == config.dependencies@.len(),
            out@.len() == i,
            forall|j: int| 0 <= j < i ==> out@[j]@ == status_of(
                config@.dependencies[j],
                present@[j],
            ),
        decreases config.dependencies.len() - i,
    {
        let d = &config.dependencies[i];
        let status = if present[i] {
            ("Fetched").to_owned()
        } else {
            ("Not fetched").to_owned()
        };
        out.push(
            DependencyStatusDto {
                name: d.name.clone(),
                repository_url: d.repository_url.clone(),
                revision: d.revision.clone(),
                target_location: d.target_location.clone(),
                sparse_paths: clone_string_vec(&d.sparse_paths),
                status,
            },
        );
        proof {
            assert(config@.dependencies[i as int] == config.dependencies@[i as int]@);
        }
        i = i + 1;
    }
    out
}

/// Query for showing dependency status.  The collaborator that owns the real
/// file system loads the configuration through the repository and checks
/// each target's presence; `statuses_for` does the classification.
pub struct GetDependencyStatusQuery<C: ConfigurationRepository> {
    pub config_repo: C,
}

impl<C: ConfigurationRepository> GetDependencyStatusQuery<C> {
    pub fn new(config_repo: C) -> Self {
        GetDependencyStatusQuery { config_repo }
    }

    /// The composed query: loads the configuration, checks each dependency's
    /// target directory under the workspace root for presence, and builds
    /// the report with `statuses_for`.  Whatever the collaborators return,
    /// every reported status is one of the two classifications.
    pub fn get_all_statuses<F: FileSystemManager>(
        &self,
        file_system: &F,
        config_path: &str,
        repo_root: &str,
    ) -> (r: Result<Vec<DependencyStatusDto>, DomainError>)
        ensures
            r matches Ok(list) ==> forall|i: int|
                0 <= i < list@.len() ==> (#[trigger] list@[i]@.status) == "Fetched"@
                    || list@[i]@.status == "Not fetched"@,
    {
        let config = match self.config_repo.load(config_path) {
            Ok(c) => c,
            Err(e) => {
                return Err(e);
            },
        };
        let mut present: Vec<bool> = Vec::new();
        let mut i: usize = 0;
        while i < config.dependencies.len()
            invariant
                i <= config.dependencies@.len(),
                present@.len() == i,
            decreases config.dependencies@.len() - i,
        {
            let target = join_path(repo_root, config.dependencies[i].target_location.as_str());
            present.push(file_system.path_exists(target.as_str()));
            i = i + 1;
        }
        Ok(statuses_for(&config, &present))
    }
}

} // verus!
