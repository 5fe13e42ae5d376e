//! Core data model: a dependency pins a remote source, a revision, a set of
//! selection patterns and a target location; a configuration collects them.

use vstd::prelude::*;

verus! {

/// Type of repository backing a dependency.
#[derive(Debug, Clone, Copy, PartialEq, Eq, Structural)]
pub enum RepositoryType {
    Git,
}

/// Type of authentication for reaching a repository.
#[derive(Debug, Clone, Copy, PartialEq, Eq, Structural)]
pub enum AuthType {
    NoAuth,
    Ssh,
    HttpsBasic,
    HttpsToken,
}

impl AuthType {
    /// Short human-readable name of the authentication type.
    pub fn label(&self) -> (r: String)
        ensures
            r@ == auth_type_label(*self),
    {
        match self {
            AuthType::NoAuth => ("None").to_owned(),
            AuthType::Ssh => ("SSH").to_owned(),
            AuthType::HttpsBasic => ("HTTPS Basic").to_owned(),
            AuthType::HttpsToken => ("HTTPS Token").to_owned(),
        }
    }
}

/// The text that `AuthType::label` returns for each variant.
pub open spec fn auth_type_label(t: AuthType) -> Seq<char> {
    match t {
        AuthType::NoAuth => "None"@,
        AuthType::Ssh => "SSH"@,
        AuthType::HttpsBasic => "HTTPS Basic"@,
        AuthType::HttpsToken => "HTTPS Token"@,
    }
}

/// Abstract value of a `Dependency`.
pub struct DependencyView {
    pub name: Seq<char>,
    pub repository_url: Seq<char>,
    pub revision: Seq<char>,
    pub repository_type: RepositoryType,
    pub sparse_paths: Seq<Seq<char>>,
    pub target_location: Seq<char>,
}

/// An external content dependency.
#[derive(Debug, Clone, PartialEq, Eq)]
pub struct Dependency {
    /// Unique identifier for the dependency.
    pub name: String,
    /// Repository URL (SSH or HTTPS).
    pub repository_url: String,
    /// Revision: a branch, tag, or commit.
    pub revision: String,
    /// Repository type.
    pub repository_type: RepositoryType,
    /// Patterns that select specific paths out of the fetched source.
    pub sparse_paths: Vec<String>,
    /// Target location in the project, relative to the workspace root.
    pub target_location: String,
}

impl View for Dependency {
    type V = DependencyView;

    open spec fn view(&self) -> DependencyView {
        DependencyView {
            name: self.name@,
            repository_url: self.repository_url@,
            revision: self.revision@,
            repository_type: self.repository_type,
            sparse_paths: self.sparse_paths.deep_view(),
            target_location: self.target_location@,
        }
    }
}

impl DeepView for Dependency {
    type V = DependencyView;

    open spec fn deep_view(&self) -> DependencyView {
        self.view()
    }
}

/// An equal copy; written out because a derived `Clone` says nothing to the verifier.
pub fn clone_string_vec(v: &Vec<String>) -> (r: Vec<String>)
    ensures
        r.deep_view() == v.deep_view(),
{
    let mut out: Vec<String> = Vec::new();
    let mut i: usize = 0;
    while i < v.len()
        invariant
            i <= v.len(),
            out.len() == i,
            forall|j: int| 0 <= j < i ==> out@[j]@ == v@[j]@,
        decreases v.len() - i,
    {
        out.push(v[i].clone());
        i = i + 1;
    }
    proof {
        assert(out.deep_view() =~= v.deep_view());
    }
    out
}

impl Dependency {
    /// An equal copy; written out because a derived `Clone` says nothing to the verifier.
    pub fn duplicate(&self) -> (r: Dependency)
        ensures
            r@ == self@,
    {
        Dependency {
            name: self.name.clone(),
            repository_url: self.repository_url.clone(),
            revision: self.revision.clone(),
            repository_type: self.repository_type,
            sparse_paths: clone_string_vec(&self.sparse_paths),
            target_location: self.target_location.clone(),
        }
    }
}

/// Abstract value of a `RepositoryAuth`.
pub struct RepositoryAuthView {
    pub auth_type: AuthType,
    pub credentials: Option<Seq<char>>,
}

/// Repository authentication information.
#[derive(Debug, Clone, PartialEq, Eq)]
pub struct RepositoryAuth {
    pub auth_type: AuthType,
    pub credentials: Option<String>,
}

impl View for RepositoryAuth {
    type V = RepositoryAuthView;

    open spec fn view(&self) -> RepositoryAuthView {
        RepositoryAuthView {
            auth_type: self.auth_type,
            credentials: match &self.credentials {
                Some(c) => Some(c@),
                None => None,
            },
        }
    }
}

/// Abstract value of a `Configuration`.
pub struct ConfigurationView {
    pub default_location: Option<Seq<char>>,
    pub dependencies: Seq<DependencyView>,
}

/// The application configuration: a list of dependencies and a default location.
#[derive(Debug, Clone, PartialEq, Eq)]
pub struct Configuration {
    /// Default location for vendored content.
    pub default_location: Option<String>,
    /// All declared dependencies.
    pub dependencies: Vec<Dependency>,
}

impl View for Configuration {
    type V = ConfigurationView;

    open spec fn view(&self) -> ConfigurationView {
        ConfigurationView {
            default_location: match &self.default_location {
                Some(l) => Some(l@),
                None => None,
            },
            dependencies: self.dependencies.deep_view(),
        }
    }
}

} // verus!
