//! The library's error type, one variant per failure class.

use vstd::prelude::*;

verus! {

/// Abstract value of a `DomainError`: the variant together with its message.
pub enum DomainErrorView {
    RepositoryError(Seq<char>),
    FileSystemError(Seq<char>),
    ConfigurationError(Seq<char>),
    InvalidDependencyError(Seq<char>),
    GitError(Seq<char>),
    PathPatternError(Seq<char>),
    UnknownError(Seq<char>),
}

/// A failure surfaced by the synchronization engine or its collaborators.
#[derive(Debug, Clone, PartialEq, Eq)]
pub enum DomainError {
    RepositoryError(String),
    FileSystemError(String),
    ConfigurationError(String),
    InvalidDependencyError(String),
    GitError(String),
    PathPatternError(String),
    UnknownError(String),
}

impl View for DomainError {
    type V = DomainErrorView;

    open spec fn view(&self) -> DomainErrorView {
        match self {
            DomainError::RepositoryError(m) => DomainErrorView::RepositoryError(m@),
            DomainError::FileSystemError(m) => DomainErrorView::FileSystemError(m@),
            DomainError::ConfigurationError(m) => DomainErrorView::ConfigurationError(m@),
            DomainError::InvalidDependencyError(m) => DomainErrorView::InvalidDependencyError(m@),
            DomainError::GitError(m) => DomainErrorView::GitError(m@),
            DomainError::PathPatternError(m) => DomainErrorView::PathPatternError(m@),
            DomainError::UnknownError(m) => DomainErrorView::UnknownError(m@),
        }
    }
}

impl DomainError {
    /// An equal copy; written out because a derived `Clone` says nothing to the verifier.
    pub fn duplicate(&self) -> (r: DomainError)
        ensures
            r == *self,
    {
        match self {
            DomainError::RepositoryError(m) => DomainError::RepositoryError(m.clone()),
            DomainError::FileSystemError(m) => DomainError::FileSystemError(m.clone()),
            DomainError::ConfigurationError(m) => DomainError::ConfigurationError(m.clone()),
            DomainError::InvalidDependencyError(m) => DomainError::InvalidDependencyError(
                m.clone(),
            ),
            DomainError::GitError(m) => DomainError::GitError(m.clone()),
            DomainError::PathPatternError(m) => DomainError::PathPatternError(m.clone()),
            DomainError::UnknownError(m) => DomainError::UnknownError(m.clone()),
        }
    }

    /// The message text that describes this error, prefixed by its class.
    pub fn describe(&self) -> (r: String)
        ensures
            r@ == error_text(self@),
    {
        match self {
            DomainError::RepositoryError(m) => {
                let mut s = ("Repository operation failed: ").to_owned();
                s.append(m.as_str());
                s
            },
            DomainError::FileSystemError(m) => {
                let mut s = ("File system operation failed: ").to_owned();
                s.append(m.as_str());
                s
            },
            DomainError::ConfigurationError(m) => {
                let mut s = ("Configuration error: ").to_owned();
                s.append(m.as_str());
                s
            },
            DomainError::InvalidDependencyError(m) => {
                let mut s = ("Invalid dependency: ").to_owned();
                s.append(m.as_str());
                s
            },
            DomainError::GitError(m) => {
                let mut s = ("Git operation failed: ").to_owned();
                s.append(m.as_str());
                s
            },
            DomainError::PathPatternError(m) => {
                let mut s = ("Path pattern error: ").to_owned();
                s.append(m.as_str());
                s
            },
            DomainError::UnknownError(m) => {
                let mut s = ("Unknown error: ").to_owned();
                s.append(m.as_str());
                s
            },
        }
    }
}

/// The descriptive text of an error value: its class prefix followed by its message.
pub open spec fn error_text(v: DomainErrorView) -> Seq<char> {
    match v {
        DomainErrorView::RepositoryError(m) => "Repository operation failed: "@ + m,
        DomainErrorView::FileSystemError(m) => "File system operation failed: "@ + m,
        DomainErrorView::ConfigurationError(m) => "Configuration error: "@ + m,
        DomainErrorView::InvalidDependencyError(m) => "Invalid dependency: "@ + m,
        DomainErrorView::GitError(m) => "Git operation failed: "@ + m,
        DomainErrorView::PathPatternError(m) => "Path pattern error: "@ + m,
        DomainErrorView::UnknownError(m) => "Unknown error: "@ + m,
    }
}

} // verus!
