//! Small domain helpers: an error handler that produces and displays example
//! errors, and a credentials formatter that masks secrets.

use vstd::prelude::*;

use crate::error::{error_text, DomainError, DomainErrorView};
use crate::models::{AuthType, RepositoryAuth, RepositoryAuthView};
use crate::text::str_eq;

verus! {

/// The example error produced for each error-type keyword.
pub open spec fn example_error(error_type: Seq<char>) -> DomainErrorView {
    if error_type == "repository"@ {
        DomainErrorView::RepositoryError("Example repository error"@)
    } else if error_type == "filesystem"@ {
        DomainErrorView::FileSystemError("Example file system error"@)
    } else if error_type == "config"@ {
        DomainErrorView::ConfigurationError("Example configuration error"@)
    } else if error_type == "dependency"@ {
        DomainErrorView::InvalidDependencyError("Example dependency error"@)
    } else if error_type == "git"@ {
        DomainErrorView::GitError("Example git error"@)
    } else if error_type == "pattern"@ {
        DomainErrorView::PathPatternError("Example path pattern error"@)
    } else {
        DomainErrorView::UnknownError("Unknown error type"@)
    }
}

/// Example domain error handler.
pub struct ErrorHandler;

impl ErrorHandler {
    /// Create a new error handler.
    pub fn new() -> Self {
        ErrorHandler
    }

    /// Generate example errors for testing.
    pub fn generate_error(&self, error_type: &str) -> (r: DomainError)
        ensures
            r@ == example_error(error_type@),
    {
        if str_eq(error_type, "repository") {
            DomainError::RepositoryError(("Example repository error").to_owned())
        } else if str_eq(error_type, "filesystem") {
            DomainError::FileSystemError(("Example file system error").to_owned())
        } else if str_eq(error_type, "config") {
            DomainError::ConfigurationError(("Example configuration error").to_owned())
        } else if str_eq(error_type, "dependency") {
            DomainError::InvalidDependencyError(("Example dependency error").to_owned())
        } else if str_eq(error_type, "git") {
            DomainError::GitError(("Example git error").to_owned())
        } else if str_eq(error_type, "pattern") {
            DomainError::PathPatternError(("Example path pattern error").to_owned())
        } else {
            DomainError::UnknownError(("Unknown error type").to_owned())
        }
    }

    /// Display error information.
    pub fn display_error(&self, error: &DomainError) -> (r: String)
        ensures
            r@ == "Error: "@ + error_text(error@),
    {
        let mut s = ("Error: ").to_owned();
        let d = error.describe();
        s.append(d.as_str());
        s
    }
}

impl Default for ErrorHandler {
    fn default() -> (r: Self)
        ensures
            r == ErrorHandler,
    {
        ErrorHandler
    }
}

/// Index of the first occurrence of `ch` in `c`, or -1 if it does not occur.
pub open spec fn index_of_first(c: Seq<char>, ch: char) -> int
    decreases c.len(),
{
    if c.len() == 0 {
        -1
    } else if c[0] == ch {
        0
    } else {
        let rest = index_of_first(c.subrange(1, c.len() as int), ch);
        if rest < 0 {
            -1
        } else {
            rest + 1
        }
    }
}

/// Establishes `index_of_first` from a witness: the character occurs at `i`
/// and nowhere earlier.
proof fn lemma_index_of_first_at(c: Seq<char>, ch: char, i: int)
    requires
        0 <= i < c.len(),
        c[i] == ch,
        forall|j: int| 0 <= j < i ==> c[j] != ch,
    ensures
        index_of_first(c, ch) == i,
    decreases c.len(),
{
    if i == 0 {
    } else {
        let rest = c.subrange(1, c.len() as int);
        assert(rest[i - 1] == ch);
        assert forall|j: int| 0 <= j < i - 1 implies rest[j] != ch by {
            assert(rest[j] == c[j + 1]);
        }
        lemma_index_of_first_at(rest, ch, i - 1);
    }
}

/// Establishes `index_of_first` when the character never occurs.
proof fn lemma_index_of_first_none(c: Seq<char>, ch: char)
    requires
        forall|j: int| 0 <= j < c.len() ==> c[j] != ch,
    ensures
        index_of_first(c, ch) == -1,
    decreases c.len(),
{
    if c.len() > 0 {
        let rest = c.subrange(1, c.len() as int);
        assert forall|j: int| 0 <= j < rest.len() implies rest[j] != ch by {
            assert(rest[j] == c[j + 1]);
        }
        lemma_index_of_first_none(rest, ch);
    }
}

/// The text `format_credentials` produces: authentication type spelled out,
/// with any secret part masked.
pub open spec fn formatted_credentials(a: RepositoryAuthView) -> Seq<char> {
    match a.auth_type {
        AuthType::NoAuth => "No authentication"@,
        AuthType::Ssh => "SSH key authentication"@,
        AuthType::HttpsBasic => match a.credentials {
            Some(c) => if index_of_first(c, ':') >= 0 {
                "HTTP Basic: "@ + c.take(index_of_first(c, ':')) + ":******"@
            } else {
                "Invalid HTTP Basic format"@
            },
            None => "Missing HTTP Basic credentials"@,
        },
        AuthType::HttpsToken => match a.credentials {
            Some(_) => "HTTP Token: ******"@,
            None => "Missing HTTP Token"@,
        },
    }
}

/// Example authentication helper.
pub struct AuthHelper;

impl AuthHelper {
    /// Create a new auth helper.
    pub fn new() -> Self {
        AuthHelper
    }

    /// Format authentication information for display, masking the password
    /// or token part.
    pub fn format_credentials(&self, auth: &RepositoryAuth) -> (r: String)
        ensures
            r@ == formatted_credentials(auth@),
    {
        match auth.auth_type {
            AuthType::NoAuth => ("No authentication").to_owned(),
            AuthType::Ssh => ("SSH key authentication").to_owned(),
            AuthType::HttpsBasic => {
                match &auth.credentials {
                    Some(creds) => {
                        match crate::text::str_find(creds.as_str(), ':') {
                            Some(idx) => {
                                proof {
                                    lemma_index_of_first_at(creds@, ':', idx as int);
                                }
                                let username = creds.as_str().substring_char(0, idx);
                                let mut s = ("HTTP Basic: ").to_owned();
                                s.append(username);
                                s.append(":******");
                                proof {
                                    assert(creds@.subrange(0, idx as int) =~= creds@.take(
                                        idx as int,
                                    ));
                                }
                                s
                            },
                            None => {
                                proof {
                                    lemma_index_of_first_none(creds@, ':');
                                }
                                ("Invalid HTTP Basic format").to_owned()
                            },
                        }
                    },
                    None => ("Missing HTTP Basic credentials").to_owned(),
                }
            },
            AuthType::HttpsToken => {
                match &auth.credentials {
                    Some(_) => ("HTTP Token: ******").to_owned(),
                    None => ("Missing HTTP Token").to_owned(),
                }
            },
        }
    }
}

impl Default for AuthHelper {
    fn default() -> (r: Self)
        ensures
            r == AuthHelper,
    {
        AuthHelper
    }
}

} // verus!
