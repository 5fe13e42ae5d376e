//! Authentication selection: given a source URL (and the token the caller
//! read from its environment, if any), decide which authentication the fetch
//! step should use.

use vstd::prelude::*;

use crate::models::{AuthType, RepositoryAuth, RepositoryAuthView};
use crate::text::{starts_with_seq, str_starts_with};

verus! {

/// The authentication chosen for a URL: SSH for `git@` URLs, a token for
/// HTTPS when one is available, otherwise no authentication for HTTPS, and
/// nothing for unsupported schemes.
pub open spec fn auth_for(url: Seq<char>, token: Option<Seq<char>>) -> Option<
    RepositoryAuthView,
> {
    if starts_with_seq(url, "git@"@) {
        Some(RepositoryAuthView { auth_type: AuthType::Ssh, credentials: None })
    } else if starts_with_seq(url, "https://"@) {
        match token {
            Some(t) => Some(
                RepositoryAuthView { auth_type: AuthType::HttpsToken, credentials: Some(t) },
            ),
            None => Some(RepositoryAuthView { auth_type: AuthType::NoAuth, credentials: None }),
        }
    } else {
        None
    }
}

/// Authentication service for repository access.
pub struct AuthenticationService;

impl AuthenticationService {
    /// Create a new authentication service.
    pub fn new() -> Self {
        AuthenticationService
    }

    /// Get authentication information for a repository URL.  `token` is the
    /// access token the caller found in its environment, if any.
    pub fn get_auth_for_repository(&self, url: &str, token: Option<String>) -> (r: Option<
        RepositoryAuth,
    >)
        ensures
            match r {
                Some(a) => auth_for(url@, token.deep_view()) == Some(a@),
                None => auth_for(url@, token.deep_view()) is None,
            },
    {
        if str_starts_with(url, "git@") {
            return Some(RepositoryAuth { auth_type: AuthType::Ssh, credentials: None });
        }
        if str_starts_with(url, "https://") {
            match token {
                Some(t) => {
                    return Some(
                        RepositoryAuth { auth_type: AuthType::HttpsToken, credentials: Some(t) },
                    );
                },
                None => {
                    return Some(
                        RepositoryAuth { auth_type: AuthType::NoAuth, credentials: None },
                    );
                },
            }
        }
        None
    }

    /// Build HTTP Basic authentication from a username and password.
    pub fn create_basic_auth(username: &str, password: &str) -> (r: RepositoryAuth)
        ensures
            r@.auth_type == AuthType::HttpsBasic,
            r@.credentials == Some(username@ + ":"@ + password@),
    {
        let mut creds = username.to_owned();
        creds.append(":");
        creds.append(password);
        RepositoryAuth { auth_type: AuthType::HttpsBasic, credentials: Some(creds) }
    }
}

impl Default for AuthenticationService {
    fn default() -> (r: Self)
        ensures
            r == AuthenticationService,
    {
        AuthenticationService
    }
}

} // verus!
