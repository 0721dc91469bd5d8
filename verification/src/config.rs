//! How the registry is set up to authenticate its callers.

use vstd::prelude::*;
use crate::error::AuthError;
use crate::index_url::extract_github_owner_repo;
use crate::index_url::spec_owner_repo;
use crate::text::option_view;

verus! {

/// An authentication mode, as a mathematical value.
pub ghost enum AuthModeView {
    ApiKey(Seq<char>),
    DoubleApiKey { read: Option<Seq<char>>, write: Seq<char> },
    GithubOAuth { client_id: Seq<char>, client_secret: Seq<char> },
    GithubOAuthPrivate { client_id: Seq<char>, client_secret: Seq<char> },
    Unauthenticated,
}

/// How callers prove who they are.
pub enum AuthMode {
    /// One shared key opens the registry for reading and for writing.
    ApiKey(String),
    /// One key for writing and, if `read` is set, another for reading;
    /// without `read`, anyone may read.
    DoubleApiKey { read: Option<String>, write: String },
    /// Writers present a GitHub token granted to this OAuth application;
    /// anyone may read.
    GithubOAuth { client_id: String, client_secret: String },
    /// Readers and writers present a GitHub token granted to this OAuth
    /// application, and must be collaborators of the index repository.
    GithubOAuthPrivate { client_id: String, client_secret: String },
    /// Anyone may read and nobody may write.
    Unauthenticated,
}

impl View for AuthMode {
    type V = AuthModeView;

    open spec fn view(&self) -> AuthModeView {
        match *self {
            AuthMode::ApiKey(key) => AuthModeView::ApiKey(key@),
            AuthMode::DoubleApiKey { read, write } => AuthModeView::DoubleApiKey {
                read: match read {
                    Some(key) => Some(key@),
                    None => None,
                },
                write: write@,
            },
            AuthMode::GithubOAuth { client_id, client_secret } => AuthModeView::GithubOAuth {
                client_id: client_id@,
                client_secret: client_secret@,
            },
            AuthMode::GithubOAuthPrivate {
                client_id,
                client_secret,
            } => AuthModeView::GithubOAuthPrivate {
                client_id: client_id@,
                client_secret: client_secret@,
            },
            AuthMode::Unauthenticated => AuthModeView::Unauthenticated,
        }
    }
}

impl AuthModeView {
    /// The name of the mode, without any of its secrets.
    pub open spec fn label(self) -> Seq<char> {
        match self {
            AuthModeView::ApiKey(_) => "API key"@,
            AuthModeView::DoubleApiKey { .. } => "double API key"@,
            AuthModeView::GithubOAuth { .. } => "Github OAuth"@,
            AuthModeView::GithubOAuthPrivate { .. } => "Github OAuth (private)"@,
            AuthModeView::Unauthenticated => "no authentication"@,
        }
    }
}

impl AuthMode {
    /// The name of the mode, fit for a log: it shows none of the secrets.
    pub fn label(&self) -> (name: &'static str)
        ensures
            name@ == self@.label(),
    {
        match self {
            AuthMode::ApiKey(_) => "API key",
            AuthMode::DoubleApiKey { .. } => "double API key",
            AuthMode::GithubOAuth { .. } => "Github OAuth",
            AuthMode::GithubOAuthPrivate { .. } => "Github OAuth (private)",
            AuthMode::Unauthenticated => "no authentication",
        }
    }
}

/// The authentication settings, as a mathematical value.
pub ghost struct AuthConfigView {
    pub auth: AuthModeView,
    pub index_url: Seq<char>,
    pub github_token: Option<Seq<char>>,
}

impl AuthConfigView {
    /// Whether the settings hold what the collaborator check needs: an index
    /// address that names a repository on GitHub, and the server's token.
    pub open spec fn can_check_collaborators(self) -> bool {
        spec_owner_repo(self.index_url) is Some && self.github_token is Some
    }

    /// Whether the settings hold all that their mode needs: a private
    /// deployment must be able to check who the collaborators are.
    pub open spec fn is_valid(self) -> bool {
        self.auth is GithubOAuthPrivate ==> self.can_check_collaborators()
    }
}

/// The authentication settings of a deployment. They are made once, when
/// the server starts, and never change. They always hold all that their
/// mode needs: settings that do not cannot be made.
pub struct AuthConfig {
    auth: AuthMode,
    index_url: String,
    github_token: Option<String>,
}

impl View for AuthConfig {
    type V = AuthConfigView;

    closed spec fn view(&self) -> AuthConfigView {
        AuthConfigView {
            auth: self.auth@,
            index_url: self.index_url@,
            github_token: match self.github_token {
                Some(token) => Some(token@),
                None => None,
            },
        }
    }
}

impl AuthConfig {
    #[verifier::type_invariant]
    spec fn holds_what_its_mode_needs(&self) -> bool {
        self@.is_valid()
    }

    /// Makes the settings of a deployment: the mode in force, the address of
    /// the index repository, and the server's own GitHub token, with which
    /// it may ask who the collaborators of the index repository are.
    ///
    /// Settings that lack what their mode needs are refused.
    pub fn new(auth: AuthMode, index_url: String, github_token: Option<String>) -> (made: Result<
        AuthConfig,
        AuthError,
    >)
        ensures
            ({
                let wanted = AuthConfigView {
                    auth: auth@,
                    index_url: index_url@,
                    github_token: match github_token {
                        Some(token) => Some(token@),
                        None => None,
                    },
                };
                match made {
                    Ok(config) => wanted.is_valid() && config@ == wanted,
                    Err(error) => !wanted.is_valid() && error == AuthError::ConfigurationError,
                }
            }),
    {
        let fit = match &auth {
            AuthMode::GithubOAuthPrivate { .. } => extract_github_owner_repo(
                index_url.as_str(),
            ).is_some() && github_token.is_some(),
            _ => true,
        };
        if fit {
            Ok(AuthConfig { auth, index_url, github_token })
        } else {
            Err(AuthError::ConfigurationError)
        }
    }

    /// The mode in force.
    pub fn auth(&self) -> (auth: &AuthMode)
        ensures
            auth@ == self@.auth,
            self@.is_valid(),
    {
        proof {
            use_type_invariant(self);
        }
        &self.auth
    }

    /// The address of the index repository.
    pub fn index_url(&self) -> (index_url: &str)
        ensures
            index_url@ == self@.index_url,
    {
        self.index_url.as_str()
    }

    /// The server's own GitHub token, if it has one.
    pub fn github_token(&self) -> (github_token: Option<&str>)
        ensures
            option_view(github_token) == self@.github_token,
    {
        match &self.github_token {
            Some(token) => Some(token.as_str()),
            None => None,
        }
    }
}

} // verus!
