use vstd::prelude::*;

verus! {

/// Why a request was refused.
#[derive(Debug, Clone, Copy, PartialEq, Eq, Structural)]
pub enum AuthError {
    /// The `authorization` header is absent or does not start with `Bearer `.
    MissingCredential,
    /// The presented credential was examined and found wanting.
    InvalidCredential,
    /// The identity provider answered with a status that has no meaning here.
    UpstreamUnexpected(u16),
    /// The identity provider could not be reached.
    TransportFailure,
    /// The deployment itself is set up wrongly.
    ConfigurationError,
}

impl AuthError {
    /// The HTTP status that a response reporting this error carries.
    pub open spec fn spec_http_status(self) -> u16 {
        match self {
            AuthError::MissingCredential => 401,
            AuthError::InvalidCredential => 401,
            AuthError::UpstreamUnexpected(_) => 422,
            AuthError::TransportFailure => 500,
            AuthError::ConfigurationError => 500,
        }
    }

    /// What went wrong, in words that give none of the credentials away.
    pub open spec fn spec_message(self) -> Seq<char> {
        match self {
            AuthError::MissingCredential => "a bearer token is required"@,
            AuthError::InvalidCredential => "the credential is not valid"@,
            AuthError::UpstreamUnexpected(_) => "GitHub gave an unexpected answer"@,
            AuthError::TransportFailure => "GitHub could not be reached"@,
            AuthError::ConfigurationError => "the registry is not set up for this"@,
        }
    }

    /// What went wrong, in words that give none of the credentials away.
    pub fn message(&self) -> (message: &'static str)
        ensures
            message@ == self.spec_message(),
    {
        match self {
            AuthError::MissingCredential => "a bearer token is required",
            AuthError::InvalidCredential => "the credential is not valid",
            AuthError::UpstreamUnexpected(_) => "GitHub gave an unexpected answer",
            AuthError::TransportFailure => "GitHub could not be reached",
            AuthError::ConfigurationError => "the registry is not set up for this",
        }
    }

    /// The HTTP status that a response reporting this error carries.
    pub fn http_status(&self) -> (status: u16)
        ensures
            status == self.spec_http_status(),
    {
        match self {
            AuthError::MissingCredential => 401,
            AuthError::InvalidCredential => 401,
            AuthError::UpstreamUnexpected(_) => 422,
            AuthError::TransportFailure => 500,
            AuthError::ConfigurationError => 500,
        }
    }
}

} // verus!
