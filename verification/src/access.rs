//! What a request may do: the access it is granted for reading and for
//! writing, by the authentication mode in force.

use vstd::prelude::*;
use crate::api_key::lemma_granted_only_with_key;
use crate::api_key::match_api_key;
use crate::api_key::spec_match_api_key;
use crate::bearer::bearer_prefix;
use crate::bearer::lemma_bearer_token_of_header;
use crate::config::AuthConfig;
use crate::config::AuthConfigView;
use crate::config::AuthMode;
use crate::config::AuthModeView;
use crate::error::AuthError;
use crate::github::GithubIdentity;
use crate::github::GithubInfo;
use crate::github::GithubReplies;
use crate::github::GithubRepliesView;
use crate::github::GithubRequest;
use crate::github::GithubRequestView;
use crate::github::GithubStep;
use crate::github::GithubStepView;
use crate::github::IndexAccessPolicy;
use crate::github::spec_verify_github;
use crate::github::verify_github;
use crate::text::option_view;

verus! {

/// The right to read, as a mathematical value.
pub ghost enum ReadAccessView {
    Public,
    ApiKey,
    Github(GithubIdentity),
}

/// The right to read the registry, and on what ground it was granted.
#[derive(Debug, PartialEq, Eq)]
pub enum ReadAccess {
    /// Anyone may read: the caller did not have to say who they are.
    Public,
    /// The caller presented the key for reading.
    ApiKey,
    /// The caller presented a token of this GitHub account.
    Github(GithubInfo),
}

impl View for ReadAccess {
    type V = ReadAccessView;

    open spec fn view(&self) -> ReadAccessView {
        match *self {
            ReadAccess::Public => ReadAccessView::Public,
            ReadAccess::ApiKey => ReadAccessView::ApiKey,
            ReadAccess::Github(info) => ReadAccessView::Github(info@),
        }
    }
}

/// The right to write, as a mathematical value.
pub ghost enum WriteAccessView {
    ApiKey,
    Github(GithubIdentity),
}

/// The right to write to the registry, and on what ground it was granted.
/// Nobody writes without a credential.
#[derive(Debug, PartialEq, Eq)]
pub enum WriteAccess {
    /// The caller presented the key for writing.
    ApiKey,
    /// The caller presented a token of this GitHub account.
    Github(GithubInfo),
}

impl View for WriteAccess {
    type V = WriteAccessView;

    open spec fn view(&self) -> WriteAccessView {
        match *self {
            WriteAccess::ApiKey => WriteAccessView::ApiKey,
            WriteAccess::Github(info) => WriteAccessView::Github(info@),
        }
    }
}

/// Where the resolution of a request's access stands, as a mathematical
/// value.
pub ghost enum AccessStepView<A> {
    Granted(A),
    Refused(AuthError),
    Send(GithubRequestView),
}

/// Where the resolution of a request's access stands.
#[derive(PartialEq, Eq)]
pub enum AccessStep<A> {
    /// The request has this access.
    Granted(A),
    /// The request is refused.
    Refused(AuthError),
    /// GitHub has to be asked first: send this request, record its reply
    /// and ask again.
    Send(GithubRequest),
}

impl<A: View> View for AccessStep<A> {
    type V = AccessStepView<A::V>;

    open spec fn view(&self) -> AccessStepView<A::V> {
        match *self {
            AccessStep::Granted(access) => AccessStepView::Granted(access@),
            AccessStep::Refused(error) => AccessStepView::Refused(error),
            AccessStep::Send(request) => AccessStepView::Send(request@),
        }
    }
}

/// The step that the outcome of a key comparison amounts to.
pub open spec fn step_of_key<A>(outcome: Result<A, AuthError>) -> AccessStepView<A> {
    match outcome {
        Ok(access) => AccessStepView::Granted(access),
        Err(error) => AccessStepView::Refused(error),
    }
}

/// The step that a step of the GitHub verification amounts to for a reader.
pub open spec fn read_step_of_github(step: GithubStepView) -> AccessStepView<ReadAccessView> {
    match step {
        GithubStepView::Send(request) => AccessStepView::Send(request),
        GithubStepView::Verified(identity) => AccessStepView::Granted(
            ReadAccessView::Github(identity),
        ),
        GithubStepView::Refused(error) => AccessStepView::Refused(error),
    }
}

/// The step that a step of the GitHub verification amounts to for a writer.
pub open spec fn write_step_of_github(step: GithubStepView) -> AccessStepView<WriteAccessView> {
    match step {
        GithubStepView::Send(request) => AccessStepView::Send(request),
        GithubStepView::Verified(identity) => AccessStepView::Granted(
            WriteAccessView::Github(identity),
        ),
        GithubStepView::Refused(error) => AccessStepView::Refused(error),
    }
}

/// The access for reading of a request that presents `authorization`, as
/// far as the replies that GitHub has given so far decide it.
pub open spec fn spec_read_access(
    config: AuthConfigView,
    authorization: Option<Seq<char>>,
    replies: GithubRepliesView,
) -> AccessStepView<ReadAccessView> {
    match config.auth {
        AuthModeView::Unauthenticated => AccessStepView::Granted(ReadAccessView::Public),
        AuthModeView::GithubOAuth { .. } => AccessStepView::Granted(ReadAccessView::Public),
        AuthModeView::GithubOAuthPrivate { client_id, client_secret } => read_step_of_github(
            spec_verify_github(
                authorization,
                client_id,
                client_secret,
                IndexAccessPolicy::Required,
                config.index_url,
                config.github_token,
                replies,
            ),
        ),
        AuthModeView::ApiKey(key) => step_of_key(
            spec_match_api_key(authorization, key, ReadAccessView::ApiKey),
        ),
        AuthModeView::DoubleApiKey { read, .. } => match read {
            None => AccessStepView::Granted(ReadAccessView::Public),
            Some(key) => step_of_key(
                spec_match_api_key(authorization, key, ReadAccessView::ApiKey),
            ),
        },
    }
}

/// The access for writing of a request that presents `authorization`, as
/// far as the replies that GitHub has given so far decide it.
pub open spec fn spec_write_access(
    config: AuthConfigView,
    authorization: Option<Seq<char>>,
    replies: GithubRepliesView,
) -> AccessStepView<WriteAccessView> {
    match config.auth {
        AuthModeView::Unauthenticated => AccessStepView::Refused(AuthError::MissingCredential),
        AuthModeView::ApiKey(key) => step_of_key(
            spec_match_api_key(authorization, key, WriteAccessView::ApiKey),
        ),
        AuthModeView::DoubleApiKey { write, .. } => step_of_key(
            spec_match_api_key(authorization, write, WriteAccessView::ApiKey),
        ),
        AuthModeView::GithubOAuth { client_id, client_secret } => write_step_of_github(
            spec_verify_github(
                authorization,
                client_id,
                client_secret,
                IndexAccessPolicy::Optional,
                config.index_url,
                config.github_token,
                replies,
            ),
        ),
        AuthModeView::GithubOAuthPrivate { client_id, client_secret } => write_step_of_github(
            spec_verify_github(
                authorization,
                client_id,
                client_secret,
                IndexAccessPolicy::Required,
                config.index_url,
                config.github_token,
                replies,
            ),
        ),
    }
}

impl ReadAccess {
    /// The access of a reader who was verified as this GitHub account.
    pub fn construct(info: GithubInfo) -> (access: ReadAccess)
        ensures
            access@ == ReadAccessView::Github(info@),
    {
        ReadAccess::Github(info)
    }

    /// Resolves the access for reading of a request whose `authorization`
    /// header holds `authorization`.
    ///
    /// Where the mode needs GitHub, the caller starts with no reply, sends
    /// each request that comes back as [`AccessStep::Send`], records what
    /// GitHub answered in `replies` and asks again.
    pub fn from_request(
        config: &AuthConfig,
        authorization: Option<&str>,
        replies: &GithubReplies,
    ) -> (step: AccessStep<ReadAccess>)
        ensures
            step@ == spec_read_access(config@, option_view(authorization), replies@),
            step@ != AccessStepView::<ReadAccessView>::Refused(AuthError::ConfigurationError),
    {
        match config.auth() {
            AuthMode::Unauthenticated => AccessStep::Granted(ReadAccess::Public),
            AuthMode::GithubOAuth { .. } => AccessStep::Granted(ReadAccess::Public),
            AuthMode::GithubOAuthPrivate { client_id, client_secret } => {
                let verified = verify_github(
                    authorization,
                    client_id.as_str(),
                    client_secret.as_str(),
                    IndexAccessPolicy::Required,
                    config,
                    replies,
                );
                match verified {
                    GithubStep::Send(request) => AccessStep::Send(request),
                    GithubStep::Verified(info) => AccessStep::Granted(ReadAccess::construct(info)),
                    GithubStep::Refused(error) => AccessStep::Refused(error),
                }
            },
            AuthMode::ApiKey(key) => {
                match match_api_key(authorization, key.as_str(), ReadAccess::ApiKey) {
                    Ok(access) => AccessStep::Granted(access),
                    Err(error) => AccessStep::Refused(error),
                }
            },
            AuthMode::DoubleApiKey { read, .. } => match read {
                None => AccessStep::Granted(ReadAccess::Public),
                Some(key) => {
                    match match_api_key(authorization, key.as_str(), ReadAccess::ApiKey) {
                        Ok(access) => AccessStep::Granted(access),
                        Err(error) => AccessStep::Refused(error),
                    }
                },
            },
        }
    }
}

impl WriteAccess {
    /// The access of a writer who was verified as this GitHub account.
    pub fn construct(info: GithubInfo) -> (access: WriteAccess)
        ensures
            access@ == WriteAccessView::Github(info@),
    {
        WriteAccess::Github(info)
    }

    /// Resolves the access for writing of a request whose `authorization`
    /// header holds `authorization`.
    ///
    /// Where the mode needs GitHub, the caller starts with no reply, sends
    /// each request that comes back as [`AccessStep::Send`], records what
    /// GitHub answered in `replies` and asks again.
    pub fn from_request(
        config: &AuthConfig,
        authorization: Option<&str>,
        replies: &GithubReplies,
    ) -> (step: AccessStep<WriteAccess>)
        ensures
            step@ == spec_write_access(config@, option_view(authorization), replies@),
            step@ != AccessStepView::<WriteAccessView>::Refused(AuthError::ConfigurationError),
    {
        match config.auth() {
            AuthMode::Unauthenticated => AccessStep::Refused(AuthError::MissingCredential),
            AuthMode::ApiKey(key) => {
                match match_api_key(authorization, key.as_str(), WriteAccess::ApiKey) {
                    Ok(access) => AccessStep::Granted(access),
                    Err(error) => AccessStep::Refused(error),
                }
            },
            AuthMode::DoubleApiKey { write, .. } => {
                match match_api_key(authorization, write.as_str(), WriteAccess::ApiKey) {
                    Ok(access) => AccessStep::Granted(access),
                    Err(error) => AccessStep::Refused(error),
                }
            },
            AuthMode::GithubOAuth { client_id, client_secret } => {
                let verified = verify_github(
                    authorization,
                    client_id.as_str(),
                    client_secret.as_str(),
                    IndexAccessPolicy::Optional,
                    config,
                    replies,
                );
                match verified {
                    GithubStep::Send(request) => AccessStep::Send(request),
                    GithubStep::Verified(info) => AccessStep::Granted(WriteAccess::construct(info)),
                    GithubStep::Refused(error) => AccessStep::Refused(error),
                }
            },
            AuthMode::GithubOAuthPrivate { client_id, client_secret } => {
                let verified = verify_github(
                    authorization,
                    client_id.as_str(),
                    client_secret.as_str(),
                    IndexAccessPolicy::Required,
                    config,
                    replies,
                );
                match verified {
                    GithubStep::Send(request) => AccessStep::Send(request),
                    GithubStep::Verified(info) => AccessStep::Granted(WriteAccess::construct(info)),
                    GithubStep::Refused(error) => AccessStep::Refused(error),
                }
            },
        }
    }
}

/// Under a single API key, the request that presents the key is granted
/// reading and writing, whatever GitHub may have said.
pub proof fn lemma_api_key_grants_its_holder(
    config: AuthConfigView,
    key: Seq<char>,
    replies: GithubRepliesView,
)
    requires
        config.auth == AuthModeView::ApiKey(key),
    ensures
        spec_read_access(config, Some(bearer_prefix() + key), replies) == AccessStepView::Granted(
            ReadAccessView::ApiKey,
        ),
        spec_write_access(config, Some(bearer_prefix() + key), replies) == AccessStepView::Granted(
            WriteAccessView::ApiKey,
        ),
{
    lemma_bearer_token_of_header(key);
}

/// Under a single API key, a request that presents any other token, be it
/// empty, a part of the key or the key in another case, is refused reading
/// and writing as an invalid credential.
pub proof fn lemma_api_key_refuses_other_tokens(
    config: AuthConfigView,
    key: Seq<char>,
    presented: Seq<char>,
    replies: GithubRepliesView,
)
    requires
        config.auth == AuthModeView::ApiKey(key),
        presented != key,
    ensures
        spec_read_access(config, Some(bearer_prefix() + presented), replies)
            == AccessStepView::<ReadAccessView>::Refused(AuthError::InvalidCredential),
        spec_write_access(config, Some(bearer_prefix() + presented), replies)
            == AccessStepView::<WriteAccessView>::Refused(AuthError::InvalidCredential),
{
    lemma_bearer_token_of_header(presented);
}

/// Under a single API key, a request without the header is refused reading
/// and writing for want of a credential.
pub proof fn lemma_api_key_refuses_missing_header(
    config: AuthConfigView,
    key: Seq<char>,
    replies: GithubRepliesView,
)
    requires
        config.auth == AuthModeView::ApiKey(key),
    ensures
        spec_read_access(config, None, replies) == AccessStepView::<ReadAccessView>::Refused(
            AuthError::MissingCredential,
        ),
        spec_write_access(config, None, replies) == AccessStepView::<WriteAccessView>::Refused(
            AuthError::MissingCredential,
        ),
{
}

/// Under two API keys of which the one for reading is not set, every
/// request may read, with or without a header, and a request may write if
/// and only if it presents exactly the key for writing.
pub proof fn lemma_open_reading_keyed_writing(
    config: AuthConfigView,
    write: Seq<char>,
    authorization: Option<Seq<char>>,
    replies: GithubRepliesView,
)
    requires
        config.auth == (AuthModeView::DoubleApiKey { read: None, write }),
    ensures
        spec_read_access(config, authorization, replies) == AccessStepView::Granted(
            ReadAccessView::Public,
        ),
        authorization == Some(bearer_prefix() + write) ==> spec_write_access(
            config,
            authorization,
            replies,
        ) == AccessStepView::Granted(WriteAccessView::ApiKey),
        authorization != Some(bearer_prefix() + write) ==> spec_write_access(
            config,
            authorization,
            replies,
        ) is Refused,
{
    lemma_granted_only_with_key(authorization, write, WriteAccessView::ApiKey);
}

/// Nobody writes without a credential: in every mode, a request without a
/// bearer token is refused writing for want of one, before anything is sent.
pub proof fn lemma_writing_needs_a_credential(
    config: AuthConfigView,
    replies: GithubRepliesView,
)
    ensures
        spec_write_access(config, None, replies) == AccessStepView::<WriteAccessView>::Refused(
            AuthError::MissingCredential,
        ),
{
}

/// Where GitHub is not part of the mode, the access is decided at once:
/// nothing is ever sent.
pub proof fn lemma_keys_need_no_request(
    config: AuthConfigView,
    authorization: Option<Seq<char>>,
    replies: GithubRepliesView,
)
    requires
        !(config.auth is GithubOAuth),
        !(config.auth is GithubOAuthPrivate),
    ensures
        !(spec_read_access(config, authorization, replies) is Send),
        !(spec_write_access(config, authorization, replies) is Send),
{
}

/// Settings that passed the check at startup never fail a request with a
/// configuration error.
pub proof fn lemma_valid_settings_never_fail(
    config: AuthConfigView,
    authorization: Option<Seq<char>>,
    replies: GithubRepliesView,
)
    requires
        config.is_valid(),
    ensures
        spec_read_access(config, authorization, replies) != AccessStepView::<
            ReadAccessView,
        >::Refused(AuthError::ConfigurationError),
        spec_write_access(config, authorization, replies) != AccessStepView::<
            WriteAccessView,
        >::Refused(AuthError::ConfigurationError),
{
}

} // verus!
