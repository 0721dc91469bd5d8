//! Verification of a bearer token against GitHub.
//!
//! The verification takes up to three requests to GitHub, each sent only once
//! the one before it has succeeded: who the token belongs to, whether it was
//! granted to this OAuth application, and, where the deployment is private,
//! what the account may do on the index repository. This module decides; it
//! sends nothing. [`verify_github`] is given the replies received so far and
//! says what follows from them: the next request to send, the verified
//! identity, or the refusal.

use vstd::prelude::*;
use vstd::string::StringExecFns;
use crate::bearer::bearer_token;
use crate::bearer::spec_bearer_token;
use crate::config::AuthConfig;
use crate::error::AuthError;
use crate::index_url::extract_github_owner_repo;
use crate::index_url::spec_owner_repo;
use crate::text::option_view;
use crate::text::str_eq;

verus! {

/// A GitHub account, as a mathematical value.
pub ghost struct GithubIdentity {
    pub login: Seq<char>,
    pub id: u64,
}

/// A GitHub account whose token was verified.
#[derive(Debug, PartialEq, Eq)]
pub struct GithubInfo {
    login: String,
    id: u64,
}

impl View for GithubInfo {
    type V = GithubIdentity;

    closed spec fn view(&self) -> GithubIdentity {
        GithubIdentity { login: self.login@, id: self.id }
    }
}

impl GithubInfo {
    /// The account with this login name and this numeric id.
    pub fn new(login: String, id: u64) -> (info: GithubInfo)
        ensures
            info@ == (GithubIdentity { login: login@, id }),
    {
        GithubInfo { login, id }
    }

    /// The login name of the account.
    pub fn login(&self) -> (login: &str)
        ensures
            login@ == self@.login,
    {
        self.login.as_str()
    }

    /// The numeric id of the account.
    pub fn id(&self) -> (id: &u64)
        ensures
            *id == self@.id,
    {
        &self.id
    }

    /// A second value for the same account.
    pub fn duplicate(&self) -> (copy: GithubInfo)
        ensures
            copy@ == self@,
    {
        GithubInfo { login: self.login.clone(), id: self.id }
    }
}

/// What an account may do on a repository, in GitHub's words.
#[derive(Debug, PartialEq, Eq)]
pub struct GithubPermissionInfo {
    permission: String,
}

impl View for GithubPermissionInfo {
    type V = Seq<char>;

    closed spec fn view(&self) -> Seq<char> {
        self.permission@
    }
}

impl GithubPermissionInfo {
    /// The permission that GitHub reported under this name.
    pub fn new(permission: String) -> (info: GithubPermissionInfo)
        ensures
            info@ == permission@,
    {
        GithubPermissionInfo { permission }
    }

    /// The name of the permission.
    pub fn permission(&self) -> (permission: &str)
        ensures
            permission@ == self@,
    {
        self.permission.as_str()
    }
}

/// Whether an account may be let in only if it can reach the index repository.
#[derive(Debug, Clone, Copy, PartialEq, Eq, Structural)]
pub enum IndexAccessPolicy {
    /// Any account that holds a valid token is let in.
    Optional,
    /// The account must also be a collaborator of the index repository.
    Required,
}

/// What came back for one request.
#[derive(Debug, PartialEq, Eq)]
pub enum HttpReply<T> {
    /// Nothing came back: the request failed on the way or timed out.
    TransportFailed,
    /// A response came back with this status. `body` is what its body
    /// decoded to, or `None` where it did not have the expected shape.
    Answered { status: u16, body: Option<T> },
}

impl<T: View> View for HttpReply<T> {
    type V = HttpReply<T::V>;

    open spec fn view(&self) -> HttpReply<T::V> {
        match *self {
            HttpReply::TransportFailed => HttpReply::TransportFailed,
            HttpReply::Answered { status, body } => HttpReply::Answered {
                status,
                body: match body {
                    Some(value) => Some(value@),
                    None => None,
                },
            },
        }
    }
}

/// The replies received so far, as mathematical values.
pub ghost struct GithubRepliesView {
    pub user: Option<HttpReply<GithubIdentity>>,
    pub grant: Option<HttpReply<()>>,
    pub permission: Option<HttpReply<Seq<char>>>,
}

/// The replies that GitHub has given so far to the requests of one
/// verification. A field is `None` until its request has been answered.
#[derive(Debug, PartialEq, Eq)]
pub struct GithubReplies {
    /// The reply to [`GithubRequest::User`].
    pub user: Option<HttpReply<GithubInfo>>,
    /// The reply to [`GithubRequest::Grant`]. Its body holds nothing that is
    /// used: it only has to have decoded.
    pub grant: Option<HttpReply<()>>,
    /// The reply to [`GithubRequest::Permission`].
    pub permission: Option<HttpReply<GithubPermissionInfo>>,
}

impl View for GithubReplies {
    type V = GithubRepliesView;

    open spec fn view(&self) -> GithubRepliesView {
        GithubRepliesView {
            user: match self.user {
                Some(reply) => Some(reply@),
                None => None,
            },
            grant: match self.grant {
                Some(reply) => Some(reply@),
                None => None,
            },
            permission: match self.permission {
                Some(reply) => Some(reply@),
                None => None,
            },
        }
    }
}

impl GithubReplies {
    /// No reply yet.
    pub fn new() -> (replies: GithubReplies)
        ensures
            replies@ == (GithubRepliesView { user: None, grant: None, permission: None }),
    {
        GithubReplies { user: None, grant: None, permission: None }
    }
}

/// The value of the `accept` header of every request to GitHub.
pub const ACCEPT: &'static str = "application/json";

/// The value of the `user-agent` header of every request to GitHub.
pub const USER_AGENT: &'static str = "wally";

/// A request to GitHub, as a mathematical value.
pub ghost enum GithubRequestView {
    User { url: Seq<char>, bearer: Seq<char> },
    Grant {
        url: Seq<char>,
        client_id: Seq<char>,
        client_secret: Seq<char>,
        access_token: Seq<char>,
    },
    Permission { url: Seq<char>, bearer: Seq<char> },
}

/// A request to send to GitHub. Each is sent with the headers `accept`, of
/// value [`ACCEPT`], and `user-agent`, of value [`USER_AGENT`].
#[derive(PartialEq, Eq)]
pub enum GithubRequest {
    /// `GET url`, authenticated with the bearer token `bearer`: asks who the
    /// token belongs to. The body of the answer holds `login` and `id`.
    User { url: String, bearer: String },
    /// `POST url`, with basic authentication by `client_id` and
    /// `client_secret`, and the JSON body `{"access_token": access_token}`:
    /// asks whether the token was granted to this application.
    Grant { url: String, client_id: String, client_secret: String, access_token: String },
    /// `GET url`, authenticated with the bearer token `bearer`: asks what
    /// the account may do on the index repository. The body of the answer
    /// holds `permission`.
    Permission { url: String, bearer: String },
}

impl View for GithubRequest {
    type V = GithubRequestView;

    open spec fn view(&self) -> GithubRequestView {
        match *self {
            GithubRequest::User { url, bearer } => GithubRequestView::User {
                url: url@,
                bearer: bearer@,
            },
            GithubRequest::Grant {
                url,
                client_id,
                client_secret,
                access_token,
            } => GithubRequestView::Grant {
                url: url@,
                client_id: client_id@,
                client_secret: client_secret@,
                access_token: access_token@,
            },
            GithubRequest::Permission { url, bearer } => GithubRequestView::Permission {
                url: url@,
                bearer: bearer@,
            },
        }
    }
}

/// Where a verification stands, as a mathematical value.
pub ghost enum GithubStepView {
    Send(GithubRequestView),
    Verified(GithubIdentity),
    Refused(AuthError),
}

/// Where a verification stands.
#[derive(PartialEq, Eq)]
pub enum GithubStep {
    /// Send this request, record its reply and ask again.
    Send(GithubRequest),
    /// The token belongs to this account, and the account is let in.
    Verified(GithubInfo),
    /// The verification ended without letting anyone in.
    Refused(AuthError),
}

impl View for GithubStep {
    type V = GithubStepView;

    open spec fn view(&self) -> GithubStepView {
        match *self {
            GithubStep::Send(request) => GithubStepView::Send(request@),
            GithubStep::Verified(info) => GithubStepView::Verified(info@),
            GithubStep::Refused(error) => GithubStepView::Refused(error),
        }
    }
}

/// The request that asks GitHub who `token` belongs to.
pub open spec fn user_request(token: Seq<char>) -> GithubRequestView {
    GithubRequestView::User { url: "https://api.github.com/user"@, bearer: token }
}

/// The request that asks GitHub whether `token` was granted to the OAuth
/// application `client_id`.
pub open spec fn grant_request(
    client_id: Seq<char>,
    client_secret: Seq<char>,
    token: Seq<char>,
) -> GithubRequestView {
    GithubRequestView::Grant {
        url: "https://api.github.com/applications/"@ + client_id + "/token"@,
        client_id,
        client_secret,
        access_token: token,
    }
}

/// The request that asks GitHub, in the name of the server, what the
/// account `username` may do on the repository `owner/repo`.
pub open spec fn permission_request(
    owner: Seq<char>,
    repo: Seq<char>,
    username: Seq<char>,
    server_token: Seq<char>,
) -> GithubRequestView {
    GithubRequestView::Permission {
        url: "https://api.github.com/repos/"@ + owner + "/"@ + repo + "/collaborators/"@ + username
            + "/permission"@,
        bearer: server_token,
    }
}

/// The permissions with which an account is a collaborator that can at
/// least read.
pub open spec fn is_collaborator_permission(permission: Seq<char>) -> bool {
    permission == "admin"@ || permission == "write"@ || permission == "read"@
}

/// Whether `status` is one of the success codes, 200 to 299.
pub open spec fn is_success(status: u16) -> bool {
    200 <= status < 300
}

/// What follows once the token is known to be a grant of the application:
/// the account is let in, unless the policy asks for the third request.
pub open spec fn spec_after_grant(
    identity: GithubIdentity,
    policy: IndexAccessPolicy,
    index_url: Seq<char>,
    github_token: Option<Seq<char>>,
    permission: Option<HttpReply<Seq<char>>>,
) -> GithubStepView {
    match policy {
        IndexAccessPolicy::Optional => GithubStepView::Verified(identity),
        IndexAccessPolicy::Required => match (spec_owner_repo(index_url), github_token) {
            (Some((owner, repo)), Some(server_token)) => match permission {
                None => GithubStepView::Send(
                    permission_request(owner, repo, identity.login, server_token),
                ),
                Some(HttpReply::TransportFailed) => GithubStepView::Refused(
                    AuthError::TransportFailure,
                ),
                Some(HttpReply::Answered { status, body }) => match body {
                    Some(name) => if is_collaborator_permission(name) {
                        GithubStepView::Verified(identity)
                    } else {
                        GithubStepView::Refused(AuthError::InvalidCredential)
                    },
                    None => GithubStepView::Refused(AuthError::InvalidCredential),
                },
            },
            _ => GithubStepView::Refused(AuthError::ConfigurationError),
        },
    }
}

/// What follows once the token is known to belong to `identity`.
pub open spec fn spec_after_user(
    identity: GithubIdentity,
    token: Seq<char>,
    client_id: Seq<char>,
    client_secret: Seq<char>,
    policy: IndexAccessPolicy,
    index_url: Seq<char>,
    github_token: Option<Seq<char>>,
    replies: GithubRepliesView,
) -> GithubStepView {
    match replies.grant {
        None => GithubStepView::Send(grant_request(client_id, client_secret, token)),
        Some(HttpReply::TransportFailed) => GithubStepView::Refused(AuthError::TransportFailure),
        Some(HttpReply::Answered { status, body }) => if status == 200 {
            if body is Some {
                spec_after_grant(identity, policy, index_url, github_token, replies.permission)
            } else {
                GithubStepView::Refused(AuthError::InvalidCredential)
            }
        } else if status == 422 {
            GithubStepView::Refused(AuthError::InvalidCredential)
        } else {
            GithubStepView::Refused(AuthError::UpstreamUnexpected(status))
        },
    }
}

/// What follows from the replies received so far in the verification of the
/// token that the `authorization` header carries.
pub open spec fn spec_verify_github(
    authorization: Option<Seq<char>>,
    client_id: Seq<char>,
    client_secret: Seq<char>,
    policy: IndexAccessPolicy,
    index_url: Seq<char>,
    github_token: Option<Seq<char>>,
    replies: GithubRepliesView,
) -> GithubStepView {
    match spec_bearer_token(authorization) {
        None => GithubStepView::Refused(AuthError::MissingCredential),
        Some(token) => match replies.user {
            None => GithubStepView::Send(user_request(token)),
            Some(HttpReply::TransportFailed) => GithubStepView::Refused(
                AuthError::TransportFailure,
            ),
            Some(HttpReply::Answered { status, body }) => match body {
                Some(identity) => if is_success(status) {
                    spec_after_user(
                        identity,
                        token,
                        client_id,
                        client_secret,
                        policy,
                        index_url,
                        github_token,
                        replies,
                    )
                } else {
                    GithubStepView::Refused(AuthError::InvalidCredential)
                },
                None => GithubStepView::Refused(AuthError::InvalidCredential),
            },
        },
    }
}

/// The third stage: whether the account is a collaborator of the index
/// repository, where the policy asks for that.
fn check_collaborator(
    info: &GithubInfo,
    index_access_policy: IndexAccessPolicy,
    config: &AuthConfig,
    replies: &GithubReplies,
) -> (step: GithubStep)
    ensures
        step@ == spec_after_grant(
            info@,
            index_access_policy,
            config@.index_url,
            config@.github_token,
            replies@.permission,
        ),
{
    match index_access_policy {
        IndexAccessPolicy::Optional => GithubStep::Verified(info.duplicate()),
        IndexAccessPolicy::Required => {
            let (owner, repo) = match extract_github_owner_repo(config.index_url()) {
                Some(names) => names,
                None => {
                    return GithubStep::Refused(AuthError::ConfigurationError);
                },
            };
            let server_token = match config.github_token() {
                Some(token) => token,
                None => {
                    return GithubStep::Refused(AuthError::ConfigurationError);
                },
            };
            match &replies.permission {
                None => {
                    let mut url = "https://api.github.com/repos/".to_owned();
                    url.append(owner.as_str());
                    url.append("/");
                    url.append(repo.as_str());
                    url.append("/collaborators/");
                    url.append(info.login());
                    url.append("/permission");
                    GithubStep::Send(
                        GithubRequest::Permission { url, bearer: server_token.to_owned() },
                    )
                },
                Some(HttpReply::TransportFailed) => GithubStep::Refused(
                    AuthError::TransportFailure,
                ),
                Some(HttpReply::Answered { status: _, body: None }) => GithubStep::Refused(
                    AuthError::InvalidCredential,
                ),
                Some(HttpReply::Answered { status: _, body: Some(found) }) => {
                    let name = found.permission();
                    if str_eq(name, "admin") || str_eq(name, "write") || str_eq(name, "read") {
                        GithubStep::Verified(info.duplicate())
                    } else {
                        GithubStep::Refused(AuthError::InvalidCredential)
                    }
                },
            }
        },
    }
}

/// The second stage: whether the token was granted to this application.
fn check_grant(
    info: &GithubInfo,
    token: &str,
    client_id: &str,
    client_secret: &str,
    index_access_policy: IndexAccessPolicy,
    config: &AuthConfig,
    replies: &GithubReplies,
) -> (step: GithubStep)
    ensures
        step@ == spec_after_user(
            info@,
            token@,
            client_id@,
            client_secret@,
            index_access_policy,
            config@.index_url,
            config@.github_token,
            replies@,
        ),
{
    match &replies.grant {
        None => {
            let mut url = "https://api.github.com/applications/".to_owned();
            url.append(client_id);
            url.append("/token");
            GithubStep::Send(
                GithubRequest::Grant {
                    url,
                    client_id: client_id.to_owned(),
                    client_secret: client_secret.to_owned(),
                    access_token: token.to_owned(),
                },
            )
        },
        Some(HttpReply::TransportFailed) => GithubStep::Refused(AuthError::TransportFailure),
        Some(HttpReply::Answered { status, body }) => {
            if *status == 200 {
                if body.is_some() {
                    check_collaborator(info, index_access_policy, config, replies)
                } else {
                    GithubStep::Refused(AuthError::InvalidCredential)
                }
            } else if *status == 422 {
                GithubStep::Refused(AuthError::InvalidCredential)
            } else {
                GithubStep::Refused(AuthError::UpstreamUnexpected(*status))
            }
        },
    }
}

/// Says what follows from the replies received so far in the verification of
/// the token that the `authorization` header carries.
///
/// The caller starts with no reply, sends each request that comes back as
/// [`GithubStep::Send`], records what GitHub answered in `replies` and asks
/// again, until the step is [`GithubStep::Verified`] or
/// [`GithubStep::Refused`].
pub fn verify_github(
    authorization: Option<&str>,
    client_id: &str,
    client_secret: &str,
    index_access_policy: IndexAccessPolicy,
    config: &AuthConfig,
    replies: &GithubReplies,
) -> (step: GithubStep)
    ensures
        step@ == spec_verify_github(
            option_view(authorization),
            client_id@,
            client_secret@,
            index_access_policy,
            config@.index_url,
            config@.github_token,
            replies@,
        ),
{
    let token = match bearer_token(authorization) {
        Some(token) => token,
        None => {
            return GithubStep::Refused(AuthError::MissingCredential);
        },
    };
    match &replies.user {
        None => GithubStep::Send(
            GithubRequest::User {
                url: "https://api.github.com/user".to_owned(),
                bearer: token.to_owned(),
            },
        ),
        Some(HttpReply::TransportFailed) => GithubStep::Refused(AuthError::TransportFailure),
        Some(HttpReply::Answered { status: _, body: None }) => GithubStep::Refused(
            AuthError::InvalidCredential,
        ),
        Some(HttpReply::Answered { status, body: Some(info) }) => {
            if 200 <= *status && *status < 300 {
                check_grant(
                    info,
                    token,
                    client_id,
                    client_secret,
                    index_access_policy,
                    config,
                    replies,
                )
            } else {
                GithubStep::Refused(AuthError::InvalidCredential)
            }
        },
    }
}

/// A request without a bearer token is refused before anything is sent.
pub proof fn lemma_no_token_no_request(
    authorization: Option<Seq<char>>,
    client_id: Seq<char>,
    client_secret: Seq<char>,
    policy: IndexAccessPolicy,
    index_url: Seq<char>,
    github_token: Option<Seq<char>>,
    replies: GithubRepliesView,
)
    requires
        spec_bearer_token(authorization) is None,
    ensures
        spec_verify_github(
            authorization,
            client_id,
            client_secret,
            policy,
            index_url,
            github_token,
            replies,
        ) == GithubStepView::Refused(AuthError::MissingCredential),
{
}

/// A request is sent only while its reply is missing: once the reply is
/// recorded, the same request is not asked for again, so a verification
/// sends three requests at most.
pub proof fn lemma_each_request_is_sent_once(
    authorization: Option<Seq<char>>,
    client_id: Seq<char>,
    client_secret: Seq<char>,
    policy: IndexAccessPolicy,
    index_url: Seq<char>,
    github_token: Option<Seq<char>>,
    replies: GithubRepliesView,
)
    ensures
        ({
            let step = spec_verify_github(
                authorization,
                client_id,
                client_secret,
                policy,
                index_url,
                github_token,
                replies,
            );
            &&& step matches GithubStepView::Send(GithubRequestView::User { .. })
                ==> replies.user is None
            &&& step matches GithubStepView::Send(GithubRequestView::Grant { .. })
                ==> replies.grant is None
            &&& step matches GithubStepView::Send(GithubRequestView::Permission { .. })
                ==> replies.permission is None
        }),
{
}

/// The requests go out in order, each only after the one before it has
/// succeeded: the grant is checked only for a token whose owner GitHub has
/// named, and the collaborators are asked for only under the policy that
/// requires it and for a token that GitHub has confirmed with status 200.
pub proof fn lemma_requests_are_sequenced(
    authorization: Option<Seq<char>>,
    client_id: Seq<char>,
    client_secret: Seq<char>,
    policy: IndexAccessPolicy,
    index_url: Seq<char>,
    github_token: Option<Seq<char>>,
    replies: GithubRepliesView,
)
    ensures
        ({
            let step = spec_verify_github(
                authorization,
                client_id,
                client_secret,
                policy,
                index_url,
                github_token,
                replies,
            );
            let named = replies.user matches Some(HttpReply::Answered { status, body })
                && is_success(status) && body is Some;
            let confirmed = replies.grant matches Some(HttpReply::Answered { status, body })
                && status == 200 && body is Some;
            &&& step matches GithubStepView::Send(GithubRequestView::Grant { .. }) ==> named
            &&& step matches GithubStepView::Send(GithubRequestView::Permission { .. }) ==> named
                && confirmed && policy == IndexAccessPolicy::Required
        }),
{
}

/// Once GitHub has answered the grant check with status 422, the
/// verification is over: the credential is invalid whatever else is known,
/// and the collaborators are never asked for.
pub proof fn lemma_rejected_grant_is_final(
    authorization: Option<Seq<char>>,
    client_id: Seq<char>,
    client_secret: Seq<char>,
    policy: IndexAccessPolicy,
    index_url: Seq<char>,
    github_token: Option<Seq<char>>,
    replies: GithubRepliesView,
)
    requires
        spec_bearer_token(authorization) is Some,
        replies.user matches Some(HttpReply::Answered { status, body }) && is_success(status)
            && body is Some,
        replies.grant matches Some(HttpReply::Answered { status, .. }) && status == 422,
    ensures
        spec_verify_github(
            authorization,
            client_id,
            client_secret,
            policy,
            index_url,
            github_token,
            replies,
        ) == GithubStepView::Refused(AuthError::InvalidCredential),
{
}

/// The account that is let in is the one that GitHub named in its first
/// reply: the later replies only decide whether it is let in.
pub proof fn lemma_verified_identity_is_the_named_one(
    authorization: Option<Seq<char>>,
    client_id: Seq<char>,
    client_secret: Seq<char>,
    policy: IndexAccessPolicy,
    index_url: Seq<char>,
    github_token: Option<Seq<char>>,
    replies: GithubRepliesView,
    identity: GithubIdentity,
)
    requires
        spec_verify_github(
            authorization,
            client_id,
            client_secret,
            policy,
            index_url,
            github_token,
            replies,
        ) == GithubStepView::Verified(identity),
    ensures
        replies.user matches Some(HttpReply::Answered { body, .. }) && body == Some(identity),
        replies.grant matches Some(HttpReply::Answered { status, body }) && status == 200
            && body is Some,
        policy == IndexAccessPolicy::Required ==> (replies.permission matches Some(
            HttpReply::Answered { body, .. },
        ) && body is Some && is_collaborator_permission(body->0)),
{
}

/// A reply that never came ends the verification with a transport failure,
/// at whichever of the three steps was waiting for it.
pub proof fn lemma_transport_failure_is_reported(
    authorization: Option<Seq<char>>,
    client_id: Seq<char>,
    client_secret: Seq<char>,
    policy: IndexAccessPolicy,
    index_url: Seq<char>,
    github_token: Option<Seq<char>>,
    replies: GithubRepliesView,
)
    requires
        spec_bearer_token(authorization) is Some,
    ensures
        ({
            let step = spec_verify_github(
                authorization,
                client_id,
                client_secret,
                policy,
                index_url,
                github_token,
                replies,
            );
            let failed = step == GithubStepView::Refused(AuthError::TransportFailure);
            let named = replies.user matches Some(HttpReply::Answered { status, body })
                && is_success(status) && body is Some;
            let confirmed = replies.grant matches Some(HttpReply::Answered { status, body })
                && status == 200 && body is Some;
            &&& replies.user == Some(HttpReply::<GithubIdentity>::TransportFailed) ==> failed
            &&& named && replies.grant == Some(HttpReply::<()>::TransportFailed) ==> failed
            &&& named && confirmed && policy == IndexAccessPolicy::Required && spec_owner_repo(
                index_url,
            ) is Some && github_token is Some && replies.permission == Some(
                HttpReply::<Seq<char>>::TransportFailed,
            ) ==> failed
        }),
{
}

/// The settings are found wanting only at the third step, and only where
/// the policy requires the collaborator check and the index address or the
/// server's token is missing.
pub proof fn lemma_configuration_error_only_when_unfit(
    authorization: Option<Seq<char>>,
    client_id: Seq<char>,
    client_secret: Seq<char>,
    policy: IndexAccessPolicy,
    index_url: Seq<char>,
    github_token: Option<Seq<char>>,
    replies: GithubRepliesView,
)
    requires
        spec_verify_github(
            authorization,
            client_id,
            client_secret,
            policy,
            index_url,
            github_token,
            replies,
        ) == GithubStepView::Refused(AuthError::ConfigurationError),
    ensures
        policy == IndexAccessPolicy::Required,
        spec_owner_repo(index_url) is None || github_token is None,
{
}

} // verus!
