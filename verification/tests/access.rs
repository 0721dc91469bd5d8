use wally_registry_auth::access::{AccessStep, ReadAccess, WriteAccess};
use wally_registry_auth::config::{AuthConfig, AuthMode};
use wally_registry_auth::error::AuthError;
use wally_registry_auth::github::{
    GithubInfo, GithubPermissionInfo, GithubReplies, GithubRequest, HttpReply,
};

fn with(auth: AuthMode) -> AuthConfig {
    let index_url = "https://github.com/UpliftGames/wally-index".to_string();
    AuthConfig::new(auth, index_url, Some("server-token".to_string())).unwrap()
}

fn api_key(key: &str) -> AuthConfig {
    with(AuthMode::ApiKey(key.to_string()))
}

fn double(read: Option<&str>, write: &str) -> AuthConfig {
    with(AuthMode::DoubleApiKey {
        read: read.map(|key| key.to_string()),
        write: write.to_string(),
    })
}

fn oauth() -> AuthConfig {
    with(AuthMode::GithubOAuth { client_id: "Iv1.abc".to_string(), client_secret: "shh".to_string() })
}

fn oauth_private() -> AuthConfig {
    with(AuthMode::GithubOAuthPrivate {
        client_id: "Iv1.abc".to_string(),
        client_secret: "shh".to_string(),
    })
}

fn read(config: &AuthConfig, header: Option<&str>) -> AccessStep<ReadAccess> {
    ReadAccess::from_request(config, header, &GithubReplies::new())
}

fn write(config: &AuthConfig, header: Option<&str>) -> AccessStep<WriteAccess> {
    WriteAccess::from_request(config, header, &GithubReplies::new())
}

fn alice() -> GithubInfo {
    GithubInfo::new("alice".to_string(), 42)
}

fn all_good(permission: &str) -> GithubReplies {
    GithubReplies {
        user: Some(HttpReply::Answered { status: 200, body: Some(alice()) }),
        grant: Some(HttpReply::Answered { status: 200, body: Some(()) }),
        permission: Some(HttpReply::Answered {
            status: 200,
            body: Some(GithubPermissionInfo::new(permission.to_string())),
        }),
    }
}

#[test]
fn construct_wraps_the_account() {
    assert_eq!(ReadAccess::construct(alice()), ReadAccess::Github(alice()));
    assert_eq!(WriteAccess::construct(alice()), WriteAccess::Github(alice()));
}

#[test]
fn an_api_key_opens_reading_and_writing_to_its_holder() {
    let config = api_key("s3cret");
    assert!(read(&config, Some("Bearer s3cret")) == AccessStep::Granted(ReadAccess::ApiKey));
    assert!(write(&config, Some("Bearer s3cret")) == AccessStep::Granted(WriteAccess::ApiKey));
}

#[test]
fn an_api_key_shuts_out_every_other_token() {
    let config = api_key("s3cret");
    for header in ["Bearer ", "Bearer s3cre", "Bearer S3cret", "Bearer s3cret ", "Bearer other"] {
        assert!(read(&config, Some(header)) == AccessStep::Refused(AuthError::InvalidCredential));
        assert!(write(&config, Some(header)) == AccessStep::Refused(AuthError::InvalidCredential));
    }
}

#[test]
fn an_api_key_shuts_out_a_request_without_header() {
    let config = api_key("s3cret");
    assert!(read(&config, None) == AccessStep::Refused(AuthError::MissingCredential));
    assert!(write(&config, None) == AccessStep::Refused(AuthError::MissingCredential));
    assert!(read(&config, Some("s3cret")) == AccessStep::Refused(AuthError::MissingCredential));
    assert!(write(&config, Some("s3cret")) == AccessStep::Refused(AuthError::MissingCredential));
}

#[test]
fn without_a_key_for_reading_everyone_reads() {
    let config = double(None, "w");
    for header in [None, Some(""), Some("Bearer w"), Some("Bearer x"), Some("nonsense")] {
        assert!(read(&config, header) == AccessStep::Granted(ReadAccess::Public));
    }
}

#[test]
fn writing_takes_exactly_the_key_for_writing() {
    for config in [double(None, "w"), double(Some("r"), "w")] {
        assert!(write(&config, Some("Bearer w")) == AccessStep::Granted(WriteAccess::ApiKey));
        assert!(write(&config, Some("Bearer r")) == AccessStep::Refused(AuthError::InvalidCredential));
        assert!(write(&config, Some("Bearer W")) == AccessStep::Refused(AuthError::InvalidCredential));
        assert!(write(&config, Some("Bearer w ")) == AccessStep::Refused(AuthError::InvalidCredential));
        assert!(write(&config, Some("Bearer ")) == AccessStep::Refused(AuthError::InvalidCredential));
        assert!(write(&config, Some("w")) == AccessStep::Refused(AuthError::MissingCredential));
        assert!(write(&config, None) == AccessStep::Refused(AuthError::MissingCredential));
    }
}

#[test]
fn a_key_for_reading_opens_reading_only() {
    let config = double(Some("r"), "w");
    assert!(read(&config, Some("Bearer r")) == AccessStep::Granted(ReadAccess::ApiKey));
    assert!(read(&config, Some("Bearer w")) == AccessStep::Refused(AuthError::InvalidCredential));
    assert!(read(&config, None) == AccessStep::Refused(AuthError::MissingCredential));
}

#[test]
fn without_authentication_everyone_reads_and_nobody_writes() {
    let config = with(AuthMode::Unauthenticated);
    for header in [None, Some("Bearer anything"), Some("")] {
        assert!(read(&config, header) == AccessStep::Granted(ReadAccess::Public));
        assert!(write(&config, header) == AccessStep::Refused(AuthError::MissingCredential));
    }
}

#[test]
fn oauth_leaves_reading_open() {
    let config = oauth();
    for header in [None, Some("Bearer gho_user"), Some("")] {
        assert!(read(&config, header) == AccessStep::Granted(ReadAccess::Public));
    }
}

#[test]
fn oauth_verifies_writers_without_asking_for_collaborators() {
    let config = oauth();
    assert!(write(&config, None) == AccessStep::Refused(AuthError::MissingCredential));
    assert!(
        write(&config, Some("Bearer gho_user"))
            == AccessStep::Send(GithubRequest::User {
                url: "https://api.github.com/user".to_string(),
                bearer: "gho_user".to_string(),
            })
    );
    let mut replies = all_good("none");
    replies.permission = None;
    assert!(
        WriteAccess::from_request(&config, Some("Bearer gho_user"), &replies)
            == AccessStep::Granted(WriteAccess::Github(alice()))
    );
}

#[test]
fn private_oauth_verifies_readers_and_writers_as_collaborators() {
    let config = oauth_private();
    assert!(read(&config, None) == AccessStep::Refused(AuthError::MissingCredential));
    assert!(write(&config, None) == AccessStep::Refused(AuthError::MissingCredential));
    let header = Some("Bearer gho_user");
    assert!(matches!(read(&config, header), AccessStep::Send(GithubRequest::User { .. })));
    assert!(matches!(write(&config, header), AccessStep::Send(GithubRequest::User { .. })));
    let mut replies = all_good("read");
    assert!(
        ReadAccess::from_request(&config, header, &replies)
            == AccessStep::Granted(ReadAccess::Github(alice()))
    );
    assert!(
        WriteAccess::from_request(&config, header, &replies)
            == AccessStep::Granted(WriteAccess::Github(alice()))
    );
    replies.permission = None;
    let asked = "https://api.github.com/repos/UpliftGames/wally-index/collaborators/alice/permission";
    let expected = GithubRequest::Permission {
        url: asked.to_string(),
        bearer: "server-token".to_string(),
    };
    assert!(ReadAccess::from_request(&config, header, &replies) == AccessStep::Send(expected));
    let replies = all_good("none");
    assert!(
        ReadAccess::from_request(&config, header, &replies)
            == AccessStep::Refused(AuthError::InvalidCredential)
    );
    assert!(
        WriteAccess::from_request(&config, header, &replies)
            == AccessStep::Refused(AuthError::InvalidCredential)
    );
}

#[test]
fn private_oauth_reads_through_the_whole_exchange() {
    let config = oauth_private();
    let mut replies = GithubReplies::new();
    let mut sent = Vec::new();
    let access = loop {
        match ReadAccess::from_request(&config, Some("Bearer gho_user"), &replies) {
            AccessStep::Send(GithubRequest::User { url, .. }) => {
                sent.push(url);
                replies.user = Some(HttpReply::Answered { status: 200, body: Some(alice()) });
            }
            AccessStep::Send(GithubRequest::Grant { url, .. }) => {
                sent.push(url);
                replies.grant = Some(HttpReply::Answered { status: 200, body: Some(()) });
            }
            AccessStep::Send(GithubRequest::Permission { url, .. }) => {
                sent.push(url);
                replies.permission = Some(HttpReply::Answered {
                    status: 200,
                    body: Some(GithubPermissionInfo::new("read".to_string())),
                });
            }
            AccessStep::Granted(access) => break access,
            AccessStep::Refused(error) => panic!("refused: {:?}", error),
        }
        assert!(sent.len() <= 3);
    };
    assert_eq!(
        sent,
        vec![
            "https://api.github.com/user",
            "https://api.github.com/applications/Iv1.abc/token",
            "https://api.github.com/repos/UpliftGames/wally-index/collaborators/alice/permission",
        ]
    );
    match access {
        ReadAccess::Github(info) => {
            assert_eq!(info.login(), "alice");
            assert_eq!(*info.id(), 42);
        }
        other => panic!("{:?}", other),
    }
}

#[test]
fn key_modes_never_look_at_the_replies() {
    let replies = all_good("admin");
    let config = api_key("k");
    assert!(
        ReadAccess::from_request(&config, Some("Bearer x"), &replies)
            == AccessStep::Refused(AuthError::InvalidCredential)
    );
    assert!(
        WriteAccess::from_request(&config, Some("Bearer k"), &replies)
            == AccessStep::Granted(WriteAccess::ApiKey)
    );
    let config = with(AuthMode::Unauthenticated);
    assert!(
        WriteAccess::from_request(&config, Some("Bearer k"), &replies)
            == AccessStep::Refused(AuthError::MissingCredential)
    );
}
