use wally_registry_auth::config::{AuthConfig, AuthMode};
use wally_registry_auth::error::AuthError;

fn with(
    auth: AuthMode,
    index_url: &str,
    github_token: Option<&str>,
) -> Result<AuthConfig, AuthError> {
    AuthConfig::new(auth, index_url.to_string(), github_token.map(|token| token.to_string()))
}

fn private() -> AuthMode {
    AuthMode::GithubOAuthPrivate { client_id: "id".to_string(), client_secret: "shh".to_string() }
}

fn open_modes() -> Vec<AuthMode> {
    vec![
        AuthMode::ApiKey("k".to_string()),
        AuthMode::DoubleApiKey { read: None, write: "w".to_string() },
        AuthMode::DoubleApiKey { read: Some("r".to_string()), write: "w".to_string() },
        AuthMode::GithubOAuth { client_id: "id".to_string(), client_secret: "shh".to_string() },
        AuthMode::Unauthenticated,
    ]
}

#[test]
fn a_mode_is_named_without_its_secrets() {
    assert_eq!(AuthMode::ApiKey("s3cret".to_string()).label(), "API key");
    assert_eq!(
        AuthMode::DoubleApiKey { read: None, write: "s3cret".to_string() }.label(),
        "double API key"
    );
    assert_eq!(
        AuthMode::DoubleApiKey { read: Some("r".to_string()), write: "w".to_string() }.label(),
        "double API key"
    );
    assert_eq!(
        AuthMode::GithubOAuth { client_id: "id".to_string(), client_secret: "shh".to_string() }
            .label(),
        "Github OAuth"
    );
    assert_eq!(private().label(), "Github OAuth (private)");
    assert_eq!(AuthMode::Unauthenticated.label(), "no authentication");
}

#[test]
fn settings_keep_what_they_were_made_of() {
    let config = with(private(), "https://github.com/org/repo", Some("t")).ok().unwrap();
    assert_eq!(config.auth().label(), "Github OAuth (private)");
    assert_eq!(config.index_url(), "https://github.com/org/repo");
    assert_eq!(config.github_token(), Some("t"));
    let config = with(AuthMode::ApiKey("k".to_string()), "", None).ok().unwrap();
    assert!(matches!(config.auth(), AuthMode::ApiKey(key) if key == "k"));
    assert_eq!(config.index_url(), "");
    assert_eq!(config.github_token(), None);
}

#[test]
fn a_private_deployment_needs_an_index_address_and_a_server_token() {
    assert!(with(private(), "https://github.com/org/repo", Some("t")).is_ok());
    assert!(with(private(), "github.com/org/repo.git/", Some("")).is_ok());
    let unfit = Some(AuthError::ConfigurationError);
    assert_eq!(with(private(), "https://github.com/org/repo", None).err(), unfit);
    assert_eq!(with(private(), "https://gitlab.com/org/repo", Some("t")).err(), unfit);
    assert_eq!(with(private(), "https://github.com/org", Some("t")).err(), unfit);
    assert_eq!(with(private(), "", None).err(), unfit);
}

#[test]
fn the_other_modes_need_neither() {
    for mode in open_modes() {
        assert!(with(mode, "nowhere", None).is_ok());
    }
}

#[test]
fn every_error_has_its_status() {
    assert_eq!(AuthError::MissingCredential.http_status(), 401);
    assert_eq!(AuthError::InvalidCredential.http_status(), 401);
    assert_eq!(AuthError::UpstreamUnexpected(503).http_status(), 422);
    assert_eq!(AuthError::UpstreamUnexpected(0).http_status(), 422);
    assert_eq!(AuthError::TransportFailure.http_status(), 500);
    assert_eq!(AuthError::ConfigurationError.http_status(), 500);
}

#[test]
fn every_error_says_what_went_wrong() {
    assert_eq!(AuthError::MissingCredential.message(), "a bearer token is required");
    assert_eq!(AuthError::InvalidCredential.message(), "the credential is not valid");
    assert_eq!(AuthError::UpstreamUnexpected(503).message(), "GitHub gave an unexpected answer");
    assert_eq!(AuthError::TransportFailure.message(), "GitHub could not be reached");
    assert_eq!(AuthError::ConfigurationError.message(), "the registry is not set up for this");
}
