use wally_registry_auth::api_key::match_api_key;
use wally_registry_auth::bearer::bearer_token;
use wally_registry_auth::error::AuthError;
use wally_registry_auth::text::{chars_of, matches_at, str_eq};

#[test]
fn bearer_token_is_what_follows_the_prefix() {
    assert_eq!(bearer_token(Some("Bearer abc")), Some("abc"));
    assert_eq!(bearer_token(Some("Bearer ")), Some(""));
    assert_eq!(bearer_token(Some("Bearer a b c")), Some("a b c"));
    assert_eq!(bearer_token(Some("Bearer Bearer x")), Some("Bearer x"));
}

#[test]
fn bearer_token_keeps_every_character() {
    assert_eq!(bearer_token(Some("Bearer  abc ")), Some(" abc "));
    assert_eq!(bearer_token(Some("Bearer \u{e9}\u{1f600}")), Some("\u{e9}\u{1f600}"));
}

#[test]
fn bearer_token_needs_the_literal_prefix() {
    assert_eq!(bearer_token(None), None);
    assert_eq!(bearer_token(Some("")), None);
    assert_eq!(bearer_token(Some("Bearer")), None);
    assert_eq!(bearer_token(Some("bearer abc")), None);
    assert_eq!(bearer_token(Some("BEARER abc")), None);
    assert_eq!(bearer_token(Some("Bearer\tabc")), None);
    assert_eq!(bearer_token(Some(" Bearer abc")), None);
    assert_eq!(bearer_token(Some("Basic abc")), None);
    assert_eq!(bearer_token(Some("Token abc")), None);
    assert_eq!(bearer_token(Some("\u{e9}\u{e9}\u{e9}\u{e9}\u{e9}\u{e9}\u{e9}\u{e9}")), None);
}

#[test]
fn the_key_itself_is_granted() {
    assert_eq!(match_api_key(Some("Bearer s3cret"), "s3cret", 7u8), Ok(7u8));
    assert_eq!(match_api_key(Some("Bearer "), "", "in"), Ok("in"));
    assert_eq!(match_api_key(Some("Bearer  padded "), " padded ", ()), Ok(()));
    assert_eq!(match_api_key(Some("Bearer cl\u{e9}"), "cl\u{e9}", ()), Ok(()));
}

#[test]
fn any_other_token_is_an_invalid_credential() {
    let invalid = Err(AuthError::InvalidCredential);
    assert_eq!(match_api_key(Some("Bearer "), "s3cret", ()), invalid);
    assert_eq!(match_api_key(Some("Bearer s3cre"), "s3cret", ()), invalid);
    assert_eq!(match_api_key(Some("Bearer s3crett"), "s3cret", ()), invalid);
    assert_eq!(match_api_key(Some("Bearer S3CRET"), "s3cret", ()), invalid);
    assert_eq!(match_api_key(Some("Bearer s3creT"), "s3cret", ()), invalid);
    assert_eq!(match_api_key(Some("Bearer x3cret"), "s3cret", ()), invalid);
    assert_eq!(match_api_key(Some("Bearer s3cret "), "s3cret", ()), invalid);
    assert_eq!(match_api_key(Some("Bearer  s3cret"), "s3cret", ()), invalid);
    assert_eq!(match_api_key(Some("Bearer s3cret"), "", ()), invalid);
}

#[test]
fn a_request_without_bearer_token_lacks_a_credential() {
    let missing = Err(AuthError::MissingCredential);
    assert_eq!(match_api_key(None, "s3cret", ()), missing);
    assert_eq!(match_api_key(Some(""), "s3cret", ()), missing);
    assert_eq!(match_api_key(Some("s3cret"), "s3cret", ()), missing);
    assert_eq!(match_api_key(Some("Bearers3cret"), "s3cret", ()), missing);
    assert_eq!(match_api_key(Some("Basic s3cret"), "s3cret", ()), missing);
    assert_eq!(match_api_key(None, "", ()), missing);
}

#[test]
fn a_wrong_first_byte_and_a_wrong_last_byte_are_refused_alike() {
    let key = "0123456789abcdef0123456789abcdef";
    let first = "Bearer X123456789abcdef0123456789abcdef";
    let last = "Bearer 0123456789abcdef0123456789abcdeX";
    assert_eq!(match_api_key(Some(first), key, ()), Err(AuthError::InvalidCredential));
    assert_eq!(match_api_key(Some(last), key, ()), Err(AuthError::InvalidCredential));
}

#[test]
fn strings_are_equal_when_their_characters_are() {
    assert!(str_eq("", ""));
    assert!(str_eq("read", "read"));
    assert!(str_eq("\u{e9}t\u{e9}", "\u{e9}t\u{e9}"));
    assert!(!str_eq("read", "Read"));
    assert!(!str_eq("read", "rea"));
    assert!(!str_eq("rea", "read"));
    assert!(!str_eq("", "x"));
    assert!(!str_eq("\u{e9}", "e"));
}

#[test]
fn characters_come_out_in_order() {
    assert_eq!(chars_of(""), Vec::<char>::new());
    assert_eq!(chars_of("a\u{e9}\u{1f600}z"), vec!['a', '\u{e9}', '\u{1f600}', 'z']);
}

#[test]
fn a_pattern_is_found_where_it_stands() {
    let text = chars_of("https://github.com");
    let pattern = chars_of("github");
    assert!(matches_at(&text, 8, &pattern));
    assert!(!matches_at(&text, 7, &pattern));
    assert!(!matches_at(&text, 9, &pattern));
    assert!(!matches_at(&text, 14, &pattern));
    assert!(!matches_at(&text, 18, &pattern));
    assert!(!matches_at(&text, usize::MAX, &pattern));
    assert!(matches_at(&text, 18, &Vec::new()));
    assert!(!matches_at(&text, 19, &Vec::new()));
    assert!(matches_at(&text, 0, &text));
}
