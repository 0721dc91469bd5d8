//! Verification of a bearer token against a configured key.

use vstd::prelude::*;
use vstd::string::StringSliceAdditionalSpecFns;
use crate::bearer::bearer_prefix;
use crate::bearer::bearer_token;
use crate::bearer::lemma_bearer_token_of_header;
use crate::bearer::lemma_header_of_bearer_token;
use crate::bearer::spec_bearer_token;
use crate::error::AuthError;
use crate::text::lemma_utf8_injective;
use crate::text::option_view;

verus! {

/// `constant_time_eq::constant_time_eq` says whether two byte strings are
/// equal: of the same length, with the same byte at every index. Believed,
/// not proved. (That it takes the same time wherever two strings of one
/// length first differ is what the function is for; nothing here states it.)
pub assume_specification[ constant_time_eq::constant_time_eq ](a: &[u8], b: &[u8]) -> (same: bool)
    ensures
        same == (a@ == b@),
;

/// What a request that presents `authorization` gets where `key` is the key
/// to present: `result` for exactly that key, a refusal otherwise.
pub open spec fn spec_match_api_key<T>(
    authorization: Option<Seq<char>>,
    key: Seq<char>,
    result: T,
) -> Result<T, AuthError> {
    match spec_bearer_token(authorization) {
        None => Err(AuthError::MissingCredential),
        Some(token) => if token == key {
            Ok(result)
        } else {
            Err(AuthError::InvalidCredential)
        },
    }
}

/// Grants `result` to a request whose `authorization` header carries `key`
/// as its bearer token. The comparison takes the same time wherever a wrong
/// token of the right length first differs from the key.
pub fn match_api_key<T>(authorization: Option<&str>, key: &str, result: T) -> (outcome: Result<
    T,
    AuthError,
>)
    ensures
        outcome == spec_match_api_key(option_view(authorization), key@, result),
{
    let token = match bearer_token(authorization) {
        Some(token) => token,
        None => {
            return Err(AuthError::MissingCredential);
        },
    };
    if constant_time_eq::constant_time_eq(key.as_bytes(), token.as_bytes()) {
        proof {
            lemma_utf8_injective(key@, token@);
        }
        Ok(result)
    } else {
        Err(AuthError::InvalidCredential)
    }
}

/// A request that presents the key itself is granted.
pub proof fn lemma_right_key_is_granted<T>(key: Seq<char>, result: T)
    ensures
        spec_match_api_key(Some(bearer_prefix() + key), key, result) == Ok::<T, AuthError>(result),
{
    lemma_bearer_token_of_header(key);
}

/// A request that presents anything but the key is refused: another token,
/// be it empty, a part of the key or the key in another case, is an invalid
/// credential.
pub proof fn lemma_wrong_key_is_refused<T>(key: Seq<char>, presented: Seq<char>, result: T)
    requires
        presented != key,
    ensures
        spec_match_api_key(Some(bearer_prefix() + presented), key, result) == Err::<T, AuthError>(
            AuthError::InvalidCredential,
        ),
{
    lemma_bearer_token_of_header(presented);
}

/// A request without the header is refused for want of a credential.
pub proof fn lemma_missing_header_is_refused<T>(key: Seq<char>, result: T)
    ensures
        spec_match_api_key(None, key, result) == Err::<T, AuthError>(AuthError::MissingCredential),
{
}

/// Only the header made of `Bearer `, one space included, and the key is
/// granted.
pub proof fn lemma_granted_only_with_key<T>(authorization: Option<Seq<char>>, key: Seq<char>, result: T)
    ensures
        spec_match_api_key(authorization, key, result) is Ok <==> authorization == Some(
            bearer_prefix() + key,
        ),
{
    if authorization is Some {
        if spec_bearer_token(authorization) is Some {
            lemma_header_of_bearer_token(authorization->0);
        }
        lemma_bearer_token_of_header(key);
    }
}

} // verus!
