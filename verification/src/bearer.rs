//! The credential that a request presents in its `authorization` header.

use vstd::prelude::*;
use vstd::string::StrSliceExecFns;
use crate::text::option_view;
use crate::text::str_eq;

verus! {

/// The scheme word and the single space that a bearer credential starts with.
pub open spec fn bearer_prefix() -> Seq<char> {
    seq!['B', 'e', 'a', 'r', 'e', 'r', ' ']
}

/// The token that an `authorization` header carries: everything after the
/// literal prefix `Bearer `, character for character. There is none where
/// the header is absent or starts otherwise.
pub open spec fn spec_bearer_token(authorization: Option<Seq<char>>) -> Option<Seq<char>> {
    match authorization {
        Some(value) => if bearer_prefix().is_prefix_of(value) {
            Some(value.skip(7))
        } else {
            None
        },
        None => None,
    }
}

/// A header made of the prefix and a token carries exactly that token.
pub proof fn lemma_bearer_token_of_header(token: Seq<char>)
    ensures
        spec_bearer_token(Some(bearer_prefix() + token)) == Some(token),
{
    let value = bearer_prefix() + token;
    assert(value.subrange(0, 7) =~= bearer_prefix());
    assert(value.skip(7) =~= token);
}

/// A header that carries a token is the prefix followed by that token.
pub proof fn lemma_header_of_bearer_token(value: Seq<char>)
    requires
        spec_bearer_token(Some(value)) is Some,
    ensures
        value == bearer_prefix() + spec_bearer_token(Some(value))->0,
{
    assert(value =~= value.subrange(0, 7) + value.skip(7));
}

/// Extracts the bearer token from the value of the `authorization` header.
pub fn bearer_token<'a>(authorization: Option<&'a str>) -> (token: Option<&'a str>)
    ensures
        option_view(token) == spec_bearer_token(option_view(authorization)),
{
    match authorization {
        None => None,
        Some(value) => {
            let n: usize = value.unicode_len();
            if n < 7 {
                return None;
            }
            let head = value.substring_char(0, 7);
            proof {
                reveal_strlit("Bearer ");
                assert("Bearer "@ =~= bearer_prefix());
            }
            if str_eq(head, "Bearer ") {
                Some(value.substring_char(7, n))
            } else {
                None
            }
        },
    }
}

} // verus!
