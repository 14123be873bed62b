//! Bearer tokens: finding the token in a request's `Authorization` header
//! and the answers given when it is missing or invalid.

use vstd::prelude::*;

verus! {

/// The scheme that precedes a token in the `Authorization` header.
pub open spec fn bearer_prefix() -> Seq<char> {
    seq!['B', 'e', 'a', 'r', 'e', 'r', ' ']
}

/// The token in a header value: what follows `Bearer `, if the value starts
/// with it.
pub open spec fn spec_strip_bearer(value: Seq<char>) -> Option<Seq<char>> {
    if value.len() >= 7 && value.subrange(0, 7) == bearer_prefix() {
        Some(value.subrange(7, value.len() as int))
    } else {
        None
    }
}

/// The token in a header value: what follows `Bearer `, if the value starts
/// with it.
pub fn strip_bearer(value: &str) -> (r: Option<String>)
    ensures
        r is Some <==> spec_strip_bearer(value@) is Some,
        r matches Some(t) ==> spec_strip_bearer(value@) == Some(t@),
{
    proof {
        reveal_strlit("Bearer ");
    }
    let prefix = "Bearer ";
    assert(prefix@ =~= bearer_prefix());
    let n = value.unicode_len();
    if n < 7 {
        return None;
    }
    let mut i: usize = 0;
    while i < 7
        invariant
            0 <= i <= 7,
            n == value@.len(),
            n >= 7,
            prefix@ == bearer_prefix(),
            forall|j: int| 0 <= j < i ==> value@[j] == bearer_prefix()[j],
        decreases 7 - i,
    {
        if value.get_char(i) != prefix.get_char(i) {
            assert(value@.subrange(0, 7)[i as int] != bearer_prefix()[i as int]);
            return None;
        }
        i = i + 1;
    }
    assert(value@.subrange(0, 7) =~= bearer_prefix());
    let rest = value.substring_char(7, n);
    Some(rest.to_string())
}

/// The token of a request, given its `Authorization` header if it has a
/// textual one.
pub fn extract_token(authorization: Option<&str>) -> (r: Option<String>)
    ensures
        authorization is None ==> r is None,
        authorization matches Some(v) ==> (r is Some <==> spec_strip_bearer(v@) is Some) && (
        r matches Some(t) ==> spec_strip_bearer(v@) == Some(t@)),
{
    match authorization {
        Some(v) => strip_bearer(v),
        None => None,
    }
}

/// Why a request is refused as unauthorized.
#[derive(Clone, Copy, Debug, PartialEq, Eq, Structural)]
pub enum AuthRejection {
    /// The request carries no bearer token.
    NoToken,
    /// The token does not decode or validate.
    InvalidToken,
}

impl AuthRejection {
    /// The text the refusal is answered with.
    pub fn message(&self) -> (r: &'static str)
        ensures
            *self == AuthRejection::NoToken ==> r@ == seq![
                'N',
                'o',
                ' ',
                't',
                'o',
                'k',
                'e',
                'n',
                ' ',
                'f',
                'o',
                'u',
                'n',
                'd',
            ],
            *self == AuthRejection::InvalidToken ==> r@ == seq![
                'I',
                'n',
                'v',
                'a',
                'l',
                'i',
                'd',
                ' ',
                't',
                'o',
                'k',
                'e',
                'n',
            ],
    {
        proof {
            reveal_strlit("No token found");
            reveal_strlit("Invalid token");
        }
        match self {
            AuthRejection::NoToken => {
                let s = "No token found";
                assert(s@ =~= seq!['N', 'o', ' ', 't', 'o', 'k', 'e', 'n', ' ', 'f', 'o', 'u', 'n', 'd']);
                s
            },
            AuthRejection::InvalidToken => {
                let s = "Invalid token";
                assert(s@ =~= seq!['I', 'n', 'v', 'a', 'l', 'i', 'd', ' ', 't', 'o', 'k', 'e', 'n']);
                s
            },
        }
    }
}

/// Whether a request may pass: it needs a token, and the token must have
/// decoded (`decoded`, which is only looked at when there is a token).
pub fn authorize(token: &Option<String>, decoded: bool) -> (r: Result<(), AuthRejection>)
    ensures
        token is None ==> r == Err::<(), AuthRejection>(AuthRejection::NoToken),
        token is Some && !decoded ==> r == Err::<(), AuthRejection>(AuthRejection::InvalidToken),
        token is Some && decoded ==> r is Ok,
{
    match token {
        None => Err(AuthRejection::NoToken),
        Some(_) => if decoded {
            Ok(())
        } else {
            Err(AuthRejection::InvalidToken)
        },
    }
}

/// A header made of `Bearer ` and a token gives that token back.
pub proof fn law_bearer_token_roundtrip(token: Seq<char>)
    ensures
        spec_strip_bearer(bearer_prefix() + token) == Some(token),
{
    let v = bearer_prefix() + token;
    assert(v.subrange(0, 7) =~= bearer_prefix());
    assert(v.subrange(7, v.len() as int) =~= token);
}

} // verus!
