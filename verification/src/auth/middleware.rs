//! Extraction of a bearer token from an `Authorization` header.

use vstd::prelude::*;

verus! {

/// The `Authorization` header of a request, as far as the token logic needs it.
pub enum AuthorizationHeader {
    /// The request has no `Authorization` header.
    Missing,
    /// The header is present but is not visible ASCII text.
    NotText,
    /// The header's text.
    Text(String),
}

/// Why a request was not authenticated.
pub enum AuthError {
    MissingHeader,
    InvalidHeader,
    NotBearer,
    InvalidToken(String),
}

/// The scheme prefix of a bearer token.
pub open spec fn bearer_prefix() -> Seq<char> {
    "Bearer "@
}

/// The token carried by header text `s`: what follows a leading `"Bearer "`.
pub open spec fn bearer_token(s: Seq<char>) -> Option<Seq<char>> {
    if s.len() >= bearer_prefix().len() && s.take(bearer_prefix().len() as int) == bearer_prefix() {
        Some(s.skip(bearer_prefix().len() as int))
    } else {
        None
    }
}

/// The message that `AuthError::message` gives for each error.
pub open spec fn auth_error_message(e: AuthError) -> Seq<char> {
    match e {
        AuthError::MissingHeader => "Missing Authorization header"@,
        AuthError::InvalidHeader => "Invalid Authorization header"@,
        AuthError::NotBearer => "Authorization header must start with Bearer"@,
        AuthError::InvalidToken(detail) => "Invalid token: "@ + detail@,
    }
}

impl AuthError {
    /// The text of the 401 reply for this error.
    pub fn message(&self) -> (r: String)
        ensures
            r@ == auth_error_message(*self),
    {
        match self {
            AuthError::MissingHeader => String::from_str("Missing Authorization header"),
            AuthError::InvalidHeader => String::from_str("Invalid Authorization header"),
            AuthError::NotBearer => String::from_str("Authorization header must start with Bearer"),
            AuthError::InvalidToken(detail) => {
                let mut m = String::from_str("Invalid token: ");
                m.append(detail.as_str());
                m
            },
        }
    }
}

/// Returns the token after `"Bearer "` in header text `header`, or `None`
/// when the text does not start with that prefix.
pub fn bearer_token_of(header: &str) -> (r: Option<String>)
    ensures
        r is Some <==> bearer_token(header@) is Some,
        r matches Some(t) ==> t@ == bearer_token(header@)->Some_0,
{
    let prefix = "Bearer ";
    proof {
        reveal_strlit("Bearer ");
    }
    let n = header.unicode_len();
    let p = prefix.unicode_len();
    if n < p {
        return None;
    }
    let mut i: usize = 0;
    while i < p
        invariant
            p == bearer_prefix().len(),
            prefix@ == bearer_prefix(),
            n == header@.len(),
            p <= n,
            i <= p,
            forall|j: int| 0 <= j < i ==> header@[j] == prefix@[j],
        decreases p - i,
    {
        if header.get_char(i) != prefix.get_char(i) {
            proof {
                assert(header@.take(p as int)[i as int] != bearer_prefix()[i as int]);
            }
            return None;
        }
        i = i + 1;
    }
    proof {
        assert(header@.take(p as int) =~= bearer_prefix());
    }
    let token = header.substring_char(p, n);
    Some(String::from_str(token))
}

/// The result that `extract_token` gives for a header.
pub open spec fn extracted_token(header: AuthorizationHeader) -> Result<Seq<char>, AuthError> {
    match header {
        AuthorizationHeader::Missing => Err(AuthError::MissingHeader),
        AuthorizationHeader::NotText => Err(AuthError::InvalidHeader),
        AuthorizationHeader::Text(s) => match bearer_token(s@) {
            Some(t) => Ok(t),
            None => Err(AuthError::NotBearer),
        },
    }
}

/// Takes the bearer token out of a request's `Authorization` header.
pub fn extract_token(header: &AuthorizationHeader) -> (r: Result<String, AuthError>)
    ensures
        match (r, extracted_token(*header)) {
            (Ok(t), Ok(s)) => t@ == s,
            (Err(e), Err(f)) => e == f,
            _ => false,
        },
{
    match header {
        AuthorizationHeader::Missing => Err(AuthError::MissingHeader),
        AuthorizationHeader::NotText => Err(AuthError::InvalidHeader),
        AuthorizationHeader::Text(s) => match bearer_token_of(s.as_str()) {
            Some(t) => Ok(t),
            None => Err(AuthError::NotBearer),
        },
    }
}

/// A token sent as `"Bearer " + token` is taken back out unchanged.
pub proof fn lemma_bearer_round_trip(token: Seq<char>)
    ensures
        bearer_token(bearer_prefix() + token) == Some(token),
{
    let s = bearer_prefix() + token;
    assert(s.take(bearer_prefix().len() as int) =~= bearer_prefix());
    assert(s.skip(bearer_prefix().len() as int) =~= token);
}

} // verus!
