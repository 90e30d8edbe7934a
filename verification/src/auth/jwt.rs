//! The claims carried by the RS256 tokens this service issues.

use vstd::prelude::*;

verus! {

/// The registered claims of a token: subject, expiry, issue time, issuer.
#[derive(Debug, Clone)]
pub struct Claims {
    pub sub: String,
    pub exp: usize,
    pub iat: usize,
    pub iss: String,
}

/// The expiry that a token issued at `now` with lifetime `ttl_seconds` carries,
/// computed in the signed arithmetic that `new_claims` uses.
pub open spec fn expiry(now: usize, ttl_seconds: i64) -> usize {
    ((now as i64) + ttl_seconds) as usize
}

/// The claims of a token for `subject`, issued by `issuer` at `now` (seconds
/// since the epoch), that expires `ttl_seconds` later.
pub fn new_claims(subject: &str, issuer: &str, ttl_seconds: i64, now: usize) -> (c: Claims)
    requires
        i64::MIN <= (now as i64) + ttl_seconds <= i64::MAX,
    ensures
        c.sub@ == subject@,
        c.iss@ == issuer@,
        c.iat == now,
        c.exp == expiry(now, ttl_seconds),
{
    let start = now as i64;
    let end = start + ttl_seconds;
    Claims { sub: String::from_str(subject), exp: end as usize, iat: now, iss: String::from_str(issuer) }
}

/// A token's claims expire exactly `ttl_seconds` after they were issued,
/// whenever the issue time and the expiry are both representable.
pub proof fn lemma_expiry_is_issue_time_plus_ttl(now: usize, ttl_seconds: i64)
    requires
        now <= i64::MAX,
        0 <= now + ttl_seconds <= usize::MAX,
    ensures
        expiry(now, ttl_seconds) == now + ttl_seconds,
{
}

} // verus!
