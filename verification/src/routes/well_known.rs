//! The JSON Web Key that publishes the server's RSA public key.

use vstd::prelude::*;
use base64::Engine;

verus! {

/// The symbol of the URL-safe Base64 alphabet (RFC 4648, table 2) for the
/// six-bit value `v`.
pub open spec fn url_safe_symbol(v: int) -> char {
    if v < 26 {
        (('A' as int) + v) as char
    } else if v < 52 {
        (('a' as int) + (v - 26)) as char
    } else if v < 62 {
        (('0' as int) + (v - 52)) as char
    } else if v == 62 {
        '-'
    } else {
        '_'
    }
}

/// The unpadded URL-safe Base64 encoding of `b` (RFC 4648, section 5): each
/// group of three bytes gives four symbols, six bits each, most significant
/// first; a last group of one or two bytes gives two or three symbols, its
/// bits followed by zeros; no `=` is appended.
pub open spec fn base64_url_no_pad(b: Seq<u8>) -> Seq<char>
    decreases b.len(),
{
    let b0 = b[0] as int;
    let b1 = b[1] as int;
    let b2 = b[2] as int;
    if b.len() == 0 {
        Seq::empty()
    } else if b.len() == 1 {
        seq![url_safe_symbol(b0 / 4), url_safe_symbol((b0 % 4) * 16)]
    } else if b.len() == 2 {
        seq![url_safe_symbol(b0 / 4), url_safe_symbol((b0 % 4) * 16 + b1 / 16), url_safe_symbol((b1 % 16) * 4)]
    } else {
        seq![
            url_safe_symbol(b0 / 4),
            url_safe_symbol((b0 % 4) * 16 + b1 / 16),
            url_safe_symbol((b1 % 16) * 4 + b2 / 64),
            url_safe_symbol(b2 % 64),
        ] + base64_url_no_pad(b.subrange(3, b.len() as int))
    }
}

/// Calls `Engine::encode` of `base64::engine::general_purpose::URL_SAFE_NO_PAD`
/// (the URL-safe alphabet, no padding). Trusted: the result is the encoding
/// of the bytes that `base64_url_no_pad` states.
#[verifier::external_body]
fn encode_base64_url_no_pad(bytes: &[u8]) -> (r: String)
    ensures
        r@ == base64_url_no_pad(bytes@),
{
    base64::engine::general_purpose::URL_SAFE_NO_PAD.encode(bytes)
}

/// One RSA signing key in JWK form.
pub struct Jwk {
    pub kty: String,
    pub use_: String,
    pub alg: String,
    pub n: String,
    pub e: String,
    pub kid: String,
}

/// A JWK set.
pub struct JwkSet {
    pub keys: Vec<Jwk>,
}

/// `k` describes the RS256 signing key with big-endian modulus `n` and
/// exponent `e`.
pub open spec fn is_signing_jwk(k: Jwk, n: Seq<u8>, e: Seq<u8>) -> bool {
    &&& k.kty@ == "RSA"@
    &&& k.use_@ == "sig"@
    &&& k.alg@ == "RS256"@
    &&& k.n@ == base64_url_no_pad(n)
    &&& k.e@ == base64_url_no_pad(e)
    &&& k.kid@ == "sqlite-editor-key-1"@
}

/// The JWK of the RSA public key whose modulus and exponent are `n` and `e`
/// (big-endian bytes).
pub fn rsa_signing_jwk(n: &[u8], e: &[u8]) -> (k: Jwk)
    ensures
        is_signing_jwk(k, n@, e@),
{
    Jwk {
        kty: String::from_str("RSA"),
        use_: String::from_str("sig"),
        alg: String::from_str("RS256"),
        n: encode_base64_url_no_pad(n),
        e: encode_base64_url_no_pad(e),
        kid: String::from_str("sqlite-editor-key-1"),
    }
}

/// The JWK set that `/.well-known/jwks.json` serves: the one signing key.
pub fn jwks(n: &[u8], e: &[u8]) -> (s: JwkSet)
    ensures
        s.keys@.len() == 1,
        is_signing_jwk(s.keys@[0], n@, e@),
{
    let mut keys: Vec<Jwk> = Vec::new();
    keys.push(rsa_signing_jwk(n, e));
    JwkSet { keys }
}

} // verus!
