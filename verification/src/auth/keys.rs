//! The server's RSA key pair: parsing it from the PKCS#1 PEM texts of its
//! key files, and deciding whether to load it or to generate a new one.

use vstd::prelude::*;
use rsa::pkcs1::{DecodeRsaPrivateKey, DecodeRsaPublicKey};

verus! {

#[verifier::external_type_specification]
#[verifier::external_body]
pub struct ExRsaPrivateKey(rsa::RsaPrivateKey);

#[verifier::external_type_specification]
#[verifier::external_body]
pub struct ExRsaPublicKey(rsa::RsaPublicKey);

#[verifier::external_type_specification]
#[verifier::external_body]
pub struct ExPkcs1Error(rsa::pkcs1::Error);

/// Whether `rsa` accepts `pem` as a PEM-encoded PKCS#1 RSA private key.
pub uninterp spec fn pkcs1_private_pem_ok(pem: Seq<char>) -> bool;

/// Whether `rsa` accepts `pem` as a PEM-encoded PKCS#1 RSA public key.
pub uninterp spec fn pkcs1_public_pem_ok(pem: Seq<char>) -> bool;

/// Calls `RsaPrivateKey::from_pkcs1_pem`. Trusted: whether it succeeds is
/// `pkcs1_private_pem_ok` of the text (the parse depends on the text alone);
/// the PEM, DER and key checks are not written out here.
#[verifier::external_body]
fn private_key_from_pem(pem: &str) -> (r: Result<rsa::RsaPrivateKey, rsa::pkcs1::Error>)
    ensures
        r is Ok <==> pkcs1_private_pem_ok(pem@),
{
    rsa::RsaPrivateKey::from_pkcs1_pem(pem)
}

/// Calls `RsaPublicKey::from_pkcs1_pem`. Trusted: whether it succeeds is
/// `pkcs1_public_pem_ok` of the text; the parse is not written out here.
#[verifier::external_body]
fn public_key_from_pem(pem: &str) -> (r: Result<rsa::RsaPublicKey, rsa::pkcs1::Error>)
    ensures
        r is Ok <==> pkcs1_public_pem_ok(pem@),
{
    rsa::RsaPublicKey::from_pkcs1_pem(pem)
}

/// The server's signing key and the public key it publishes.
pub struct KeyPair {
    pub private_key: rsa::RsaPrivateKey,
    pub public_key: rsa::RsaPublicKey,
}

/// Why a key pair could not be parsed: which key file, and `rsa`'s error.
pub enum KeyError {
    PrivateKey(rsa::pkcs1::Error),
    PublicKey(rsa::pkcs1::Error),
}

/// Parses the key pair from the PEM texts of its two key files; the private
/// key is parsed first, and its error is the one reported.
pub fn key_pair_from_pems(private_pem: &str, public_pem: &str) -> (r: Result<KeyPair, KeyError>)
    ensures
        r is Ok <==> pkcs1_private_pem_ok(private_pem@) && pkcs1_public_pem_ok(public_pem@),
        !pkcs1_private_pem_ok(private_pem@) ==> r matches Err(KeyError::PrivateKey(_)),
        pkcs1_private_pem_ok(private_pem@) && !pkcs1_public_pem_ok(public_pem@) ==> r matches Err(
            KeyError::PublicKey(_),
        ),
{
    let private_key = match private_key_from_pem(private_pem) {
        Ok(k) => k,
        Err(e) => return Err(KeyError::PrivateKey(e)),
    };
    let public_key = match public_key_from_pem(public_pem) {
        Ok(k) => k,
        Err(e) => return Err(KeyError::PublicKey(e)),
    };
    Ok(KeyPair { private_key, public_key })
}

/// What to do about the key files at start-up.
pub enum KeysAction {
    /// Both files exist: load the pair from them.
    Load,
    /// A file is missing: generate a new pair and write both files.
    Generate,
}

/// Decides from which key files exist whether to load or to generate.
pub fn keys_action(private_exists: bool, public_exists: bool) -> (a: KeysAction)
    ensures
        a is Load <==> private_exists && public_exists,
{
    if private_exists && public_exists {
        KeysAction::Load
    } else {
        KeysAction::Generate
    }
}

} // verus!
