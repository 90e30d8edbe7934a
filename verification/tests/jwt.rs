use rsa::pkcs1::{EncodeRsaPrivateKey, EncodeRsaPublicKey};
use sqlite_editor::auth::keys::{key_pair_from_pems, keys_action, KeyError, KeysAction};
use sqlite_editor::auth::jwt::new_claims;

#[test]
fn claims_carry_subject_issuer_and_times() {
    let c = new_claims("testuser", "sqlite-editor", 3600, 1_700_000_000);
    assert_eq!(c.sub, "testuser");
    assert_eq!(c.iss, "sqlite-editor");
    assert_eq!(c.iat, 1_700_000_000);
    assert_eq!(c.exp, 1_700_003_600);
}

#[test]
fn expired_lifetime_gives_past_expiry() {
    let c = new_claims("u", "i", -10, 1_000);
    assert_eq!(c.exp, 990);
    assert_eq!(c.exp + 10, c.iat);
}

#[test]
fn expiry_is_issue_time_plus_ttl() {
    for (now, ttl) in [(0usize, 0i64), (5, 7), (100, -100), (1_700_000_000, 86_400)] {
        let c = new_claims("s", "i", ttl, now);
        assert_eq!(c.exp as i64 - c.iat as i64, ttl);
    }
}

#[test]
fn key_pair_parses_from_pkcs1_pems() {
    let private_key = rsa::RsaPrivateKey::new(&mut rand::thread_rng(), 512).unwrap();
    let public_key = rsa::RsaPublicKey::from(&private_key);
    let private_pem = private_key.to_pkcs1_pem(rsa::pkcs1::LineEnding::LF).unwrap();
    let public_pem = public_key.to_pkcs1_pem(rsa::pkcs1::LineEnding::LF).unwrap();
    let kp = key_pair_from_pems(&private_pem, &public_pem).ok().unwrap();
    assert_eq!(
        kp.public_key.to_pkcs1_pem(rsa::pkcs1::LineEnding::LF).unwrap(),
        public_pem
    );
    assert_eq!(kp.private_key, private_key);
    assert!(matches!(key_pair_from_pems("not a key", &public_pem), Err(KeyError::PrivateKey(_))));
    assert!(matches!(key_pair_from_pems("not a key", "nor this"), Err(KeyError::PrivateKey(_))));
    assert!(matches!(key_pair_from_pems(&private_pem, "not a key"), Err(KeyError::PublicKey(_))));
    assert!(matches!(key_pair_from_pems(&public_pem, &private_pem), Err(KeyError::PrivateKey(_))));
}

#[test]
fn keys_are_loaded_only_when_both_files_exist() {
    assert!(matches!(keys_action(true, true), KeysAction::Load));
    assert!(matches!(keys_action(true, false), KeysAction::Generate));
    assert!(matches!(keys_action(false, true), KeysAction::Generate));
    assert!(matches!(keys_action(false, false), KeysAction::Generate));
}
