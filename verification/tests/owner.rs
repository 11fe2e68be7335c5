use jwt_simple::prelude::{Ed25519KeyPair, EdDSAKeyPairLike, EdDSAPublicKeyLike, NoCustomClaims};
use kbs::client::{attestation_policy_request, resource_policy_request, resource_upload_target};
use kbs::owner::{owner_token, OWNER_TOKEN_HOURS};

#[test]
fn owner_token_needs_an_ed25519_key() {
    assert!(owner_token("not a key").is_err());
    assert!(owner_token("").is_err());
}

#[test]
fn owner_token_is_signed_by_the_owner_key() {
    let key = Ed25519KeyPair::generate();
    let token = owner_token(&key.to_pem()).expect("valid key");
    let claims = key
        .public_key()
        .verify_token::<NoCustomClaims>(&token, None)
        .expect("token verifies");
    let issued = claims.issued_at.unwrap().as_secs();
    let expires = claims.expires_at.unwrap().as_secs();
    assert_eq!(expires - issued, OWNER_TOKEN_HOURS * 3600);
}

#[test]
fn owner_token_from_another_key_does_not_verify() {
    let key = Ed25519KeyPair::generate();
    let other = Ed25519KeyPair::generate();
    let token = owner_token(&key.to_pem()).unwrap();
    assert!(other.public_key().verify_token::<NoCustomClaims>(&token, None).is_err());
}

#[test]
fn policy_requests_fail_without_owner_key() {
    assert!(attestation_policy_request("https://k", "bad", b"p", None, None).is_err());
    assert!(resource_policy_request("https://k", "bad", b"p").is_err());
}

#[test]
fn policy_requests_with_owner_key() {
    let key = Ed25519KeyPair::generate().to_pem();
    let r = attestation_policy_request("https://k", &key, b"hello", None, Some("p1".to_string()))
        .unwrap();
    assert_eq!(r.url, "https://k/kbs/v0/attestation-policy");
    assert_eq!(r.body.policy_type, "rego");
    assert_eq!(r.body.policy_id, "p1");
    assert_eq!(r.body.policy, "aGVsbG8=");
    assert!(!r.token.is_empty());
    let r = resource_policy_request("https://k", &key, b"foobar").unwrap();
    assert_eq!(r.url, "https://k/kbs/v0/resource-policy");
    assert_eq!(r.body.policy, "Zm9vYmFy");
}

#[test]
fn upload_target_is_signed_by_the_owner_key() {
    assert!(resource_upload_target("https://k", "bad", "a/b/c").is_err());
    let key = Ed25519KeyPair::generate();
    let t = resource_upload_target("https://k", &key.to_pem(), "alice/key/example").unwrap();
    assert_eq!(t.url, "https://k/kbs/v0/resource/alice/key/example");
    let claims = key
        .public_key()
        .verify_token::<NoCustomClaims>(&t.token, None)
        .expect("token verifies");
    assert_eq!(claims.expires_at.unwrap().as_secs() - claims.issued_at.unwrap().as_secs(), 7200);
}
