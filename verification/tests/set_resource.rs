use kbs::error::Error;
use kbs::set_resource::{
    SeedCheckFailure, SessionLookup, SetResourceAction, SetResourceEvent, SetResourceFlow,
    SetResourceRequest,
};

fn encrypted_body() -> Vec<u8> {
    let response = kbs_types::Response {
        protected: kbs_types::ProtectedHeader {
            alg: "RSA1_5".to_string(),
            enc: "A256GCM".to_string(),
            other_fields: serde_json::Map::new(),
        },
        encrypted_key: vec![1, 2, 3],
        aad: None,
        iv: vec![4, 5],
        ciphertext: vec![6, 7, 8],
        tag: vec![9],
    };
    serde_json::to_vec(&response).unwrap()
}

fn request(insecure: bool, key: bool, repo: Option<&str>, ty: Option<&str>, tag: Option<&str>) -> SetResourceRequest {
    SetResourceRequest {
        insecure,
        user_key_present: key,
        repository: repo.map(|s| s.to_string()),
        resource_type: ty.map(|s| s.to_string()),
        resource_tag: tag.map(|s| s.to_string()),
        body: encrypted_body(),
    }
}

fn decrypted(flow: &mut SetResourceFlow, data: &[u8]) -> SetResourceAction {
    match flow.step(SetResourceEvent::Session(SessionLookup::Found)) {
        SetResourceAction::Decrypt(cipher) => assert_eq!(cipher.ciphertext, vec![6, 7, 8]),
        other => panic!("unexpected {:?}", other),
    }
    flow.step(SetResourceEvent::Decrypted(data.to_vec()))
}

fn expect_err(action: SetResourceAction) -> Error {
    match action {
        SetResourceAction::Reply(Err(e)) => e,
        other => panic!("unexpected {:?}", other),
    }
}

#[test]
fn starts_with_session_lookup() {
    let (flow, action) = SetResourceFlow::start(request(true, false, None, Some("t"), Some("g")));
    assert!(matches!(action, SetResourceAction::LookupSession));
    assert!(!flow.is_done());
}

#[test]
fn missing_cookie_and_unknown_session() {
    let (mut flow, _) = SetResourceFlow::start(request(true, false, None, Some("t"), Some("g")));
    assert!(matches!(expect_err(flow.step(SetResourceEvent::Session(SessionLookup::NoCookie))), Error::MissingCookie));
    assert!(flow.is_done());
    let (mut flow, _) = SetResourceFlow::start(request(true, false, None, Some("t"), Some("g")));
    assert!(matches!(expect_err(flow.step(SetResourceEvent::Session(SessionLookup::UnknownSession))), Error::InvalidCookie));
}

#[test]
fn insecure_broker_writes_with_default_repository() {
    let (mut flow, _) = SetResourceFlow::start(request(true, false, None, Some("key"), Some("tag1")));
    match decrypted(&mut flow, b"secret") {
        SetResourceAction::Write(d, data) => {
            assert_eq!(d.repository_name, "default");
            assert_eq!(d.resource_type, "key");
            assert_eq!(d.resource_tag, "tag1");
            assert_eq!(data, b"secret".to_vec());
        }
        other => panic!("unexpected {:?}", other),
    }
    assert!(matches!(flow.step(SetResourceEvent::Written(Ok(()))), SetResourceAction::Reply(Ok(()))));
    assert!(flow.is_done());
}

#[test]
fn owner_must_validate_before_write() {
    let (mut flow, _) = SetResourceFlow::start(request(false, true, Some("alice"), Some("key"), Some("x")));
    assert!(matches!(decrypted(&mut flow, b"s"), SetResourceAction::ValidateOwner));
    match flow.step(SetResourceEvent::OwnerValidated(Ok(()))) {
        SetResourceAction::Write(d, _) => assert_eq!(d.repository_name, "alice"),
        other => panic!("unexpected {:?}", other),
    }
}

#[test]
fn owner_rejection_is_failed_authentication() {
    let (mut flow, _) = SetResourceFlow::start(request(false, true, None, Some("key"), Some("x")));
    decrypted(&mut flow, b"s");
    match expect_err(flow.step(SetResourceEvent::OwnerValidated(Err("no".to_string())))) {
        Error::FailedAuthentication(m) => assert_eq!(m, "Requester is not an authorized user: no"),
        other => panic!("unexpected {:?}", other),
    }
    assert!(flow.is_done());
}

#[test]
fn secure_broker_without_key_refuses() {
    let (mut flow, _) = SetResourceFlow::start(request(false, false, None, Some("key"), Some("x")));
    assert!(matches!(expect_err(decrypted(&mut flow, b"s")), Error::UserPublicKeyNotProvided));
}

#[test]
fn seeds_are_checked_by_the_file_system_service() {
    let (mut flow, _) = SetResourceFlow::start(request(false, false, Some("bob"), Some("seeds"), Some("seeds")));
    match decrypted(&mut flow, b"abc") {
        SetResourceAction::VerifySeeds(s) => assert_eq!(s, b"abc".to_vec()),
        other => panic!("unexpected {:?}", other),
    }
    assert!(matches!(flow.step(SetResourceEvent::SeedsChecked(Ok(()))), SetResourceAction::Write(_, _)));
}

#[test]
fn invalid_seeds_name_the_repository() {
    let (mut flow, _) = SetResourceFlow::start(request(false, true, Some("bob"), Some("seeds"), Some("seeds")));
    decrypted(&mut flow, b"abc");
    let e = expect_err(flow.step(SetResourceEvent::SeedsChecked(Err(SeedCheckFailure::Rejected("bad".to_string())))));
    match e {
        Error::SetSecretFailed(m) => assert_eq!(m, "bob seeds are invalid: bad"),
        other => panic!("unexpected {:?}", other),
    }
}

#[test]
fn unreachable_seed_service() {
    let (mut flow, _) = SetResourceFlow::start(request(false, true, None, Some("seeds"), Some("seeds")));
    decrypted(&mut flow, b"abc");
    let e = expect_err(flow.step(SetResourceEvent::SeedsChecked(Err(SeedCheckFailure::CfsUnavailable("down".to_string())))));
    match e {
        Error::SetSecretFailed(m) => assert_eq!(m, "new cfs error: down"),
        other => panic!("unexpected {:?}", other),
    }
}

#[test]
fn body_failures_are_decrypt_errors() {
    let mut req = request(true, false, None, Some("t"), Some("g"));
    req.body = b"not json".to_vec();
    let (mut flow, _) = SetResourceFlow::start(req);
    match expect_err(flow.step(SetResourceEvent::Session(SessionLookup::Found))) {
        Error::DecryptResourceDataFailed(m) => {
            assert_eq!(m, "resource data error: expected ident at line 1 column 2")
        }
        other => panic!("unexpected {:?}", other),
    }
    assert!(flow.is_done());
    let (mut flow, _) = SetResourceFlow::start(request(true, false, None, Some("t"), Some("g")));
    flow.step(SetResourceEvent::Session(SessionLookup::Found));
    match expect_err(flow.step(SetResourceEvent::DecryptFailed("tag".to_string()))) {
        Error::DecryptResourceDataFailed(m) => assert_eq!(m, "decrypt resource data failed: tag"),
        other => panic!("unexpected {:?}", other),
    }
}

#[test]
fn non_utf8_resource_is_refused() {
    let (mut flow, _) = SetResourceFlow::start(request(true, false, None, Some("t"), Some("g")));
    match expect_err(decrypted(&mut flow, &[0x61, 0xff])) {
        Error::DecryptResourceDataFailed(m) => assert_eq!(
            m,
            "get resource string failed: invalid utf-8 sequence of 1 bytes from index 1"
        ),
        other => panic!("unexpected {:?}", other),
    }
}

#[test]
fn url_must_name_type_and_tag() {
    let (mut flow, _) = SetResourceFlow::start(request(true, false, None, None, Some("g")));
    match expect_err(decrypted(&mut flow, b"x")) {
        Error::InvalidRequest(m) => assert_eq!(m, "no `type` in url"),
        other => panic!("unexpected {:?}", other),
    }
    let (mut flow, _) = SetResourceFlow::start(request(true, false, None, Some("t"), None));
    match expect_err(decrypted(&mut flow, b"x")) {
        Error::InvalidRequest(m) => assert_eq!(m, "no `tag` in url"),
        other => panic!("unexpected {:?}", other),
    }
}

#[test]
fn failed_write_is_set_secret_failed() {
    let (mut flow, _) = SetResourceFlow::start(request(true, false, None, Some("t"), Some("g")));
    decrypted(&mut flow, b"x");
    match expect_err(flow.step(SetResourceEvent::Written(Err("disk full".to_string())))) {
        Error::SetSecretFailed(m) => assert_eq!(m, "disk full"),
        other => panic!("unexpected {:?}", other),
    }
    assert!(flow.is_done());
}
