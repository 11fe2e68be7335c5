use kbs::client::{
    attestation_policy_url, check_status, evidence_url, resource_kbs_uri, resource_policy_data,
    resource_policy_url, resource_uri_json, resource_url, session_cookie, set_policy_input,
    KBS_URL_PREFIX,
};

#[test]
fn broker_addresses() {
    let url = "https://kbs.example:8080";
    assert_eq!(KBS_URL_PREFIX, "kbs/v0");
    assert_eq!(evidence_url(url, "n1"), "https://kbs.example:8080/kbs/v0/evidence?challenge=n1");
    assert_eq!(attestation_policy_url(url), "https://kbs.example:8080/kbs/v0/attestation-policy");
    assert_eq!(resource_policy_url(url), "https://kbs.example:8080/kbs/v0/resource-policy");
    assert_eq!(resource_url(url, "alice/key/example"), "https://kbs.example:8080/kbs/v0/resource/alice/key/example");
}

#[test]
fn resource_uris() {
    assert_eq!(resource_kbs_uri("alice/key/example"), "kbs:///alice/key/example");
    assert_eq!(resource_uri_json("alice/key/example"), "\"kbs:///alice/key/example\"");
}

#[test]
fn policy_input_defaults_and_encoding() {
    let input = set_policy_input(None, None, b"hello");
    assert_eq!(input.policy_type, "rego");
    assert_eq!(input.policy_id, "default");
    assert_eq!(input.policy, "aGVsbG8=");
    let input = set_policy_input(Some("opa".to_string()), Some("p1".to_string()), b"");
    assert_eq!(input.policy_type, "opa");
    assert_eq!(input.policy_id, "p1");
    assert_eq!(input.policy, "");
}

#[test]
fn base64_standard_alphabet_and_padding() {
    assert_eq!(resource_policy_data(b"f").policy, "Zg==");
    assert_eq!(resource_policy_data(b"fo").policy, "Zm8=");
    assert_eq!(resource_policy_data(b"foo").policy, "Zm9v");
    assert_eq!(resource_policy_data(b"foobar").policy, "Zm9vYmFy");
    assert_eq!(resource_policy_data(&[0xfb, 0xff, 0xbf]).policy, "+/+/");
}

#[test]
fn session_cookie_is_last_cookie() {
    assert_eq!(session_cookie(&vec![]), "");
    let cookies = vec![
        ("a".to_string(), "1".to_string()),
        ("kbs-session-id".to_string(), "xyz".to_string()),
    ];
    assert_eq!(session_cookie(&cookies), "kbs-session-id=xyz");
}

#[test]
fn answers_other_than_ok_fail() {
    assert!(check_status(200, "whatever".to_string()).is_ok());
    assert_eq!(
        check_status(401, "denied".to_string()).unwrap_err(),
        "Request Failed, Response: \"denied\""
    );
}
