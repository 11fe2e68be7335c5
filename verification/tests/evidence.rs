use kbs::error::{ok_response_body, required_param, Error};
use kbs::evidence::{
    aa_evidence_url, challenge_from_pairs, challenge_from_query, evidence_failure,
    get_runtime_data, runtime_data_preimage, EvidenceStep,
};

#[test]
fn challenge_is_read_from_query() {
    assert_eq!(challenge_from_query(Some("challenge=abc")).unwrap(), "abc");
    assert_eq!(challenge_from_query(Some("x=1&challenge=a%20b+c")).unwrap(), "a b c");
}

#[test]
fn last_challenge_wins() {
    assert_eq!(challenge_from_query(Some("challenge=1&challenge=2")).unwrap(), "2");
    let pairs = vec![
        ("challenge".to_string(), "first".to_string()),
        ("other".to_string(), "x".to_string()),
        ("challenge".to_string(), "second".to_string()),
    ];
    assert_eq!(challenge_from_pairs(&pairs).unwrap(), "second");
}

#[test]
fn missing_challenge_is_invalid_request() {
    for q in [None, Some(""), Some("chal=1")] {
        match challenge_from_query(q) {
            Err(Error::InvalidRequest(m)) => assert_eq!(m, "no `challenge` in url"),
            other => panic!("unexpected {:?}", other),
        }
    }
}

#[test]
fn required_param_names_missing_parameter() {
    assert_eq!(required_param(Some("v".to_string()), "name").unwrap(), "v");
    match required_param(None, "name") {
        Err(Error::InvalidRequest(m)) => assert_eq!(m, "no `name` in url"),
        other => panic!("unexpected {:?}", other),
    }
}

#[test]
fn runtime_data_is_lowercase_hex_of_digest() {
    assert_eq!(get_runtime_data(&[0x00, 0x1f, 0xab, 0xff]), "001fabff");
    assert_eq!(get_runtime_data(&[]), "");
    assert_eq!(runtime_data_preimage("nonce", "{\"k\":1}"), "nonce{\"k\":1}");
}

#[test]
fn agent_evidence_address() {
    assert_eq!(
        aa_evidence_url("http://127.0.0.1:8006", "123456"),
        "http://127.0.0.1:8006/aa/evidence_extra?runtime_data=123456"
    );
}

#[test]
fn agent_answer_must_be_ok() {
    assert_eq!(ok_response_body(200, "ev".to_string()).unwrap(), "ev");
    assert_eq!(
        ok_response_body(500, "boom \"x\"".to_string()).unwrap_err(),
        "Request Failed, Response: \"boom \\\"x\\\"\""
    );
}

#[test]
fn evidence_failures_are_prefixed() {
    let cases = [
        (EvidenceStep::NewKeyPair, "New TeeKeyPair failed e"),
        (EvidenceStep::ExportPublicKey, "Export TeePubKey failed e"),
        (EvidenceStep::EncodePublicKey, "Json TeePubKey failed e"),
        (EvidenceStep::AgentEvidence, "Get evidence form AA failed e"),
        (EvidenceStep::EncodeEvidence, "Serialize evidence failed e"),
    ];
    for (step, expected) in cases {
        match evidence_failure(step, "e") {
            Error::EvidenceIssueFailed(m) => assert_eq!(m, expected),
            other => panic!("unexpected {:?}", other),
        }
    }
}
