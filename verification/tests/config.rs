use kbs::config::{
    owner_gate, owner_verdict, policy_update_result, OwnerCheck, PolicyAction, PolicyEvent,
    PolicyFlow, PolicyStage,
};
use kbs::error::Error;

#[test]
fn insecure_broker_checks_no_owner() {
    assert!(matches!(owner_gate(true, false), Ok(OwnerCheck::NotNeeded)));
    assert!(matches!(owner_gate(true, true), Ok(OwnerCheck::NotNeeded)));
}

#[test]
fn secure_broker_needs_owner_key() {
    assert!(matches!(owner_gate(false, false), Err(Error::UserPublicKeyNotProvided)));
    assert!(matches!(owner_gate(false, true), Ok(OwnerCheck::Validate)));
}

#[test]
fn rejected_token_is_failed_authentication() {
    assert!(owner_verdict(Ok(())).is_ok());
    match owner_verdict(Err("bad signature".to_string())) {
        Err(Error::FailedAuthentication(m)) => {
            assert_eq!(m, "Requester is not an authorized user: bad signature")
        }
        other => panic!("unexpected {:?}", other),
    }
}

#[test]
fn engine_refusal_is_policy_endpoint_error() {
    assert!(policy_update_result(Ok(())).is_ok());
    match policy_update_result(Err("syntax".to_string())) {
        Err(Error::PolicyEndpoint(m)) => assert_eq!(m, "Set policy error syntax"),
        other => panic!("unexpected {:?}", other),
    }
}

#[test]
fn insecure_policy_request_applies_at_once() {
    let (flow, action) = PolicyFlow::start(true, false, Some("p".to_string()));
    assert!(matches!(action, PolicyAction::Apply(ref p) if p == "p"));
    assert!(matches!(flow.stage, PolicyStage::AwaitingApply));
}

#[test]
fn policy_request_without_policy_is_refused() {
    let (flow, action) = PolicyFlow::<String>::start(true, false, None);
    match action {
        PolicyAction::Reply(Err(Error::PolicyEndpoint(m))) => {
            assert_eq!(m, "Get policy from request failed")
        }
        other => panic!("unexpected {:?}", other),
    }
    assert!(matches!(flow.stage, PolicyStage::Done));
}

#[test]
fn secure_policy_request_without_key_is_refused() {
    let (_, action) = PolicyFlow::start(false, false, Some(1u8));
    assert!(matches!(action, PolicyAction::Reply(Err(Error::UserPublicKeyNotProvided))));
}

#[test]
fn owner_policy_request_runs_to_success() {
    let (mut flow, action) = PolicyFlow::start(false, true, Some("p".to_string()));
    assert!(matches!(action, PolicyAction::ValidateOwner));
    let action = flow.step(PolicyEvent::OwnerValidated(Ok(())));
    assert!(matches!(action, PolicyAction::Apply(ref p) if p == "p"));
    let action = flow.step(PolicyEvent::Applied(Ok(())));
    assert!(matches!(action, PolicyAction::Reply(Ok(()))));
    assert!(matches!(flow.stage, PolicyStage::Done));
}

#[test]
fn owner_policy_request_with_bad_token_is_not_applied() {
    let (mut flow, _) = PolicyFlow::start(false, true, Some("p".to_string()));
    match flow.step(PolicyEvent::OwnerValidated(Err("expired".to_string()))) {
        PolicyAction::Reply(Err(Error::FailedAuthentication(m))) => {
            assert_eq!(m, "Requester is not an authorized user: expired")
        }
        other => panic!("unexpected {:?}", other),
    }
    assert!(matches!(flow.stage, PolicyStage::Done));
}

#[test]
fn owner_policy_request_missing_policy_after_validation() {
    let (mut flow, _) = PolicyFlow::<String>::start(false, true, None);
    match flow.step(PolicyEvent::OwnerValidated(Ok(()))) {
        PolicyAction::Reply(Err(Error::PolicyEndpoint(m))) => {
            assert_eq!(m, "Get policy from request failed")
        }
        other => panic!("unexpected {:?}", other),
    }
}

#[test]
fn engine_failure_is_answered() {
    let (mut flow, _) = PolicyFlow::start(true, false, Some("p".to_string()));
    match flow.step(PolicyEvent::Applied(Err("bad".to_string()))) {
        PolicyAction::Reply(Err(Error::PolicyEndpoint(m))) => assert_eq!(m, "Set policy error bad"),
        other => panic!("unexpected {:?}", other),
    }
}
