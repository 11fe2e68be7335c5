use vstd::prelude::*;
use crate::error::{prefixed, Error, ErrorView};

verus! {

/// What an owner-only endpoint must do before it acts on a request.
#[derive(Debug)]
pub enum OwnerCheck {
    /// The broker runs insecure: nobody is checked.
    NotNeeded,
    /// The request's token must be validated against the owner's public key.
    Validate,
}

/// Decides whether an owner-only request must be validated: an insecure broker
/// checks nobody; otherwise the owner's public key must be configured.
pub fn owner_gate(insecure: bool, user_key_present: bool) -> (res: Result<OwnerCheck, Error>)
    ensures
        insecure ==> res matches Ok(OwnerCheck::NotNeeded),
        !insecure && user_key_present ==> res matches Ok(OwnerCheck::Validate),
        !insecure && !user_key_present ==> res matches Err(Error::UserPublicKeyNotProvided),
{
    if insecure {
        Ok(OwnerCheck::NotNeeded)
    } else if user_key_present {
        Ok(OwnerCheck::Validate)
    } else {
        Err(Error::UserPublicKeyNotProvided)
    }
}

/// The message of a request whose owner token did not validate.
pub open spec fn not_authorized_message(detail: Seq<char>) -> Seq<char> {
    "Requester is not an authorized user: "@ + detail
}

/// Turns the outcome of validating the owner's token into the endpoint's verdict.
pub fn owner_verdict(validation: Result<(), String>) -> (res: Result<(), Error>)
    ensures
        validation is Ok ==> res is Ok,
        validation matches Err(e) ==> (res matches Err(Error::FailedAuthentication(m)) && m@
            == not_authorized_message(e@)),
{
    match validation {
        Ok(()) => Ok(()),
        Err(e) => Err(
            Error::FailedAuthentication(prefixed("Requester is not an authorized user: ", e.as_str())),
        ),
    }
}

/// The message of a policy that the policy engine refused to set.
pub open spec fn set_policy_message(detail: Seq<char>) -> Seq<char> {
    "Set policy error "@ + detail
}

/// Turns the outcome of setting a policy into the endpoint's answer.
pub fn policy_update_result(outcome: Result<(), String>) -> (res: Result<(), Error>)
    ensures
        outcome is Ok ==> res is Ok,
        outcome matches Err(e) ==> (res matches Err(Error::PolicyEndpoint(m)) && m@
            == set_policy_message(e@)),
{
    match outcome {
        Ok(()) => Ok(()),
        Err(e) => Err(Error::PolicyEndpoint(prefixed("Set policy error ", e.as_str()))),
    }
}

/// Where a policy request stands.
#[derive(Debug)]
pub enum PolicyStage<T> {
    /// Waiting for the owner's token to be validated; holds the policy, if the
    /// request carried one.
    AwaitingOwnerCheck(Option<T>),
    /// Waiting for the policy engine to take the policy.
    AwaitingApply,
    Done,
}

/// The outside work that a policy request asks for next.
#[derive(Debug)]
pub enum PolicyAction<T> {
    ValidateOwner,
    /// Hand this policy to the policy engine.
    Apply(T),
    /// Answer the request; nothing follows.
    Reply(Result<(), Error>),
}

/// What the outside work of a policy request reports back.
#[derive(Debug)]
pub enum PolicyEvent {
    OwnerValidated(Result<(), String>),
    Applied(Result<(), String>),
}

/// The error of a request without a usable policy.
pub open spec fn missing_policy() -> ErrorView {
    ErrorView::PolicyEndpoint("Get policy from request failed"@)
}

/// A request to set an attestation or resource policy, which only the owner
/// may make. The caller performs each action and reports with `step` until
/// it is handed a reply.
pub struct PolicyFlow<T> {
    pub stage: PolicyStage<T>,
}

impl<T> PolicyFlow<T> {
    /// Starts a policy request: an insecure broker applies the policy at once;
    /// otherwise the owner's key must be configured and the token validated.
    pub fn start(insecure: bool, user_key_present: bool, policy: Option<T>) -> (res: (
        PolicyFlow<T>,
        PolicyAction<T>,
    ))
        ensures
            insecure ==> match policy {
                Some(p) => res.1 == PolicyAction::Apply(p) && res.0.stage is AwaitingApply,
                None => res.1 matches PolicyAction::Reply(Err(e)) && e@ == missing_policy()
                    && res.0.stage is Done,
            },
            !insecure && !user_key_present ==> (res.1 matches PolicyAction::Reply(Err(e)) && e@
                == ErrorView::UserPublicKeyNotProvided && res.0.stage is Done),
            !insecure && user_key_present ==> (res.1 is ValidateOwner
                && res.0.stage == PolicyStage::AwaitingOwnerCheck(policy)),
    {
        match owner_gate(insecure, user_key_present) {
            Ok(OwnerCheck::NotNeeded) => Self::apply_or_refuse(policy),
            Ok(OwnerCheck::Validate) => (
                PolicyFlow { stage: PolicyStage::AwaitingOwnerCheck(policy) },
                PolicyAction::ValidateOwner,
            ),
            Err(e) => (PolicyFlow { stage: PolicyStage::Done }, PolicyAction::Reply(Err(e))),
        }
    }

    fn apply_or_refuse(policy: Option<T>) -> (res: (PolicyFlow<T>, PolicyAction<T>))
        ensures
            match policy {
                Some(p) => res.1 == PolicyAction::Apply(p) && res.0.stage is AwaitingApply,
                None => res.1 matches PolicyAction::Reply(Err(e)) && e@ == missing_policy()
                    && res.0.stage is Done,
            },
    {
        match policy {
            Some(p) => (PolicyFlow { stage: PolicyStage::AwaitingApply }, PolicyAction::Apply(p)),
            None => (
                PolicyFlow { stage: PolicyStage::Done },
                PolicyAction::Reply(Err(Error::PolicyEndpoint("Get policy from request failed".to_string()))),
            ),
        }
    }

    /// Whether `event` is the report that the current stage waits for.
    pub open spec fn expects(&self, event: PolicyEvent) -> bool {
        match self.stage {
            PolicyStage::AwaitingOwnerCheck(_) => event is OwnerValidated,
            PolicyStage::AwaitingApply => event is Applied,
            PolicyStage::Done => false,
        }
    }

    /// Takes the report of the outside work last handed out and returns the
    /// next work. The policy is applied only once the owner's token validated,
    /// and success is answered only once the engine took the policy.
    pub fn step(&mut self, event: PolicyEvent) -> (action: PolicyAction<T>)
        requires
            old(self).expects(event),
        ensures
            old(self).stage matches PolicyStage::AwaitingOwnerCheck(policy) ==> match event {
                PolicyEvent::OwnerValidated(Err(e)) => action matches PolicyAction::Reply(Err(r))
                    && r@ == ErrorView::FailedAuthentication(not_authorized_message(e@))
                    && final(self).stage is Done,
                _ => match policy {
                    Some(p) => action == PolicyAction::Apply(p) && final(self).stage is AwaitingApply,
                    None => action matches PolicyAction::Reply(Err(r)) && r@ == missing_policy()
                        && final(self).stage is Done,
                },
            },
            old(self).stage is AwaitingApply ==> match event {
                PolicyEvent::Applied(Err(e)) => action matches PolicyAction::Reply(Err(r)) && r@
                    == ErrorView::PolicyEndpoint(set_policy_message(e@)),
                _ => action matches PolicyAction::Reply(Ok(())),
            } && final(self).stage is Done,
            action is Apply ==> event matches PolicyEvent::OwnerValidated(Ok(_)),
    {
        let mut stage = PolicyStage::Done;
        std::mem::swap(&mut stage, &mut self.stage);
        match stage {
            PolicyStage::AwaitingOwnerCheck(policy) => match event {
                PolicyEvent::OwnerValidated(Ok(())) => {
                    let (next, action) = Self::apply_or_refuse(policy);
                    self.stage = next.stage;
                    action
                },
                PolicyEvent::OwnerValidated(Err(e)) => PolicyAction::Reply(owner_verdict(Err(e))),
                PolicyEvent::Applied(_) => {
                    proof {
                        assert(false);
                    }
                    PolicyAction::ValidateOwner
                },
            },
            PolicyStage::AwaitingApply => match event {
                PolicyEvent::Applied(outcome) => PolicyAction::Reply(policy_update_result(outcome)),
                PolicyEvent::OwnerValidated(_) => {
                    proof {
                        assert(false);
                    }
                    PolicyAction::ValidateOwner
                },
            },
            PolicyStage::Done => {
                proof {
                    assert(false);
                }
                PolicyAction::ValidateOwner
            },
        }
    }
}

} // verus!
