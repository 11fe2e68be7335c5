use vstd::prelude::*;
use vstd::utf8::valid_utf8;
use crate::config::{not_authorized_message, owner_verdict};
use crate::error::{missing_param, missing_param_message, prefixed, Error, ErrorView};
use crate::repository::{ResourceDesc, ResourceDescView};
use crate::text::{str_eq, str_from_utf8, utf8_error_text};
use kbs_types::Response;

verus! {

#[verifier::external_type_specification]
#[verifier::external_body]
pub struct ExResponse(Response);

/// What `serde_json::from_slice` makes of bytes read as an encrypted
/// `kbs_types::Response`: `None` when it accepts them, else the `Display` text
/// of its error.
pub uninterp spec fn encrypted_response_error(data: Seq<u8>) -> Option<Seq<char>>;

/// The encrypted `kbs_types::Response` that `serde_json::from_slice` reads
/// from bytes it accepts.
pub uninterp spec fn encrypted_response(data: Seq<u8>) -> Response;

/// Calls `serde_json::from_slice` to read bytes as an encrypted
/// `kbs_types::Response`; whether it accepts them, and its error's text, are
/// named `encrypted_response_error`, and the response it reads is named
/// `encrypted_response`.
#[verifier::external_body]
pub(crate) fn parse_encrypted_response(data: &[u8]) -> (res: Result<Response, String>)
    ensures
        res is Ok <==> encrypted_response_error(data@) is None,
        res matches Err(e) ==> encrypted_response_error(data@) == Some(e@),
        res matches Ok(r) ==> r == encrypted_response(data@),
{
    serde_json::from_slice::<Response>(data).map_err(|e| e.to_string())
}

/// A request to store a secret resource, as far as the broker knows it before
/// any outside work: how the broker runs and the resource names in the URL.
#[derive(Debug)]
pub struct SetResourceRequest {
    pub insecure: bool,
    pub user_key_present: bool,
    pub repository: Option<String>,
    pub resource_type: Option<String>,
    pub resource_tag: Option<String>,
    /// The request body: the resource, encrypted to the session's key.
    pub body: Vec<u8>,
}

/// The request as text.
pub struct SetResourceRequestView {
    pub insecure: bool,
    pub user_key_present: bool,
    pub repository: Option<Seq<char>>,
    pub resource_type: Option<Seq<char>>,
    pub resource_tag: Option<Seq<char>>,
    pub body: Seq<u8>,
}

impl View for SetResourceRequest {
    type V = SetResourceRequestView;

    open spec fn view(&self) -> SetResourceRequestView {
        SetResourceRequestView {
            insecure: self.insecure,
            user_key_present: self.user_key_present,
            repository: self.repository.deep_view(),
            resource_type: self.resource_type.deep_view(),
            resource_tag: self.resource_tag.deep_view(),
            body: self.body@,
        }
    }
}

/// What looking up the request's session cookie found.
#[derive(Debug)]
pub enum SessionLookup {
    NoCookie,
    UnknownSession,
    Found,
}

/// Why a seeds resource was not accepted.
#[derive(Debug)]
pub enum SeedCheckFailure {
    /// The confidential file system service could not be reached; its error text.
    CfsUnavailable(String),
    /// The service judged the seeds invalid; its error text.
    Rejected(String),
}

/// What the outside work of a set-resource request reports back.
#[derive(Debug)]
pub enum SetResourceEvent {
    Session(SessionLookup),
    /// The session's key did not decrypt the body; the error text.
    DecryptFailed(String),
    /// The decrypted resource.
    Decrypted(Vec<u8>),
    SeedsChecked(Result<(), SeedCheckFailure>),
    OwnerValidated(Result<(), String>),
    Written(Result<(), String>),
}

/// The outside work that a set-resource request asks for next.
#[derive(Debug)]
pub enum SetResourceAction {
    LookupSession,
    /// Decrypt the body, read as this encrypted response, with the session's key.
    Decrypt(Response),
    /// Have the confidential file system service check these seeds.
    VerifySeeds(Vec<u8>),
    ValidateOwner,
    /// Store the resource.
    Write(ResourceDesc, Vec<u8>),
    /// Answer the request; nothing follows.
    Reply(Result<(), Error>),
}

/// Where a set-resource request stands.
#[derive(Debug)]
pub enum SetResourceStage {
    AwaitingSession,
    AwaitingPlaintext,
    AwaitingSeedCheck(ResourceDesc, Vec<u8>),
    AwaitingOwnerCheck(ResourceDesc, Vec<u8>),
    AwaitingWrite,
    Done,
}

/// A report as text.
pub enum SetResourceEventView {
    Session(SessionLookup),
    DecryptFailed(Seq<char>),
    Decrypted(Seq<u8>),
    SeedsOk,
    SeedsCfsUnavailable(Seq<char>),
    SeedsRejected(Seq<char>),
    OwnerOk,
    OwnerRejected(Seq<char>),
    WriteOk,
    WriteFailed(Seq<char>),
}

/// An action as text.
pub enum SetResourceActionView {
    LookupSession,
    Decrypt(Response),
    VerifySeeds(Seq<u8>),
    ValidateOwner,
    Write(ResourceDescView, Seq<u8>),
    ReplyOk,
    ReplyErr(ErrorView),
}

/// A stage as text.
pub enum SetResourceStageView {
    AwaitingSession,
    AwaitingPlaintext,
    AwaitingSeedCheck(ResourceDescView, Seq<u8>),
    AwaitingOwnerCheck(ResourceDescView, Seq<u8>),
    AwaitingWrite,
    Done,
}

impl View for SetResourceEvent {
    type V = SetResourceEventView;

    open spec fn view(&self) -> SetResourceEventView {
        match self {
            SetResourceEvent::Session(l) => SetResourceEventView::Session(*l),
            SetResourceEvent::DecryptFailed(e) => SetResourceEventView::DecryptFailed(e@),
            SetResourceEvent::Decrypted(b) => SetResourceEventView::Decrypted(b@),
            SetResourceEvent::SeedsChecked(Ok(())) => SetResourceEventView::SeedsOk,
            SetResourceEvent::SeedsChecked(Err(SeedCheckFailure::CfsUnavailable(e))) =>
                SetResourceEventView::SeedsCfsUnavailable(e@),
            SetResourceEvent::SeedsChecked(Err(SeedCheckFailure::Rejected(e))) =>
                SetResourceEventView::SeedsRejected(e@),
            SetResourceEvent::OwnerValidated(Ok(())) => SetResourceEventView::OwnerOk,
            SetResourceEvent::OwnerValidated(Err(e)) => SetResourceEventView::OwnerRejected(e@),
            SetResourceEvent::Written(Ok(())) => SetResourceEventView::WriteOk,
            SetResourceEvent::Written(Err(e)) => SetResourceEventView::WriteFailed(e@),
        }
    }
}

impl View for SetResourceAction {
    type V = SetResourceActionView;

    open spec fn view(&self) -> SetResourceActionView {
        match self {
            SetResourceAction::LookupSession => SetResourceActionView::LookupSession,
            SetResourceAction::Decrypt(r) => SetResourceActionView::Decrypt(*r),
            SetResourceAction::VerifySeeds(b) => SetResourceActionView::VerifySeeds(b@),
            SetResourceAction::ValidateOwner => SetResourceActionView::ValidateOwner,
            SetResourceAction::Write(d, b) => SetResourceActionView::Write(d@, b@),
            SetResourceAction::Reply(Ok(())) => SetResourceActionView::ReplyOk,
            SetResourceAction::Reply(Err(e)) => SetResourceActionView::ReplyErr(e@),
        }
    }
}

impl View for SetResourceStage {
    type V = SetResourceStageView;

    open spec fn view(&self) -> SetResourceStageView {
        match self {
            SetResourceStage::AwaitingSession => SetResourceStageView::AwaitingSession,
            SetResourceStage::AwaitingPlaintext => SetResourceStageView::AwaitingPlaintext,
            SetResourceStage::AwaitingSeedCheck(d, b) => SetResourceStageView::AwaitingSeedCheck(
                d@,
                b@,
            ),
            SetResourceStage::AwaitingOwnerCheck(d, b) => SetResourceStageView::AwaitingOwnerCheck(
                d@,
                b@,
            ),
            SetResourceStage::AwaitingWrite => SetResourceStageView::AwaitingWrite,
            SetResourceStage::Done => SetResourceStageView::Done,
        }
    }
}

/// A resource that the confidential file system service itself must vouch for.
pub open spec fn is_seeds(d: ResourceDescView) -> bool {
    d.resource_type == "seeds"@ && d.resource_tag == "seeds"@
}

/// The resource that the request names once type and tag are both given; the
/// repository defaults to `default`.
pub open spec fn requested_desc(req: SetResourceRequestView) -> ResourceDescView {
    ResourceDescView {
        repository_name: match req.repository {
            Some(r) => r,
            None => "default"@,
        },
        resource_type: req.resource_type->0,
        resource_tag: req.resource_tag->0,
    }
}

/// Answering with the error `e`, which ends the request.
pub open spec fn reply_err(e: ErrorView) -> (SetResourceStageView, SetResourceActionView) {
    (SetResourceStageView::Done, SetResourceActionView::ReplyErr(e))
}

/// What follows once the resource has been decrypted to `data`: it must be
/// text, the URL must name type and tag, and then the requester must be
/// authorized unless the broker runs insecure.
pub open spec fn after_decryption(req: SetResourceRequestView, data: Seq<u8>) -> (
    SetResourceStageView,
    SetResourceActionView,
) {
    if !valid_utf8(data) {
        reply_err(
            ErrorView::DecryptResourceDataFailed(
                "get resource string failed: "@ + utf8_error_text(data),
            ),
        )
    } else if req.resource_type is None {
        reply_err(ErrorView::InvalidRequest(missing_param_message("type"@)))
    } else if req.resource_tag is None {
        reply_err(ErrorView::InvalidRequest(missing_param_message("tag"@)))
    } else {
        let d = requested_desc(req);
        if req.insecure {
            (SetResourceStageView::AwaitingWrite, SetResourceActionView::Write(d, data))
        } else if is_seeds(d) {
            (SetResourceStageView::AwaitingSeedCheck(d, data), SetResourceActionView::VerifySeeds(data))
        } else if req.user_key_present {
            (SetResourceStageView::AwaitingOwnerCheck(d, data), SetResourceActionView::ValidateOwner)
        } else {
            reply_err(ErrorView::UserPublicKeyNotProvided)
        }
    }
}

/// The transitions of a set-resource request: from a stage and the report of
/// the outside work it asked for, the next stage and the next work; `None`
/// where the stage expects another report (or, when done, none at all).
pub open spec fn set_resource_step(
    req: SetResourceRequestView,
    stage: SetResourceStageView,
    event: SetResourceEventView,
) -> Option<(SetResourceStageView, SetResourceActionView)> {
    match stage {
        SetResourceStageView::AwaitingSession => match event {
            SetResourceEventView::Session(SessionLookup::NoCookie) => Some(reply_err(ErrorView::MissingCookie)),
            SetResourceEventView::Session(SessionLookup::UnknownSession) => Some(reply_err(ErrorView::InvalidCookie)),
            SetResourceEventView::Session(SessionLookup::Found) => Some(
                match encrypted_response_error(req.body) {
                    Some(e) => reply_err(ErrorView::DecryptResourceDataFailed("resource data error: "@ + e)),
                    None => (
                        SetResourceStageView::AwaitingPlaintext,
                        SetResourceActionView::Decrypt(encrypted_response(req.body)),
                    ),
                },
            ),
            _ => None,
        },
        SetResourceStageView::AwaitingPlaintext => match event {
            SetResourceEventView::DecryptFailed(e) => Some(
                reply_err(ErrorView::DecryptResourceDataFailed("decrypt resource data failed: "@ + e)),
            ),
            SetResourceEventView::Decrypted(data) => Some(after_decryption(req, data)),
            _ => None,
        },
        SetResourceStageView::AwaitingSeedCheck(d, data) => match event {
            SetResourceEventView::SeedsOk => Some(
                (SetResourceStageView::AwaitingWrite, SetResourceActionView::Write(d, data)),
            ),
            SetResourceEventView::SeedsCfsUnavailable(e) => Some(
                reply_err(ErrorView::SetSecretFailed("new cfs error: "@ + e)),
            ),
            SetResourceEventView::SeedsRejected(e) => Some(
                reply_err(ErrorView::SetSecretFailed(d.repository_name + " seeds are invalid: "@ + e)),
            ),
            _ => None,
        },
        SetResourceStageView::AwaitingOwnerCheck(d, data) => match event {
            SetResourceEventView::OwnerOk => Some(
                (SetResourceStageView::AwaitingWrite, SetResourceActionView::Write(d, data)),
            ),
            SetResourceEventView::OwnerRejected(e) => Some(
                reply_err(ErrorView::FailedAuthentication(not_authorized_message(e))),
            ),
            _ => None,
        },
        SetResourceStageView::AwaitingWrite => match event {
            SetResourceEventView::WriteOk => Some(
                (SetResourceStageView::Done, SetResourceActionView::ReplyOk),
            ),
            SetResourceEventView::WriteFailed(e) => Some(reply_err(ErrorView::SetSecretFailed(e))),
            _ => None,
        },
        SetResourceStageView::Done => None,
    }
}

/// A set-resource request in progress. The caller performs each action it
/// hands out and reports the outcome with `step`, until it hands out a reply.
pub struct SetResourceFlow {
    pub request: SetResourceRequest,
    pub stage: SetResourceStage,
}

impl SetResourceFlow {
    /// Starts a request: the first work is to look up its session.
    pub fn start(request: SetResourceRequest) -> (res: (SetResourceFlow, SetResourceAction))
        ensures
            res.0.request@ == request@,
            res.0.stage@ == SetResourceStageView::AwaitingSession,
            res.1@ == SetResourceActionView::LookupSession,
    {
        (SetResourceFlow { request, stage: SetResourceStage::AwaitingSession }, SetResourceAction::LookupSession)
    }

    /// Whether the request has been answered.
    pub fn is_done(&self) -> (res: bool)
        ensures
            res == (self.stage@ == SetResourceStageView::Done),
    {
        match self.stage {
            SetResourceStage::Done => true,
            _ => false,
        }
    }

    /// Whether `event` is the report that the current stage waits for.
    pub open spec fn expects(&self, event: SetResourceEventView) -> bool {
        set_resource_step(self.request@, self.stage@, event) is Some
    }

    /// Takes the report of the outside work last handed out and returns the
    /// next work; a reply ends the request.
    pub fn step(&mut self, event: SetResourceEvent) -> (action: SetResourceAction)
        requires
            old(self).expects(event@),
        ensures
            final(self).request@ == old(self).request@,
            set_resource_step(old(self).request@, old(self).stage@, event@) == Some(
                (final(self).stage@, action@),
            ),
    {
        let mut stage = SetResourceStage::Done;
        std::mem::swap(&mut stage, &mut self.stage);
        match stage {
            SetResourceStage::AwaitingSession => match event {
                SetResourceEvent::Session(SessionLookup::NoCookie) => SetResourceAction::Reply(
                    Err(Error::MissingCookie),
                ),
                SetResourceEvent::Session(SessionLookup::UnknownSession) => SetResourceAction::Reply(
                    Err(Error::InvalidCookie),
                ),
                SetResourceEvent::Session(SessionLookup::Found) => match parse_encrypted_response(
                    self.request.body.as_slice(),
                ) {
                    Err(e) => SetResourceAction::Reply(
                        Err(Error::DecryptResourceDataFailed(prefixed("resource data error: ", e.as_str()))),
                    ),
                    Ok(cipher) => {
                        self.stage = SetResourceStage::AwaitingPlaintext;
                        SetResourceAction::Decrypt(cipher)
                    },
                },
                _ => {
                    proof {
                        assert(false);
                    }
                    SetResourceAction::LookupSession
                },
            },
            SetResourceStage::AwaitingPlaintext => match event {
                SetResourceEvent::DecryptFailed(e) => SetResourceAction::Reply(
                    Err(
                        Error::DecryptResourceDataFailed(
                            prefixed("decrypt resource data failed: ", e.as_str()),
                        ),
                    ),
                ),
                SetResourceEvent::Decrypted(data) => self.decide_after_decryption(data),
                _ => {
                    proof {
                        assert(false);
                    }
                    SetResourceAction::LookupSession
                },
            },
            SetResourceStage::AwaitingSeedCheck(desc, data) => match event {
                SetResourceEvent::SeedsChecked(Ok(())) => {
                    self.stage = SetResourceStage::AwaitingWrite;
                    SetResourceAction::Write(desc, data)
                },
                SetResourceEvent::SeedsChecked(Err(SeedCheckFailure::CfsUnavailable(e))) =>
                    SetResourceAction::Reply(
                    Err(Error::SetSecretFailed(prefixed("new cfs error: ", e.as_str()))),
                ),
                SetResourceEvent::SeedsChecked(Err(SeedCheckFailure::Rejected(e))) => {
                    let mut m = desc.repository_name.clone();
                    m.append(" seeds are invalid: ");
                    m.append(e.as_str());
                    SetResourceAction::Reply(Err(Error::SetSecretFailed(m)))
                },
                _ => {
                    proof {
                        assert(false);
                    }
                    SetResourceAction::LookupSession
                },
            },
            SetResourceStage::AwaitingOwnerCheck(desc, data) => match event {
                SetResourceEvent::OwnerValidated(Ok(())) => {
                    self.stage = SetResourceStage::AwaitingWrite;
                    SetResourceAction::Write(desc, data)
                },
                SetResourceEvent::OwnerValidated(Err(e)) => SetResourceAction::Reply(
                    owner_verdict(Err(e)),
                ),
                _ => {
                    proof {
                        assert(false);
                    }
                    SetResourceAction::LookupSession
                },
            },
            SetResourceStage::AwaitingWrite => match event {
                SetResourceEvent::Written(Ok(())) => SetResourceAction::Reply(Ok(())),
                SetResourceEvent::Written(Err(e)) => SetResourceAction::Reply(
                    Err(Error::SetSecretFailed(e)),
                ),
                _ => {
                    proof {
                        assert(false);
                    }
                    SetResourceAction::LookupSession
                },
            },
            SetResourceStage::Done => {
                proof {
                    assert(false);
                }
                SetResourceAction::LookupSession
            },
        }
    }

    fn decide_after_decryption(&mut self, data: Vec<u8>) -> (action: SetResourceAction)
        ensures
            final(self).request@ == old(self).request@,
            (final(self).stage@, action@) == after_decryption(old(self).request@, data@),
    {
        match str_from_utf8(data.as_slice()) {
            Err(e) => {
                self.stage = SetResourceStage::Done;
                return SetResourceAction::Reply(
                    Err(Error::DecryptResourceDataFailed(
                        prefixed("get resource string failed: ", e.as_str()),
                    )),
                );
            },
            Ok(_) => {},
        }
        let resource_type = match &self.request.resource_type {
            Some(t) => t.clone(),
            None => {
                self.stage = SetResourceStage::Done;
                return SetResourceAction::Reply(Err(missing_param("type")));
            },
        };
        let resource_tag = match &self.request.resource_tag {
            Some(t) => t.clone(),
            None => {
                self.stage = SetResourceStage::Done;
                return SetResourceAction::Reply(Err(missing_param("tag")));
            },
        };
        let repository_name = match &self.request.repository {
            Some(r) => r.clone(),
            None => "default".to_string(),
        };
        let desc = ResourceDesc { repository_name, resource_type, resource_tag };
        if self.request.insecure {
            self.stage = SetResourceStage::AwaitingWrite;
            SetResourceAction::Write(desc, data)
        } else if is_seeds_desc(&desc) {
            let seeds = data.clone();
            self.stage = SetResourceStage::AwaitingSeedCheck(desc, data);
            SetResourceAction::VerifySeeds(seeds)
        } else if self.request.user_key_present {
            self.stage = SetResourceStage::AwaitingOwnerCheck(desc, data);
            SetResourceAction::ValidateOwner
        } else {
            self.stage = SetResourceStage::Done;
            SetResourceAction::Reply(Err(Error::UserPublicKeyNotProvided))
        }
    }
}

/// Whether the resource is the confidential file system's seeds.
pub fn is_seeds_desc(d: &ResourceDesc) -> (res: bool)
    ensures
        res == is_seeds(d@),
{
    str_eq(d.resource_type.as_str(), "seeds") && str_eq(d.resource_tag.as_str(), "seeds")
}

/// The stage reached and the work handed out, in order, when a request meets
/// the reports `events` in turn from its start; `None` when one of them was not
/// the report its stage waited for.
pub open spec fn set_resource_run(req: SetResourceRequestView, events: Seq<SetResourceEventView>) -> Option<
    (SetResourceStageView, Seq<SetResourceActionView>),
>
    decreases events.len(),
{
    if events.len() == 0 {
        Some((SetResourceStageView::AwaitingSession, seq![SetResourceActionView::LookupSession]))
    } else {
        match set_resource_run(req, events.drop_last()) {
            None => None,
            Some((stage, actions)) => match set_resource_step(req, stage, events.last()) {
                None => None,
                Some((next, action)) => Some((next, actions.push(action))),
            },
        }
    }
}

/// An action that answers the request.
pub open spec fn is_reply(a: SetResourceActionView) -> bool {
    a is ReplyOk || a is ReplyErr
}

/// An action that asks an outside party to vouch for the requester.
pub open spec fn asks_check(a: SetResourceActionView) -> bool {
    a is VerifySeeds || a is ValidateOwner
}

/// A report that the outside work failed or refused the request, or that the
/// session was found for a body that is no encrypted response.
pub open spec fn is_failure(req: SetResourceRequestView, e: SetResourceEventView) -> bool {
    ||| e == SetResourceEventView::Session(SessionLookup::NoCookie)
    ||| e == SetResourceEventView::Session(SessionLookup::UnknownSession)
    ||| e == SetResourceEventView::Session(SessionLookup::Found) && encrypted_response_error(
        req.body,
    ) is Some
    ||| e is DecryptFailed
    ||| e is SeedsCfsUnavailable
    ||| e is SeedsRejected
    ||| e is OwnerRejected
    ||| e is WriteFailed
}

/// What must hold when the `i`-th action of a run stores `data` as `d`: among
/// others, `data` is what decrypting the response read from the request's own
/// body gave back.
pub open spec fn write_justified(
    req: SetResourceRequestView,
    events: Seq<SetResourceEventView>,
    actions: Seq<SetResourceActionView>,
    d: ResourceDescView,
    data: Seq<u8>,
    i: int,
) -> bool {
    &&& 1 <= i <= events.len()
    &&& req.resource_type is Some
    &&& req.resource_tag is Some
    &&& d == requested_desc(req)
    &&& encrypted_response_error(req.body) is None
    &&& valid_utf8(data)
    &&& exists|j: int|
        0 <= j < i && #[trigger] events[j] == SetResourceEventView::Decrypted(data) && actions[j]
            == SetResourceActionView::Decrypt(encrypted_response(req.body))
    &&& {
        ||| req.insecure && events[i - 1] == SetResourceEventView::Decrypted(data)
        ||| !req.insecure && is_seeds(d) && events[i - 1] == SetResourceEventView::SeedsOk
        ||| !req.insecure && !is_seeds(d) && req.user_key_present && events[i - 1]
            == SetResourceEventView::OwnerOk
    }
}

/// What must hold when the `i`-th action of a run asks for the seeds check
/// (`seeds`) or for the owner's token to be validated: the decrypted body has
/// just come in as valid text, the broker is not insecure, and the URL names
/// the type `seeds` and the tag `seeds` exactly when the seeds are checked;
/// the owner is asked only where the owner's key is configured.
pub open spec fn check_justified(
    req: SetResourceRequestView,
    events: Seq<SetResourceEventView>,
    seeds: bool,
    i: int,
) -> bool {
    &&& 1 <= i <= events.len()
    &&& events[i - 1] is Decrypted
    &&& valid_utf8(events[i - 1]->Decrypted_0)
    &&& !req.insecure
    &&& (req.resource_type == Some("seeds"@) && req.resource_tag == Some("seeds"@)) == seeds
    &&& req.resource_type is Some && req.resource_tag is Some
    &&& !seeds ==> req.user_key_present
}

/// What a run keeps of its stage.
pub open spec fn stage_invariant(
    req: SetResourceRequestView,
    events: Seq<SetResourceEventView>,
    stage: SetResourceStageView,
    actions: Seq<SetResourceActionView>,
) -> bool {
    match stage {
        SetResourceStageView::AwaitingSeedCheck(d, data) => {
            &&& events.len() >= 1
            &&& events.last() == SetResourceEventView::Decrypted(data)
            &&& actions[events.len() - 1] == SetResourceActionView::Decrypt(
                encrypted_response(req.body),
            )
            &&& req.resource_type is Some
            &&& req.resource_tag is Some
            &&& d == requested_desc(req)
            &&& encrypted_response_error(req.body) is None
            &&& valid_utf8(data)
            &&& !req.insecure
            &&& is_seeds(d)
        },
        SetResourceStageView::AwaitingOwnerCheck(d, data) => {
            &&& events.len() >= 1
            &&& events.last() == SetResourceEventView::Decrypted(data)
            &&& actions[events.len() - 1] == SetResourceActionView::Decrypt(
                encrypted_response(req.body),
            )
            &&& req.resource_type is Some
            &&& req.resource_tag is Some
            &&& d == requested_desc(req)
            &&& encrypted_response_error(req.body) is None
            &&& valid_utf8(data)
            &&& !req.insecure
            &&& !is_seeds(d)
            &&& req.user_key_present
        },
        SetResourceStageView::AwaitingWrite => actions.last() is Write,
        SetResourceStageView::Done => is_reply(actions.last()),
        SetResourceStageView::AwaitingPlaintext => actions.last()
            == SetResourceActionView::Decrypt(encrypted_response(req.body))
            && encrypted_response_error(req.body) is None,
        _ => !is_reply(actions.last()),
    }
}

/// Everything a run keeps, proved by induction over its reports.
proof fn lemma_run(req: SetResourceRequestView, events: Seq<SetResourceEventView>)
    requires
        set_resource_run(req, events) is Some,
    ensures
        ({
            let (stage, actions) = set_resource_run(req, events)->0;
            &&& actions.len() == events.len() + 1
            &&& stage_invariant(req, events, stage, actions)
            &&& forall|i: int| 0 <= i < actions.len() - 1 ==> !is_reply(#[trigger] actions[i])
            &&& forall|i: int|
                0 <= i < actions.len() && #[trigger] actions[i] is Write ==> write_justified(
                    req,
                    events,
                    actions,
                    actions[i]->Write_0,
                    actions[i]->Write_1,
                    i,
                )
            &&& forall|i: int|
                0 <= i < events.len() && is_failure(req, #[trigger] events[i]) ==> actions[i + 1] is ReplyErr
            &&& forall|i: int|
                0 <= i < actions.len() && #[trigger] actions[i] is ReplyOk ==> {
                    &&& i >= 2
                    &&& events[i - 1] == SetResourceEventView::WriteOk
                    &&& actions[i - 1] is Write
                }
            &&& forall|i: int|
                0 <= i < actions.len() && asks_check(#[trigger] actions[i]) ==> !req.insecure
            &&& forall|i: int|
                0 <= i < actions.len() && #[trigger] actions[i] is VerifySeeds ==> check_justified(
                    req,
                    events,
                    true,
                    i,
                ) && events[i - 1] == SetResourceEventView::Decrypted(actions[i]->VerifySeeds_0)
            &&& forall|i: int|
                0 <= i < actions.len() && #[trigger] actions[i] is ValidateOwner ==> check_justified(
                    req,
                    events,
                    false,
                    i,
                )
        }),
    decreases events.len(),
{
    if events.len() == 0 {
        return;
    }
    let prev = events.drop_last();
    lemma_run(req, prev);
    let (stage0, actions0) = set_resource_run(req, prev)->0;
    let e = events.last();
    let (stage, action) = set_resource_step(req, stage0, e)->0;
    let actions = actions0.push(action);
    assert(set_resource_run(req, events)->0 == (stage, actions));
    assert forall|j: int| 0 <= j < prev.len() implies #[trigger] prev[j] == events[j] by {}
    assert(events[events.len() - 1] == e);
    assert forall|i: int|
        0 <= i < actions.len() && #[trigger] actions[i] is Write implies write_justified(
            req,
            events,
            actions,
            actions[i]->Write_0,
            actions[i]->Write_1,
            i,
        ) by {
        if i < actions0.len() {
            assert(actions[i] == actions0[i]);
            assert(write_justified(req, prev, actions0, actions0[i]->Write_0, actions0[i]->Write_1, i));
            let j = choose|j: int|
                0 <= j < i && #[trigger] prev[j] == SetResourceEventView::Decrypted(actions0[i]->Write_1)
                    && actions0[j] == SetResourceActionView::Decrypt(encrypted_response(req.body));
            assert(events[j] == prev[j]);
            assert(actions[j] == actions0[j]);
        } else {
            assert(actions[i] == action);
            match stage0 {
                SetResourceStageView::AwaitingSeedCheck(d, data) => {
                    assert(events[events.len() - 2] == prev.last());
                    assert(actions[events.len() - 2] == actions0[events.len() - 2]);
                },
                SetResourceStageView::AwaitingOwnerCheck(d, data) => {
                    assert(events[events.len() - 2] == prev.last());
                    assert(actions[events.len() - 2] == actions0[events.len() - 2]);
                },
                _ => {
                    assert(events[events.len() - 1] == e);
                    assert(actions[events.len() - 1] == actions0.last());
                },
            }
        }
    }
    assert forall|i: int| 0 <= i < events.len() && is_failure(req, #[trigger] events[i]) implies actions[i
        + 1] is ReplyErr by {
        if i < prev.len() {
            assert(prev[i] == events[i]);
        }
    }
    assert forall|i: int| 0 <= i < actions.len() && #[trigger] actions[i] is ReplyOk implies {
        &&& i >= 2
        &&& events[i - 1] == SetResourceEventView::WriteOk
        &&& actions[i - 1] is Write
    } by {
        if i < actions0.len() {
            assert(actions[i] == actions0[i]);
            assert(actions[i - 1] == actions0[i - 1]);
            assert(prev[i - 1] == events[i - 1]);
        } else {
            assert(actions[i - 1] == actions0.last());
        }
    }
    assert forall|i: int| 0 <= i < actions.len() - 1 implies !is_reply(#[trigger] actions[i]) by {
        assert(actions[i] == actions0[i]);
    }
    assert forall|i: int| 0 <= i < actions.len() && asks_check(#[trigger] actions[i]) implies !req.insecure by {
        if i < actions0.len() {
            assert(actions[i] == actions0[i]);
        }
    }
    assert forall|i: int| 0 <= i < actions.len() && #[trigger] actions[i] is VerifySeeds implies check_justified(
        req,
        events,
        true,
        i,
    ) && events[i - 1] == SetResourceEventView::Decrypted(actions[i]->VerifySeeds_0) by {
        if i < actions0.len() {
            assert(actions[i] == actions0[i]);
            assert(events[i - 1] == prev[i - 1]);
        } else {
            assert(events[i - 1] == e);
        }
    }
    assert forall|i: int| 0 <= i < actions.len() && #[trigger] actions[i] is ValidateOwner implies check_justified(
        req,
        events,
        false,
        i,
    ) by {
        if i < actions0.len() {
            assert(actions[i] == actions0[i]);
            assert(events[i - 1] == prev[i - 1]);
        } else {
            assert(events[i - 1] == e);
        }
    }
}

/// Law: the broker stores a resource only as the request's URL names it, only
/// as the valid UTF-8 plaintext that decrypting the response read from the
/// request's own body gave back, and only after the requester was authorized:
/// by an insecure broker, by the seeds check for the confidential file
/// system's seeds, or else by the owner's token.
pub proof fn law_write_requires_authorization(
    req: SetResourceRequestView,
    events: Seq<SetResourceEventView>,
)
    requires
        set_resource_run(req, events) is Some,
    ensures
        ({
            let actions = (set_resource_run(req, events)->0).1;
            forall|i: int|
                0 <= i < actions.len() && #[trigger] actions[i] is Write ==> write_justified(
                    req,
                    events,
                    actions,
                    actions[i]->Write_0,
                    actions[i]->Write_1,
                    i,
                )
        }),
{
    lemma_run(req, events);
}

/// Law: a request is answered once, by its last action, exactly when it is
/// done, and a done request takes no further report.
pub proof fn law_single_reply(req: SetResourceRequestView, events: Seq<SetResourceEventView>)
    requires
        set_resource_run(req, events) is Some,
    ensures
        ({
            let (stage, actions) = set_resource_run(req, events)->0;
            &&& actions.len() == events.len() + 1
            &&& forall|i: int| 0 <= i < actions.len() - 1 ==> !is_reply(#[trigger] actions[i])
            &&& (stage == SetResourceStageView::Done) == is_reply(actions.last())
            &&& stage == SetResourceStageView::Done ==> forall|e: SetResourceEventView|
                #[trigger] set_resource_step(req, stage, e) is None
        }),
{
    lemma_run(req, events);
}

/// Law: every failed or refused piece of outside work, and a body that is no
/// encrypted response, is answered with an error at once, and success is
/// answered only right after the resource was stored.
pub proof fn law_failures_answered(req: SetResourceRequestView, events: Seq<SetResourceEventView>)
    requires
        set_resource_run(req, events) is Some,
    ensures
        ({
            let actions = (set_resource_run(req, events)->0).1;
            &&& forall|i: int|
                0 <= i < events.len() && is_failure(req, #[trigger] events[i]) ==> actions[i + 1] is ReplyErr
            &&& forall|i: int|
                0 <= i < actions.len() && #[trigger] actions[i] is ReplyOk ==> {
                    &&& i >= 2
                    &&& events[i - 1] == SetResourceEventView::WriteOk
                    &&& actions[i - 1] is Write
                }
        }),
{
    lemma_run(req, events);
}

/// Law: a broker that runs insecure never asks anyone to vouch for the
/// requester.
pub proof fn law_insecure_checks_nobody(req: SetResourceRequestView, events: Seq<SetResourceEventView>)
    requires
        set_resource_run(req, events) is Some,
        req.insecure,
    ensures
        ({
            let actions = (set_resource_run(req, events)->0).1;
            forall|i: int| 0 <= i < actions.len() ==> !asks_check(#[trigger] actions[i])
        }),
{
    lemma_run(req, events);
}

/// Law: a resource is stored under the names in the request's URL: its type
/// is the URL's type, its tag the URL's tag, and its repository the URL's
/// repository, or `default` when the URL names none.
pub proof fn law_written_resource_names(req: SetResourceRequestView, events: Seq<SetResourceEventView>)
    requires
        set_resource_run(req, events) is Some,
    ensures
        ({
            let actions = (set_resource_run(req, events)->0).1;
            forall|i: int|
                0 <= i < actions.len() && #[trigger] actions[i] is Write ==> {
                    &&& req.resource_type == Some(actions[i]->Write_0.resource_type)
                    &&& req.resource_tag == Some(actions[i]->Write_0.resource_tag)
                    &&& actions[i]->Write_0.repository_name == match req.repository {
                        Some(r) => r,
                        None => "default"@,
                    }
                }
        }),
{
    lemma_run(req, events);
}

/// Law: the confidential file system's seeds check is asked for exactly the
/// resource whose URL type and tag are both `seeds`, with the decrypted seeds
/// themselves; the owner's token is validated for every other resource, and
/// only when the owner's key is configured; neither happens on an insecure
/// broker or before the body decrypted to valid text.
pub proof fn law_who_vouches(req: SetResourceRequestView, events: Seq<SetResourceEventView>)
    requires
        set_resource_run(req, events) is Some,
    ensures
        ({
            let actions = (set_resource_run(req, events)->0).1;
            &&& forall|i: int|
                0 <= i < actions.len() && #[trigger] actions[i] is VerifySeeds ==> check_justified(
                    req,
                    events,
                    true,
                    i,
                ) && events[i - 1] == SetResourceEventView::Decrypted(actions[i]->VerifySeeds_0)
            &&& forall|i: int|
                0 <= i < actions.len() && #[trigger] actions[i] is ValidateOwner ==> check_justified(
                    req,
                    events,
                    false,
                    i,
                )
        }),
{
    lemma_run(req, events);
}

} // verus!
