use vstd::prelude::*;
use vstd::utf8::{decode_utf8, valid_utf8};
use crate::error::{missing_param, missing_param_message, prefixed, Error, ErrorView};
use crate::text::{lowercase, str_from_utf8, str_to_lowercase, utf8_error_text};

verus! {

/// The endpoints that hand work to the confidential file system service.
#[derive(Debug)]
pub enum CfsEndpoint {
    MintFilesystem,
    GetFilesystem,
    BurnFilesystem,
    GetAccountMetaTx,
    GetWellKnown,
    GetCommands,
}

/// The steps of such an endpoint that can fail.
#[derive(Debug)]
pub enum CfsStep {
    /// Decoding the request body.
    RequestData,
    /// Connecting to the service.
    NewCfs,
    /// The service's own operation.
    Operation,
    /// Encoding the service's answer as JSON.
    EncodeResponse,
    /// Reading the service's answer as UTF-8 text.
    DecodeResponse,
}

/// Which steps each endpoint has.
pub open spec fn cfs_step_applies(endpoint: CfsEndpoint, step: CfsStep) -> bool {
    match step {
        CfsStep::RequestData => endpoint is MintFilesystem || endpoint is BurnFilesystem,
        CfsStep::NewCfs | CfsStep::Operation => true,
        CfsStep::EncodeResponse => !(endpoint is BurnFilesystem) && !(endpoint is GetCommands),
        CfsStep::DecodeResponse => endpoint is GetCommands,
    }
}

/// How an endpoint introduces the failure of one of its steps.
pub open spec fn cfs_failure_prefix(endpoint: CfsEndpoint, step: CfsStep) -> Seq<char> {
    match step {
        CfsStep::RequestData => match endpoint {
            CfsEndpoint::MintFilesystem => "mint request data error: "@,
            _ => "burn request data error: "@,
        },
        CfsStep::NewCfs => "new cfs error: "@,
        CfsStep::Operation => match endpoint {
            CfsEndpoint::MintFilesystem => "mint filesystem error: "@,
            CfsEndpoint::GetFilesystem => "get filesystem error: "@,
            CfsEndpoint::BurnFilesystem => "burn filesystem error: "@,
            CfsEndpoint::GetAccountMetaTx => "get account metatx error: "@,
            CfsEndpoint::GetWellKnown => "get wellknown config error: "@,
            CfsEndpoint::GetCommands => "get commands error: "@,
        },
        CfsStep::EncodeResponse => "Serialize response failed "@,
        CfsStep::DecodeResponse => "Convert response error: "@,
    }
}

/// The error variant of each endpoint, carrying `message`.
pub open spec fn cfs_error(endpoint: CfsEndpoint, message: Seq<char>) -> ErrorView {
    match endpoint {
        CfsEndpoint::MintFilesystem => ErrorView::MintFilesystemFailed(message),
        CfsEndpoint::GetFilesystem => ErrorView::GetFilesystemFailed(message),
        CfsEndpoint::BurnFilesystem => ErrorView::BurnFilesystemFailed(message),
        CfsEndpoint::GetAccountMetaTx => ErrorView::GetAccountMetaTxFailed(message),
        CfsEndpoint::GetWellKnown => ErrorView::GetWellKnownCfgFailed(message),
        CfsEndpoint::GetCommands => ErrorView::GetCommandsFailed(message),
    }
}

/// The error of an endpoint whose `step` failed with `detail`.
pub fn cfs_failure(endpoint: CfsEndpoint, step: CfsStep, detail: &str) -> (res: Error)
    requires
        cfs_step_applies(endpoint, step),
    ensures
        res@ == cfs_error(endpoint, cfs_failure_prefix(endpoint, step) + detail@),
{
    let prefix = match step {
        CfsStep::RequestData => match endpoint {
            CfsEndpoint::MintFilesystem => "mint request data error: ",
            _ => "burn request data error: ",
        },
        CfsStep::NewCfs => "new cfs error: ",
        CfsStep::Operation => match endpoint {
            CfsEndpoint::MintFilesystem => "mint filesystem error: ",
            CfsEndpoint::GetFilesystem => "get filesystem error: ",
            CfsEndpoint::BurnFilesystem => "burn filesystem error: ",
            CfsEndpoint::GetAccountMetaTx => "get account metatx error: ",
            CfsEndpoint::GetWellKnown => "get wellknown config error: ",
            CfsEndpoint::GetCommands => "get commands error: ",
        },
        CfsStep::EncodeResponse => "Serialize response failed ",
        CfsStep::DecodeResponse => "Convert response error: ",
    };
    let message = prefixed(prefix, detail);
    match endpoint {
        CfsEndpoint::MintFilesystem => Error::MintFilesystemFailed(message),
        CfsEndpoint::GetFilesystem => Error::GetFilesystemFailed(message),
        CfsEndpoint::BurnFilesystem => Error::BurnFilesystemFailed(message),
        CfsEndpoint::GetAccountMetaTx => Error::GetAccountMetaTxFailed(message),
        CfsEndpoint::GetWellKnown => Error::GetWellKnownCfgFailed(message),
        CfsEndpoint::GetCommands => Error::GetCommandsFailed(message),
    }
}

/// A request for an account's commands, once validated.
#[derive(Debug)]
pub struct CommandsQuery {
    /// The account address, lowercased.
    pub addr: String,
    /// The request body as text.
    pub extra_request: String,
}

/// Validates a commands request: the URL must name the account address, which
/// is lowercased, and the body must be UTF-8 text.
pub fn commands_request(addr: Option<String>, body: &[u8]) -> (res: Result<CommandsQuery, Error>)
    ensures
        addr is None ==> (res matches Err(e) && e@ == ErrorView::InvalidRequest(
            missing_param_message("addr"@),
        )),
        addr is Some && !valid_utf8(body@) ==> (res matches Err(e) && e@ == ErrorView::InvalidRequest(
            "illegal extra request: "@ + utf8_error_text(body@),
        )),
        valid_utf8(body@) ==> (addr matches Some(a) ==> (res matches Ok(q) && q.addr@ == lowercase(
            a@,
        ) && q.extra_request@ == decode_utf8(body@))),
{
    let addr = match addr {
        Some(a) => str_to_lowercase(a.as_str()),
        None => {
            return Err(missing_param("addr"));
        },
    };
    match str_from_utf8(body) {
        Ok(text) => {
            proof {
                vstd::utf8::encode_utf8_decode_utf8(text@);
            }
            Ok(CommandsQuery { addr, extra_request: text.to_string() })
        },
        Err(e) => Err(Error::InvalidRequest(prefixed("illegal extra request: ", e.as_str()))),
    }
}

/// The commands the service returned, as text; a non-UTF-8 answer is a failure.
pub fn commands_response(answer: &[u8]) -> (res: Result<String, Error>)
    ensures
        valid_utf8(answer@) ==> (res matches Ok(t) && t@ == decode_utf8(answer@)),
        !valid_utf8(answer@) ==> (res matches Err(e) && e@ == cfs_error(
            CfsEndpoint::GetCommands,
            "Convert response error: "@ + utf8_error_text(answer@),
        )),
{
    match str_from_utf8(answer) {
        Ok(text) => {
            proof {
                vstd::utf8::encode_utf8_decode_utf8(text@);
            }
            Ok(text.to_string())
        },
        Err(e) => Err(cfs_failure(CfsEndpoint::GetCommands, CfsStep::DecodeResponse, e.as_str())),
    }
}

} // verus!
