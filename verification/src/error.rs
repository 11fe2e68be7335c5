use vstd::prelude::*;
use crate::text::{debug_quoted, str_debug};

verus! {

/// The errors with which the broker answers a request.
#[derive(Debug)]
pub enum Error {
    UserPublicKeyNotProvided,
    FailedAuthentication(String),
    PolicyEndpoint(String),
    MissingCookie,
    InvalidCookie,
    DecryptResourceDataFailed(String),
    InvalidRequest(String),
    SetSecretFailed(String),
    EvidenceIssueFailed(String),
    MintFilesystemFailed(String),
    GetFilesystemFailed(String),
    BurnFilesystemFailed(String),
    GetAccountMetaTxFailed(String),
    GetWellKnownCfgFailed(String),
    GetCommandsFailed(String),
}

/// What an `Error` says: its variant and message.
pub enum ErrorView {
    UserPublicKeyNotProvided,
    FailedAuthentication(Seq<char>),
    PolicyEndpoint(Seq<char>),
    MissingCookie,
    InvalidCookie,
    DecryptResourceDataFailed(Seq<char>),
    InvalidRequest(Seq<char>),
    SetSecretFailed(Seq<char>),
    EvidenceIssueFailed(Seq<char>),
    MintFilesystemFailed(Seq<char>),
    GetFilesystemFailed(Seq<char>),
    BurnFilesystemFailed(Seq<char>),
    GetAccountMetaTxFailed(Seq<char>),
    GetWellKnownCfgFailed(Seq<char>),
    GetCommandsFailed(Seq<char>),
}

impl View for Error {
    type V = ErrorView;

    open spec fn view(&self) -> ErrorView {
        match self {
            Error::UserPublicKeyNotProvided => ErrorView::UserPublicKeyNotProvided,
            Error::FailedAuthentication(m) => ErrorView::FailedAuthentication(m@),
            Error::PolicyEndpoint(m) => ErrorView::PolicyEndpoint(m@),
            Error::MissingCookie => ErrorView::MissingCookie,
            Error::InvalidCookie => ErrorView::InvalidCookie,
            Error::DecryptResourceDataFailed(m) => ErrorView::DecryptResourceDataFailed(m@),
            Error::InvalidRequest(m) => ErrorView::InvalidRequest(m@),
            Error::SetSecretFailed(m) => ErrorView::SetSecretFailed(m@),
            Error::EvidenceIssueFailed(m) => ErrorView::EvidenceIssueFailed(m@),
            Error::MintFilesystemFailed(m) => ErrorView::MintFilesystemFailed(m@),
            Error::GetFilesystemFailed(m) => ErrorView::GetFilesystemFailed(m@),
            Error::BurnFilesystemFailed(m) => ErrorView::BurnFilesystemFailed(m@),
            Error::GetAccountMetaTxFailed(m) => ErrorView::GetAccountMetaTxFailed(m@),
            Error::GetWellKnownCfgFailed(m) => ErrorView::GetWellKnownCfgFailed(m@),
            Error::GetCommandsFailed(m) => ErrorView::GetCommandsFailed(m@),
        }
    }
}

/// `prefix` followed by `detail`.
pub fn prefixed(prefix: &str, detail: &str) -> (res: String)
    ensures
        res@ == prefix@ + detail@,
{
    let mut res = prefix.to_string();
    res.append(detail);
    res
}

/// The message of a request that lacks the parameter `name`.
pub open spec fn missing_param_message(name: Seq<char>) -> Seq<char> {
    "no `"@ + name + "` in url"@
}

/// The `InvalidRequest` of a request that lacks the parameter `name`.
pub fn missing_param(name: &str) -> (res: Error)
    ensures
        res@ == ErrorView::InvalidRequest(missing_param_message(name@)),
{
    let mut m = "no `".to_string();
    m.append(name);
    m.append("` in url");
    Error::InvalidRequest(m)
}

/// The value of a required request parameter, or `InvalidRequest` naming it.
pub fn required_param(value: Option<String>, name: &str) -> (res: Result<String, Error>)
    ensures
        value matches Some(v) ==> (res matches Ok(r) && r@ == v@),
        value is None ==> (res matches Err(Error::InvalidRequest(m)) && m@ == missing_param_message(
            name@,
        )),
{
    match value {
        Some(v) => Ok(v),
        None => Err(missing_param(name)),
    }
}

/// The message of an HTTP request that was not answered with `200 OK`: the
/// answer's body, quoted as `Debug` quotes text.
pub open spec fn request_failed_message(body: Seq<char>) -> Seq<char> {
    "Request Failed, Response: "@ + debug_quoted(body)
}

/// The body of an HTTP answer when its status is `200 OK`, else the failure
/// message that quotes the body.
pub fn ok_response_body(status: u16, body: String) -> (res: Result<String, String>)
    ensures
        status == 200 ==> (res matches Ok(b) && b@ == body@),
        status != 200 ==> (res matches Err(m) && m@ == request_failed_message(body@)),
{
    if status == 200 {
        Ok(body)
    } else {
        let quoted = str_debug(body.as_str());
        Err(prefixed("Request Failed, Response: ", quoted.as_str()))
    }
}

} // verus!
