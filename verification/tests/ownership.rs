use kbs::error::Error;
use kbs::ownership::{cfs_failure, commands_request, commands_response, CfsEndpoint, CfsStep};

fn message(e: Error) -> String {
    match e {
        Error::MintFilesystemFailed(m)
        | Error::GetFilesystemFailed(m)
        | Error::BurnFilesystemFailed(m)
        | Error::GetAccountMetaTxFailed(m)
        | Error::GetWellKnownCfgFailed(m)
        | Error::GetCommandsFailed(m) => m,
        other => panic!("unexpected {:?}", other),
    }
}

#[test]
fn cfs_failures_use_endpoint_variants() {
    assert!(matches!(cfs_failure(CfsEndpoint::MintFilesystem, CfsStep::RequestData, "x"), Error::MintFilesystemFailed(_)));
    assert!(matches!(cfs_failure(CfsEndpoint::GetFilesystem, CfsStep::NewCfs, "x"), Error::GetFilesystemFailed(_)));
    assert!(matches!(cfs_failure(CfsEndpoint::BurnFilesystem, CfsStep::Operation, "x"), Error::BurnFilesystemFailed(_)));
    assert!(matches!(cfs_failure(CfsEndpoint::GetAccountMetaTx, CfsStep::EncodeResponse, "x"), Error::GetAccountMetaTxFailed(_)));
    assert!(matches!(cfs_failure(CfsEndpoint::GetWellKnown, CfsStep::Operation, "x"), Error::GetWellKnownCfgFailed(_)));
    assert!(matches!(cfs_failure(CfsEndpoint::GetCommands, CfsStep::DecodeResponse, "x"), Error::GetCommandsFailed(_)));
}

#[test]
fn cfs_failure_messages() {
    let cases = [
        (CfsEndpoint::MintFilesystem, CfsStep::RequestData, "mint request data error: d"),
        (CfsEndpoint::BurnFilesystem, CfsStep::RequestData, "burn request data error: d"),
        (CfsEndpoint::GetWellKnown, CfsStep::NewCfs, "new cfs error: d"),
        (CfsEndpoint::MintFilesystem, CfsStep::Operation, "mint filesystem error: d"),
        (CfsEndpoint::GetFilesystem, CfsStep::Operation, "get filesystem error: d"),
        (CfsEndpoint::BurnFilesystem, CfsStep::Operation, "burn filesystem error: d"),
        (CfsEndpoint::GetAccountMetaTx, CfsStep::Operation, "get account metatx error: d"),
        (CfsEndpoint::GetWellKnown, CfsStep::Operation, "get wellknown config error: d"),
        (CfsEndpoint::GetCommands, CfsStep::Operation, "get commands error: d"),
        (CfsEndpoint::GetFilesystem, CfsStep::EncodeResponse, "Serialize response failed d"),
        (CfsEndpoint::GetCommands, CfsStep::DecodeResponse, "Convert response error: d"),
    ];
    for (endpoint, step, expected) in cases {
        assert_eq!(message(cfs_failure(endpoint, step, "d")), expected);
    }
}

#[test]
fn commands_address_is_lowercased() {
    let q = commands_request(Some("0xABcD".to_string()), b"{\"a\":1}").unwrap();
    assert_eq!(q.addr, "0xabcd");
    assert_eq!(q.extra_request, "{\"a\":1}");
}

#[test]
fn commands_request_needs_address() {
    match commands_request(None, b"x") {
        Err(Error::InvalidRequest(m)) => assert_eq!(m, "no `addr` in url"),
        other => panic!("unexpected {:?}", other),
    }
}

#[test]
fn commands_request_body_must_be_text() {
    match commands_request(Some("a".to_string()), &[0xe2, 0x82]) {
        Err(Error::InvalidRequest(m)) => {
            assert_eq!(m, "illegal extra request: incomplete utf-8 byte sequence from index 0")
        }
        other => panic!("unexpected {:?}", other),
    }
}

#[test]
fn commands_answer_must_be_text() {
    assert_eq!(commands_response(b"[1,2]").unwrap(), "[1,2]");
    match commands_response(&[0xff]) {
        Err(Error::GetCommandsFailed(m)) => {
            assert_eq!(m, "Convert response error: invalid utf-8 sequence of 1 bytes from index 0")
        }
        other => panic!("unexpected {:?}", other),
    }
}
