use xchain_sdk::errors::Error;
use xchain_sdk::errors::ErrorKind;

#[test]
fn test_code_round_trip() {
    let kinds = [
        ErrorKind::InvalidArguments,
        ErrorKind::ParseError,
        ErrorKind::CryptoError,
        ErrorKind::ChainRPCError,
        ErrorKind::ContractCodeGT400,
    ];
    for kind in kinds {
        let code: u32 = Error::from(kind).into_code();
        assert_ne!(code, 0);
        assert_eq!(Error::from(code).kind(), kind);
    }
}

#[test]
fn test_encode_table() {
    assert_eq!(Error::from(ErrorKind::InvalidArguments).into_code(), 1);
    assert_eq!(Error::from(ErrorKind::ParseError).into_code(), 2);
    assert_eq!(Error::from(ErrorKind::CryptoError).into_code(), 3);
    assert_eq!(Error::from(ErrorKind::ChainRPCError).into_code(), 4);
    assert_eq!(Error::from(ErrorKind::ContractCodeGT400).into_code(), 5);
    assert_eq!(Error::from(ErrorKind::Unknown).into_code(), 0xffff_ffff);
}

#[test]
fn test_decode_unknown_codes() {
    for code in [0u32, 6, 7, 400, 401, 1000, 0xffff_ffff, 0xdead_beef] {
        assert_eq!(Error::from(code).kind(), ErrorKind::Unknown);
    }
    assert_eq!(Error::from(3u32).kind(), ErrorKind::CryptoError);
}

#[test]
fn test_as_str_labels() {
    assert_eq!(ErrorKind::InvalidArguments.as_str(), "invalid arguments");
    assert_eq!(ErrorKind::ParseError.as_str(), "parsing error");
    assert_eq!(ErrorKind::CryptoError.as_str(), "crypto error");
    assert_eq!(ErrorKind::ChainRPCError.as_str(), "rpc to chain node error");
    assert_eq!(
        ErrorKind::ContractCodeGT400.as_str(),
        "contract invoking return code greater than 400"
    );
    assert_eq!(ErrorKind::Unknown.as_str(), "unknown error");
}

#[test]
fn test_into_simple_error_keeps_kind_drops_cause() {
    let rich = Error::new(ErrorKind::CryptoError, String::from("bad signature"));
    assert_eq!(rich.kind(), ErrorKind::CryptoError);
    assert_eq!(rich.get_ref().map(|s| s.as_str()), Some("bad signature"));
    let simple = rich.into_simple_error();
    assert_eq!(simple.kind(), ErrorKind::CryptoError);
    assert!(simple.get_ref().is_none());
    // compacting again changes nothing: already-bare errors come back
    // unchanged
    let twice = simple.into_simple_error();
    assert_eq!(twice.kind(), ErrorKind::CryptoError);
    assert!(twice.into_inner().is_none());
}

#[test]
fn test_custom_error_accessors() {
    let mut e = Error::new(ErrorKind::ChainRPCError, String::from("timed out"));
    assert_eq!(e.kind(), ErrorKind::ChainRPCError);
    assert_eq!(e.get_ref().map(|s| s.as_str()), Some("timed out"));
    if let Some(cause) = e.get_mut() {
        cause.push_str(" twice");
    } else {
        panic!("a custom error must carry its cause");
    }
    assert_eq!(e.get_ref().map(|s| s.as_str()), Some("timed out twice"));
    assert_eq!(e.kind(), ErrorKind::ChainRPCError);
    assert_eq!(e.into_inner().as_deref(), Some("timed out twice"));
}

#[test]
fn test_simple_error_has_no_cause() {
    let mut e = Error::from(ErrorKind::InvalidArguments);
    assert!(e.get_ref().is_none());
    assert!(e.get_mut().is_none());
    assert_eq!(e.kind(), ErrorKind::InvalidArguments);
    assert!(e.into_inner().is_none());
}

#[test]
fn test_unknown_constructor() {
    let e = Error::unknown();
    assert_eq!(e.kind(), ErrorKind::Unknown);
    assert!(e.get_ref().is_none());
    assert_eq!(e.into_code(), 0xffff_ffff);
}

#[test]
fn test_display_string() {
    let rich = Error::new(ErrorKind::ParseError, String::from("bad byte at 3"));
    assert_eq!(rich.display_string(), "bad byte at 3");
    let simple = Error::from(ErrorKind::ChainRPCError);
    assert_eq!(simple.display_string(), "rpc to chain node error");
    assert_eq!(Error::unknown().display_string(), "unknown error");
}

#[test]
fn test_from_hex_error() {
    let err = hex::decode("0g").unwrap_err();
    let e = Error::from_hex_error(err);
    assert_eq!(e.kind(), ErrorKind::ParseError);
    let cause = e.into_inner().expect("the hex failure must be recorded");
    assert_eq!(cause, "Invalid character 'g' at position 1");
}

#[test]
fn test_from_json_error() {
    let err = serde_json::from_str::<serde_json::Value>("{").unwrap_err();
    let e = Error::from_json_error(err);
    assert_eq!(e.kind(), ErrorKind::ParseError);
    let cause = e.into_inner().expect("the JSON failure must be recorded");
    assert_eq!(cause, "EOF while parsing an object at line 1 column 1");
}

#[test]
fn test_from_grpc_error() {
    let status = grpc::StatusError::new(grpc::StatusCodeError::Cancelled, "call dropped");
    let e = Error::from_grpc_error(status);
    assert_eq!(e.kind(), ErrorKind::ChainRPCError);
    assert_eq!(e.into_inner().as_deref(), Some("call dropped"));
}

#[test]
fn test_from_io_error() {
    let err = std::io::Error::new(std::io::ErrorKind::UnexpectedEof, "stream cut short");
    let e = Error::from_io_error(err);
    assert_eq!(e.kind(), ErrorKind::ParseError);
    assert_eq!(e.into_inner().as_deref(), Some("stream cut short"));
}
