//! Tests of the wire-string parsers: hex fields, the decimal nonce, the
//! entry-point validity rule, and the error taxonomy's reporting shape.

use permit_relay::error::InjectStatementError;
use permit_relay::parse::{check_entrypoint, decode_signature, decode_token_id, hex_decode,
    parse_u64_decimal};

#[test]
fn hex_decode_valid() {
    assert_eq!(hex_decode("00ff2a"), Some(vec![0x00, 0xff, 0x2a]));
    assert_eq!(hex_decode("AbCd"), Some(vec![0xab, 0xcd]));
    assert_eq!(hex_decode(""), Some(Vec::new()));
}

#[test]
fn hex_decode_rejects_bad_input() {
    assert_eq!(hex_decode("zz"), None);
    assert_eq!(hex_decode("0"), None);
    assert_eq!(hex_decode("0g"), None);
}

#[test]
fn token_id_decoding() {
    assert_eq!(decode_token_id("00").map(|t| t.0), Some(vec![0u8]));
    assert_eq!(decode_token_id("zz").map(|t| t.0), None);
    let long = "00".repeat(255);
    assert_eq!(decode_token_id(&long).map(|t| t.0), Some(vec![0u8; 255]));
    let too_long = "00".repeat(256);
    assert!(decode_token_id(&too_long).is_none());
}

#[test]
fn nonce_decimal_parsing() {
    assert_eq!(parse_u64_decimal("0"), Some(0));
    assert_eq!(parse_u64_decimal("123"), Some(123));
    assert_eq!(parse_u64_decimal("18446744073709551615"), Some(u64::MAX));
    assert_eq!(parse_u64_decimal("18446744073709551616"), None);
    assert_eq!(parse_u64_decimal(""), None);
    assert_eq!(parse_u64_decimal("12a"), None);
    assert_eq!(parse_u64_decimal("-1"), None);
}

#[test]
fn signature_hex_must_be_64_bytes() {
    let good = "ab".repeat(64);
    let sig = decode_signature(&good).expect("128 hex digits decode");
    assert_eq!(sig.0, [0xabu8; 64]);
    assert!(decode_signature(&"ab".repeat(63)).is_none());
    assert!(decode_signature(&"zz".repeat(64)).is_none());
}

#[test]
fn entrypoint_validity() {
    let ep = check_entrypoint("transfer").expect("plain name is valid");
    assert_eq!(ep.0, b"transfer".to_vec());
    assert!(check_entrypoint("updateOperator").is_some());
    assert!(check_entrypoint("with space").is_none());
    assert!(check_entrypoint("tab\tname").is_none());
    assert!(check_entrypoint(&"x".repeat(100)).is_none());
    assert!(check_entrypoint(&"x".repeat(99)).is_some());
}

#[test]
fn entrypoint_validity_agrees_with_chain_library() {
    let long_ok = "x".repeat(99);
    let long_bad = "x".repeat(100);
    let samples = vec![
        "transfer",
        "updateOperator",
        "",
        "with space",
        "dot.name",
        "punct-_!",
        "na\u{ef}ve",
        long_ok.as_str(),
        long_bad.as_str(),
    ];
    for s in samples {
        let theirs =
            concordium_contracts_common::OwnedEntrypointName::new(s.to_string()).is_ok();
        assert_eq!(check_entrypoint(s).is_some(), theirs, "entrypoint {s:?}");
    }
}

#[test]
fn error_codes_and_messages() {
    let cases: Vec<(InjectStatementError, u16, &str)> = vec![
        (InjectStatementError::AccountInfoQueryError, 502, "Account info query error."),
        (
            InjectStatementError::SumbitSponsoredTransactionError,
            502,
            "Sumbit sponsored transaction error.",
        ),
        (InjectStatementError::AccountFromStringError, 400, "Account from_str error."),
        (InjectStatementError::OwnedReceiveNameError, 500, "Owned received name error."),
        (InjectStatementError::TokenIdError, 400, "TokenId error."),
        (InjectStatementError::TokenAmountError, 400, "TokenAmount error."),
        (InjectStatementError::ParameterError, 400, "Parameter error."),
        (InjectStatementError::SignatureError, 400, "Signature error."),
        (InjectStatementError::AdditionalDataError, 400, "AdditionalData error."),
        (InjectStatementError::NonceMismatchError, 400, "Nonce mismatch error."),
    ];
    for (e, code, message) in cases {
        let r = e.to_response();
        assert_eq!(r.code, code);
        assert_eq!(r.message, message);
    }
    let node = InjectStatementError::NodeAccess("timed out".to_string());
    let r = node.to_response();
    assert_eq!(r.code, 502);
    assert_eq!(r.message, "Node access error: timed out");
}
