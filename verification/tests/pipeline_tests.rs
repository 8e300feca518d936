//! End-to-end tests of the submission pipeline against a simulated node:
//! decoding, nonce strictness, signature verification, and submission.

use ed25519_dalek::Signer;
use permit_relay::error::InjectStatementError;
use permit_relay::codec::encode_message;
use permit_relay::pipeline::{
    decode_transfer_request, decode_update_operator_request, new_pipeline, step, PipelineState,
    RelayAction, RelayConfig, RelayEvent, RelayRequest,
};
use permit_relay::types::{
    ContractAddress, PermitPayload, TransferInputParams, UpdateOperatorInputParams,
};

fn account_string(byte: u8) -> String {
    concordium_contracts_common::AccountAddress([byte; 32]).to_string()
}

fn hex_of(bytes: &[u8]) -> String {
    let mut s = String::new();
    for b in bytes {
        s.push_str(&format!("{:02x}", b));
    }
    s
}

fn config() -> RelayConfig {
    RelayConfig {
        contract: ContractAddress { index: 1234, subindex: 0 },
        transfer_entry_point: "transfer".to_string(),
        update_operator_entry_point: "updateOperator".to_string(),
    }
}

fn transfer_params(nonce: &str, signature: String) -> TransferInputParams {
    TransferInputParams {
        signer: account_string(4),
        nonce: nonce.to_string(),
        signature,
        token_id: "00".to_string(),
        from: account_string(4),
        to: account_string(5),
        timestamp: "2024-01-01T00:00:00Z".to_string(),
    }
}

/// Decodes the request once with a placeholder signature, signs the
/// canonical message bytes with `key`, and returns the request carrying the
/// real signature.
fn signed_transfer_params(nonce: &str, key: &ed25519_dalek::SigningKey) -> TransferInputParams {
    let placeholder = transfer_params(nonce, "00".repeat(64));
    let cfg = config();
    let candidate = decode_transfer_request(&placeholder, cfg.contract, "transfer")
        .expect("placeholder request decodes");
    let bytes = encode_message(&candidate.message);
    let sig = key.sign(&bytes);
    transfer_params(nonce, hex_of(&sig.to_bytes()))
}

#[test]
fn transfer_request_decodes_to_expected_fields() {
    let p = transfer_params("7", "ab".repeat(64));
    let cfg = config();
    let c = decode_transfer_request(&p, cfg.contract, "transfer").expect("request decodes");
    assert_eq!(c.signer.0, [4u8; 32]);
    assert_eq!(c.signature.0, [0xabu8; 64]);
    assert_eq!(c.message.nonce, 7);
    assert_eq!(c.message.timestamp.millis, 1704067200000);
    assert_eq!(c.message.contract_address.index, 1234);
    assert_eq!(c.message.entry_point.0, b"transfer".to_vec());
    match &c.message.payload {
        PermitPayload::Transfer(tp) => {
            assert_eq!(tp.0.len(), 1);
            assert_eq!(tp.0[0].token_id.0, vec![0u8]);
            assert_eq!(tp.0[0].amount.0, 1);
            assert_eq!(tp.0[0].from.0, [4u8; 32]);
            assert_eq!(tp.0[0].to.0, [5u8; 32]);
            assert!(tp.0[0].data.is_empty());
        },
        _ => panic!("expected a transfer payload"),
    }
}

#[test]
fn update_operator_request_decodes_to_expected_fields() {
    let p = UpdateOperatorInputParams {
        signer: account_string(4),
        nonce: "0".to_string(),
        signature: "cd".repeat(64),
        operator: account_string(9),
        add_operator: true,
        timestamp: "12345".to_string(),
    };
    let cfg = config();
    let c = decode_update_operator_request(&p, cfg.contract, "updateOperator")
        .expect("request decodes");
    assert_eq!(c.message.timestamp.millis, 12345);
    match &c.message.payload {
        PermitPayload::UpdateOperator(up) => {
            assert_eq!(up.0.len(), 1);
            assert_eq!(up.0[0].operator.0, [9u8; 32]);
            assert!(matches!(
                up.0[0].update,
                permit_relay::types::OperatorUpdate::Add
            ));
        },
        _ => panic!("expected an update-operator payload"),
    }
}

#[test]
fn decode_errors_name_the_failing_field() {
    let cfg = config();
    let mut bad_signer = transfer_params("0", "ab".repeat(64));
    bad_signer.signer = "not-an-address".to_string();
    assert!(matches!(
        decode_transfer_request(&bad_signer, cfg.contract, "transfer"),
        Err(InjectStatementError::AccountFromStringError)
    ));

    let bad_sig = transfer_params("0", "ab".repeat(63));
    assert!(matches!(
        decode_transfer_request(&bad_sig, cfg.contract, "transfer"),
        Err(InjectStatementError::SignatureError)
    ));

    let mut bad_nonce = transfer_params("0", "ab".repeat(64));
    bad_nonce.nonce = "ten".to_string();
    assert!(matches!(
        decode_transfer_request(&bad_nonce, cfg.contract, "transfer"),
        Err(InjectStatementError::ParameterError)
    ));

    let mut bad_ts = transfer_params("0", "ab".repeat(64));
    bad_ts.timestamp = "yesterday".to_string();
    assert!(matches!(
        decode_transfer_request(&bad_ts, cfg.contract, "transfer"),
        Err(InjectStatementError::ParameterError)
    ));

    let good = transfer_params("0", "ab".repeat(64));
    assert!(matches!(
        decode_transfer_request(&good, cfg.contract, "bad entrypoint"),
        Err(InjectStatementError::OwnedReceiveNameError)
    ));

    // A base58 string whose checksum no longer matches must be rejected.
    let mut wrong_check = transfer_params("0", "ab".repeat(64));
    let mut chars: Vec<char> = wrong_check.signer.chars().collect();
    let last = chars.len() - 1;
    chars[last] = if chars[last] == '1' { '2' } else { '1' };
    wrong_check.signer = chars.into_iter().collect();
    assert!(matches!(
        decode_transfer_request(&wrong_check, cfg.contract, "transfer"),
        Err(InjectStatementError::AccountFromStringError)
    ));

    let mut bad_token = transfer_params("0", "ab".repeat(64));
    bad_token.token_id = "zz".to_string();
    assert!(matches!(
        decode_transfer_request(&bad_token, cfg.contract, "transfer"),
        Err(InjectStatementError::TokenIdError)
    ));
}

#[test]
fn scenario_accepted_end_to_end() {
    let key = ed25519_dalek::SigningKey::from_bytes(&[1u8; 32]);
    let public_key = key.verifying_key().to_bytes();
    let cfg = config();
    let p = signed_transfer_params("0", &key);

    let s = new_pipeline(RelayRequest::Transfer(p));
    let (s, a) = step(&cfg, s, RelayEvent::Proceed);
    match &a {
        RelayAction::QueryAccountInfo { signer } => assert_eq!(signer.0, [4u8; 32]),
        _ => panic!("expected an account query"),
    }
    let (s, a) = step(&cfg, s, RelayEvent::AccountInfo { nonce: 0, public_key });
    assert!(matches!(a, RelayAction::Advance));
    let (s, a) = step(&cfg, s, RelayEvent::Proceed);
    assert!(matches!(a, RelayAction::Advance), "signature must verify");
    let (s, a) = step(&cfg, s, RelayEvent::Proceed);
    let payload = match a {
        RelayAction::SubmitTransaction { payload } => payload,
        _ => panic!("expected a submission"),
    };
    assert_eq!(&payload[0..4], &[1, 0, 1, 0]);
    let (s, a) = step(&cfg, s, RelayEvent::SubmitAccepted { tx_hash: [0xabu8; 32] });
    assert!(matches!(a, RelayAction::Finish));
    match s {
        PipelineState::Accepted(h) => {
            assert_eq!(h.tx_hash, [0xabu8; 32]);
            assert_eq!(hex_of(&h.tx_hash).len(), 64);
        },
        _ => panic!("expected the accepted stage"),
    }
}

#[test]
fn scenario_stale_nonce_rejected_before_submission() {
    let key = ed25519_dalek::SigningKey::from_bytes(&[1u8; 32]);
    let public_key = key.verifying_key().to_bytes();
    let cfg = config();
    let p = signed_transfer_params("5", &key);

    let s = new_pipeline(RelayRequest::Transfer(p));
    let (s, _) = step(&cfg, s, RelayEvent::Proceed);
    let (s, a) = step(&cfg, s, RelayEvent::AccountInfo { nonce: 0, public_key });
    assert!(matches!(a, RelayAction::Finish), "no further node action");
    assert!(matches!(
        s,
        PipelineState::Rejected(InjectStatementError::NonceMismatchError)
    ));
}

#[test]
fn nonce_must_match_exactly() {
    let key = ed25519_dalek::SigningKey::from_bytes(&[1u8; 32]);
    let public_key = key.verifying_key().to_bytes();
    let cfg = config();
    // Chain nonce 5: the permit's nonce 5 passes, 4 and 6 are rejected.
    for (permit_nonce, passes) in [("4", false), ("5", true), ("6", false)] {
        let p = signed_transfer_params(permit_nonce, &key);
        let s = new_pipeline(RelayRequest::Transfer(p));
        let (s, _) = step(&cfg, s, RelayEvent::Proceed);
        let (s, _) = step(&cfg, s, RelayEvent::AccountInfo { nonce: 5, public_key });
        if passes {
            assert!(matches!(s, PipelineState::NonceChecked(_, _)));
        } else {
            assert!(matches!(
                s,
                PipelineState::Rejected(InjectStatementError::NonceMismatchError)
            ));
        }
    }
}

#[test]
fn scenario_bad_token_id_rejected_without_node_query() {
    let cfg = config();
    let mut p = transfer_params("0", "ab".repeat(64));
    p.token_id = "zz".to_string();
    let s = new_pipeline(RelayRequest::Transfer(p));
    let (s, a) = step(&cfg, s, RelayEvent::Proceed);
    assert!(matches!(a, RelayAction::Finish), "no query may be issued");
    assert!(matches!(
        s,
        PipelineState::Rejected(InjectStatementError::TokenIdError)
    ));
}

#[test]
fn query_failure_and_submit_failures_map_to_their_kinds() {
    let key = ed25519_dalek::SigningKey::from_bytes(&[1u8; 32]);
    let public_key = key.verifying_key().to_bytes();
    let cfg = config();

    let s = new_pipeline(RelayRequest::Transfer(signed_transfer_params("0", &key)));
    let (s, _) = step(&cfg, s, RelayEvent::Proceed);
    let (s, _) = step(&cfg, s, RelayEvent::QueryFailed);
    assert!(matches!(
        s,
        PipelineState::Rejected(InjectStatementError::AccountInfoQueryError)
    ));

    let run_to_submitted = || {
        let s = new_pipeline(RelayRequest::Transfer(signed_transfer_params("0", &key)));
        let (s, _) = step(&cfg, s, RelayEvent::Proceed);
        let (s, _) = step(&cfg, s, RelayEvent::AccountInfo { nonce: 0, public_key });
        let (s, _) = step(&cfg, s, RelayEvent::Proceed);
        let (s, _) = step(&cfg, s, RelayEvent::Proceed);
        s
    };

    let (s, _) = step(&cfg, run_to_submitted(), RelayEvent::SubmitRejected);
    assert!(matches!(
        s,
        PipelineState::Rejected(InjectStatementError::SumbitSponsoredTransactionError)
    ));

    let (s, _) = step(
        &cfg,
        run_to_submitted(),
        RelayEvent::SubmitTransportFailed { message: "timed out".to_string() },
    );
    match s {
        PipelineState::Rejected(InjectStatementError::NodeAccess(msg)) => {
            assert_eq!(msg, "timed out");
        },
        _ => panic!("expected a node-access rejection"),
    }
}

#[test]
fn any_single_bit_flip_in_signature_is_rejected() {
    let key = ed25519_dalek::SigningKey::from_bytes(&[2u8; 32]);
    let public_key = key.verifying_key().to_bytes();
    let cfg = config();
    let good = signed_transfer_params("0", &key);
    let good_sig = {
        let c = decode_transfer_request(&good, cfg.contract, "transfer").unwrap();
        c.signature.0
    };

    // The untampered signature passes.
    let s = new_pipeline(RelayRequest::Transfer(good.clone()));
    let (s, _) = step(&cfg, s, RelayEvent::Proceed);
    let (s, _) = step(&cfg, s, RelayEvent::AccountInfo { nonce: 0, public_key });
    let (s, _) = step(&cfg, s, RelayEvent::Proceed);
    assert!(matches!(s, PipelineState::Verified(_)));

    let mut hex = String::new();
    for byte in 0..64 {
        for bit in 0..8 {
            let mut sig = good_sig;
            sig[byte] ^= 1u8 << bit;
            hex.clear();
            for b in sig.iter() {
                hex.push_str(&format!("{:02x}", b));
            }
            let mut p = good.clone();
            p.signature = hex.clone();
            let s = new_pipeline(RelayRequest::Transfer(p));
            let (s, _) = step(&cfg, s, RelayEvent::Proceed);
            let (s, _) = step(&cfg, s, RelayEvent::AccountInfo { nonce: 0, public_key });
            let (s, a) = step(&cfg, s, RelayEvent::Proceed);
            assert!(
                matches!(
                    s,
                    PipelineState::Rejected(InjectStatementError::SignatureError)
                ),
                "bit {bit} of byte {byte} flipped must be rejected"
            );
            assert!(matches!(a, RelayAction::Finish));
        }
    }
}
