//! The submission pipeline: a linear state machine from a received wire
//! request to an accepted transaction or a typed rejection. The caller
//! performs the node I/O: each step consumes the last node event and
//! returns the next state together with the action to perform.

use vstd::prelude::*;
use crate::codec::{encode_permit_param, message_bytes, permit_param_bytes};
use crate::crypto::{ed25519_verifies, verify_permit_signature};
use crate::error::InjectStatementError;
use crate::parse::{
    account_of_str, check_entrypoint, dec_ok, dec_val, decode_signature, decode_token_id,
    hex_bytes, hex_ok, parse_account_address, parse_timestamp, parse_u64_decimal, sig_str_ok,
    str_bytes, timestamp_of_str,
};
use crate::types::{
    AccountAddress, ContractAddress, CredentialSignatures, PermitMessage, PermitParam,
    PermitPayload, SignatureEd25519, Timestamp, TokenAmount, Transfer, TransferInputParams,
    TransferParams, TxHash, UpdateOperator, UpdateOperatorInputParams, UpdateOperatorParams,
    OperatorUpdate, message_wf, permit_param_wf, valid_entrypoint, valid_token_id,
};

verus! {

/// The relay's server-side configuration: the target contract and the two
/// entry points a permit may invoke.
#[derive(Debug, Clone)]
pub struct RelayConfig {
    pub contract: ContractAddress,
    pub transfer_entry_point: String,
    pub update_operator_entry_point: String,
}

/// One inbound wire request, of either operation kind.
#[derive(Debug, Clone)]
pub enum RelayRequest {
    Transfer(TransferInputParams),
    UpdateOperator(UpdateOperatorInputParams),
}

/// A decoded permit: the claimed signer, the claimed signature, and the
/// message the signature must cover.
#[derive(Debug, Clone)]
pub struct PermitCandidate {
    pub signer: AccountAddress,
    pub signature: SignatureEd25519,
    pub message: PermitMessage,
}

/// Whether every field of a transfer wire request decodes.
pub open spec fn transfer_request_ok(p: TransferInputParams, ep: Seq<char>) -> bool {
    &&& account_of_str(p.signer@) is Some
    &&& sig_str_ok(str_bytes(p.signature@))
    &&& dec_ok(str_bytes(p.nonce@))
    &&& timestamp_of_str(p.timestamp@) is Some
    &&& valid_entrypoint(str_bytes(ep))
    &&& hex_ok(str_bytes(p.token_id@))
    &&& valid_token_id(hex_bytes(str_bytes(p.token_id@)))
    &&& account_of_str(p.from@) is Some
    &&& account_of_str(p.to@) is Some
}

/// The error a transfer wire request is rejected with: the fields are
/// checked in a fixed order — signer, signature, nonce, timestamp, entry
/// point, token id, from, to — and the first failure names the kind.
pub open spec fn transfer_request_error(p: TransferInputParams, ep: Seq<char>) ->
    InjectStatementError {
    if account_of_str(p.signer@) is None {
        InjectStatementError::AccountFromStringError
    } else if !sig_str_ok(str_bytes(p.signature@)) {
        InjectStatementError::SignatureError
    } else if !dec_ok(str_bytes(p.nonce@)) {
        InjectStatementError::ParameterError
    } else if timestamp_of_str(p.timestamp@) is None {
        InjectStatementError::ParameterError
    } else if !valid_entrypoint(str_bytes(ep)) {
        InjectStatementError::OwnedReceiveNameError
    } else if !(hex_ok(str_bytes(p.token_id@)) && valid_token_id(
        hex_bytes(str_bytes(p.token_id@)),
    )) {
        InjectStatementError::TokenIdError
    } else {
        InjectStatementError::AccountFromStringError
    }
}

/// Whether a candidate is exactly the decoding of a transfer wire request:
/// each message field pinned to its wire source, the payload a single
/// transfer record of amount 1 with no additional data.
pub open spec fn transfer_candidate_ok(
    c: PermitCandidate,
    p: TransferInputParams,
    contract: ContractAddress,
    ep: Seq<char>,
) -> bool {
    &&& Some(c.signer.0@) == account_of_str(p.signer@)
    &&& c.signature.0@ == hex_bytes(str_bytes(p.signature@))
    &&& c.message.contract_address == contract
    &&& c.message.entry_point.0@ == str_bytes(ep)
    &&& c.message.nonce == dec_val(str_bytes(p.nonce@))
    &&& Some(c.message.timestamp.millis) == timestamp_of_str(p.timestamp@)
    &&& c.message.payload matches PermitPayload::Transfer(tp) && tp.0@.len() == 1 && (
    tp.0@[0].token_id.0@ == hex_bytes(str_bytes(p.token_id@))) && (tp.0@[0].amount.0 == 1) && (
    Some(tp.0@[0].from.0@) == account_of_str(p.from@)) && (Some(tp.0@[0].to.0@) == account_of_str(
        p.to@,
    )) && (tp.0@[0].data@.len() == 0)
}

/// Whether every field of an operator-update wire request decodes.
pub open spec fn update_request_ok(p: UpdateOperatorInputParams, ep: Seq<char>) -> bool {
    &&& account_of_str(p.signer@) is Some
    &&& sig_str_ok(str_bytes(p.signature@))
    &&& dec_ok(str_bytes(p.nonce@))
    &&& timestamp_of_str(p.timestamp@) is Some
    &&& valid_entrypoint(str_bytes(ep))
    &&& account_of_str(p.operator@) is Some
}

/// The error an operator-update wire request is rejected with, by the same
/// fixed check order — signer, signature, nonce, timestamp, entry point,
/// operator.
pub open spec fn update_request_error(p: UpdateOperatorInputParams, ep: Seq<char>) ->
    InjectStatementError {
    if account_of_str(p.signer@) is None {
        InjectStatementError::AccountFromStringError
    } else if !sig_str_ok(str_bytes(p.signature@)) {
        InjectStatementError::SignatureError
    } else if !dec_ok(str_bytes(p.nonce@)) {
        InjectStatementError::ParameterError
    } else if timestamp_of_str(p.timestamp@) is None {
        InjectStatementError::ParameterError
    } else if !valid_entrypoint(str_bytes(ep)) {
        InjectStatementError::OwnedReceiveNameError
    } else {
        InjectStatementError::AccountFromStringError
    }
}

/// Whether a candidate is exactly the decoding of an operator-update wire
/// request: a single record adding or removing the operator as the flag
/// says.
pub open spec fn update_candidate_ok(
    c: PermitCandidate,
    p: UpdateOperatorInputParams,
    contract: ContractAddress,
    ep: Seq<char>,
) -> bool {
    &&& Some(c.signer.0@) == account_of_str(p.signer@)
    &&& c.signature.0@ == hex_bytes(str_bytes(p.signature@))
    &&& c.message.contract_address == contract
    &&& c.message.entry_point.0@ == str_bytes(ep)
    &&& c.message.nonce == dec_val(str_bytes(p.nonce@))
    &&& Some(c.message.timestamp.millis) == timestamp_of_str(p.timestamp@)
    &&& c.message.payload matches PermitPayload::UpdateOperator(up) && up.0@.len() == 1 && (
    Some(up.0@[0].operator.0@) == account_of_str(p.operator@)) && ((up.0@[0].update is Add)
        == p.add_operator)
}

/// Decodes a transfer wire request into a permit candidate, or rejects it
/// with the first failing field's error kind.
pub fn decode_transfer_request(
    p: &TransferInputParams,
    contract: ContractAddress,
    entry_point: &str,
) -> (r: Result<PermitCandidate, InjectStatementError>)
    ensures
        r is Ok <==> transfer_request_ok(*p, entry_point@),
        r matches Ok(c) ==> transfer_candidate_ok(c, *p, contract, entry_point@) && message_wf(
            c.message,
        ),
        r matches Err(e) ==> e == transfer_request_error(*p, entry_point@),
{
    let signer = match parse_account_address(p.signer.as_str()) {
        Some(a) => a,
        None => {
            return Err(InjectStatementError::AccountFromStringError);
        },
    };
    let signature = match decode_signature(p.signature.as_str()) {
        Some(s) => s,
        None => {
            return Err(InjectStatementError::SignatureError);
        },
    };
    let nonce = match parse_u64_decimal(p.nonce.as_str()) {
        Some(v) => v,
        None => {
            return Err(InjectStatementError::ParameterError);
        },
    };
    let millis = match parse_timestamp(p.timestamp.as_str()) {
        Some(v) => v,
        None => {
            return Err(InjectStatementError::ParameterError);
        },
    };
    let ep = match check_entrypoint(entry_point) {
        Some(e) => e,
        None => {
            return Err(InjectStatementError::OwnedReceiveNameError);
        },
    };
    let token_id = match decode_token_id(p.token_id.as_str()) {
        Some(t) => t,
        None => {
            return Err(InjectStatementError::TokenIdError);
        },
    };
    let from = match parse_account_address(p.from.as_str()) {
        Some(a) => a,
        None => {
            return Err(InjectStatementError::AccountFromStringError);
        },
    };
    let to = match parse_account_address(p.to.as_str()) {
        Some(a) => a,
        None => {
            return Err(InjectStatementError::AccountFromStringError);
        },
    };
    let record = Transfer { token_id, amount: TokenAmount(1), from, to, data: Vec::new() };
    let mut records: Vec<Transfer> = Vec::new();
    records.push(record);
    let message = PermitMessage {
        contract_address: contract,
        entry_point: ep,
        nonce,
        timestamp: Timestamp { millis },
        payload: PermitPayload::Transfer(TransferParams(records)),
    };
    Ok(PermitCandidate { signer, signature, message })
}

/// Decodes an operator-update wire request into a permit candidate, or
/// rejects it with the first failing field's error kind.
pub fn decode_update_operator_request(
    p: &UpdateOperatorInputParams,
    contract: ContractAddress,
    entry_point: &str,
) -> (r: Result<PermitCandidate, InjectStatementError>)
    ensures
        r is Ok <==> update_request_ok(*p, entry_point@),
        r matches Ok(c) ==> update_candidate_ok(c, *p, contract, entry_point@) && message_wf(
            c.message,
        ),
        r matches Err(e) ==> e == update_request_error(*p, entry_point@),
{
    let signer = match parse_account_address(p.signer.as_str()) {
        Some(a) => a,
        None => {
            return Err(InjectStatementError::AccountFromStringError);
        },
    };
    let signature = match decode_signature(p.signature.as_str()) {
        Some(s) => s,
        None => {
            return Err(InjectStatementError::SignatureError);
        },
    };
    let nonce = match parse_u64_decimal(p.nonce.as_str()) {
        Some(v) => v,
        None => {
            return Err(InjectStatementError::ParameterError);
        },
    };
    let millis = match parse_timestamp(p.timestamp.as_str()) {
        Some(v) => v,
        None => {
            return Err(InjectStatementError::ParameterError);
        },
    };
    let ep = match check_entrypoint(entry_point) {
        Some(e) => e,
        None => {
            return Err(InjectStatementError::OwnedReceiveNameError);
        },
    };
    let operator = match parse_account_address(p.operator.as_str()) {
        Some(a) => a,
        None => {
            return Err(InjectStatementError::AccountFromStringError);
        },
    };
    let update = if p.add_operator {
        OperatorUpdate::Add
    } else {
        OperatorUpdate::Remove
    };
    let record = UpdateOperator { update, operator };
    let mut records: Vec<UpdateOperator> = Vec::new();
    records.push(record);
    let message = PermitMessage {
        contract_address: contract,
        entry_point: ep,
        nonce,
        timestamp: Timestamp { millis },
        payload: PermitPayload::UpdateOperator(UpdateOperatorParams(records)),
    };
    Ok(PermitCandidate { signer, signature, message })
}

/// Replay protection is strict: the permit's nonce must equal the signer
/// account's current on-chain nonce exactly — neither an earlier nor a
/// later nonce passes.
pub fn check_nonce(chain_nonce: u64, permit_nonce: u64) -> (r: Result<(), InjectStatementError>)
    ensures
        r is Ok <==> permit_nonce == chain_nonce,
        r matches Err(e) ==> e matches InjectStatementError::NonceMismatchError,
{
    if permit_nonce == chain_nonce {
        Ok(())
    } else {
        Err(InjectStatementError::NonceMismatchError)
    }
}

/// Assembles the on-chain permit parameter from a verified candidate: the
/// single signature filed under credential index 0, key index 0.
pub fn build_permit_param(c: PermitCandidate) -> (r: PermitParam)
    requires
        message_wf(c.message),
    ensures
        permit_param_wf(r),
        r.signer == c.signer,
        r.message == c.message,
        r.signature@.len() == 1,
        r.signature@[0].0 == 0,
        r.signature@[0].1@.len() == 1,
        r.signature@[0].1@[0].0 == 0,
        r.signature@[0].1@[0].1 == c.signature,
{
    let mut inner: CredentialSignatures = Vec::new();
    inner.push((0u8, c.signature));
    let mut outer: Vec<(u8, CredentialSignatures)> = Vec::new();
    outer.push((0u8, inner));
    PermitParam { signature: outer, signer: c.signer, message: c.message }
}

/// The stages of one submission attempt, in their linear order.
#[derive(Debug, Clone)]
pub enum PipelineState {
    Received(RelayRequest),
    Decoded(PermitCandidate),
    NonceChecked(PermitCandidate, [u8; 32]),
    Verified(PermitParam),
    Submitted(PermitParam),
    Accepted(TxHash),
    Rejected(InjectStatementError),
}

/// What the caller reports back into the pipeline: the answer to the last
/// action, or `Proceed` where no node input is needed.
#[derive(Debug, Clone)]
pub enum RelayEvent {
    Proceed,
    AccountInfo { nonce: u64, public_key: [u8; 32] },
    QueryFailed,
    SubmitAccepted { tx_hash: [u8; 32] },
    SubmitRejected,
    SubmitTransportFailed { message: String },
}

/// What the caller must do next: query the signer's account state, submit
/// the encoded permit parameter, call `step` again, or stop.
#[derive(Debug)]
pub enum RelayAction {
    QueryAccountInfo { signer: AccountAddress },
    SubmitTransaction { payload: Vec<u8> },
    Advance,
    Finish,
}

/// The invariant every pipeline state carries: whatever data a stage holds
/// is well formed.
pub open spec fn state_inv(s: PipelineState) -> bool {
    match s {
        PipelineState::Received(_) => true,
        PipelineState::Decoded(c) => message_wf(c.message),
        PipelineState::NonceChecked(c, _) => message_wf(c.message),
        PipelineState::Verified(p) => permit_param_wf(p),
        PipelineState::Submitted(p) => permit_param_wf(p),
        PipelineState::Accepted(_) => true,
        PipelineState::Rejected(_) => true,
    }
}

/// The decode transition: a request that decodes moves to `Decoded` and
/// asks for the signer's account state; one that does not is rejected with
/// its field's error kind, and no query is made.
pub open spec fn decode_outcome(
    req: RelayRequest,
    cfg: RelayConfig,
    next: PipelineState,
    act: RelayAction,
) -> bool {
    match req {
        RelayRequest::Transfer(p) => {
            if transfer_request_ok(p, cfg.transfer_entry_point@) {
                (next matches PipelineState::Decoded(c) && transfer_candidate_ok(
                    c,
                    p,
                    cfg.contract,
                    cfg.transfer_entry_point@,
                )) && (act matches RelayAction::QueryAccountInfo { signer } && Some(signer.0@)
                    == account_of_str(p.signer@))
            } else {
                (next matches PipelineState::Rejected(err) && err == transfer_request_error(
                    p,
                    cfg.transfer_entry_point@,
                )) && act is Finish
            }
        },
        RelayRequest::UpdateOperator(p) => {
            if update_request_ok(p, cfg.update_operator_entry_point@) {
                (next matches PipelineState::Decoded(c) && update_candidate_ok(
                    c,
                    p,
                    cfg.contract,
                    cfg.update_operator_entry_point@,
                )) && (act matches RelayAction::QueryAccountInfo { signer } && Some(signer.0@)
                    == account_of_str(p.signer@))
            } else {
                (next matches PipelineState::Rejected(err) && err == update_request_error(
                    p,
                    cfg.update_operator_entry_point@,
                )) && act is Finish
            }
        },
    }
}

/// The full transition relation of the pipeline. Terminal states absorb
/// every event; an event that does not belong to the current stage is a
/// protocol fault and rejects with `ParameterError`.
pub open spec fn step_spec(
    cfg: RelayConfig,
    s: PipelineState,
    e: RelayEvent,
    next: PipelineState,
    act: RelayAction,
) -> bool {
    match (s, e) {
        (PipelineState::Received(req), RelayEvent::Proceed) => decode_outcome(req, cfg, next, act),
        (PipelineState::Decoded(c), RelayEvent::AccountInfo { nonce, public_key }) => {
            if c.message.nonce == nonce {
                next == PipelineState::NonceChecked(c, public_key) && act is Advance
            } else {
                (next matches PipelineState::Rejected(err) && err
                    matches InjectStatementError::NonceMismatchError) && act is Finish
            }
        },
        (PipelineState::Decoded(_), RelayEvent::QueryFailed) => {
            (next matches PipelineState::Rejected(err) && err
                matches InjectStatementError::AccountInfoQueryError) && act is Finish
        },
        (PipelineState::NonceChecked(c, pk), RelayEvent::Proceed) => {
            if ed25519_verifies(pk@, message_bytes(c.message), c.signature.0@) {
                (next matches PipelineState::Verified(param) && param.signer == c.signer
                    && param.message == c.message && param.signature@.len() == 1
                    && param.signature@[0].0 == 0 && param.signature@[0].1@.len() == 1
                    && param.signature@[0].1@[0].0 == 0 && param.signature@[0].1@[0].1
                    == c.signature) && act is Advance
            } else {
                (next matches PipelineState::Rejected(err) && err
                    matches InjectStatementError::SignatureError) && act is Finish
            }
        },
        (PipelineState::Verified(p), RelayEvent::Proceed) => {
            next == PipelineState::Submitted(p) && (act
                matches RelayAction::SubmitTransaction { payload } && payload@
                == permit_param_bytes(p))
        },
        (PipelineState::Submitted(_), RelayEvent::SubmitAccepted { tx_hash }) => {
            (next matches PipelineState::Accepted(h) && h.tx_hash@ == tx_hash@) && act
                is Finish
        },
        (PipelineState::Submitted(_), RelayEvent::SubmitRejected) => {
            (next matches PipelineState::Rejected(err) && err
                matches InjectStatementError::SumbitSponsoredTransactionError) && act is Finish
        },
        (PipelineState::Submitted(_), RelayEvent::SubmitTransportFailed { message }) => {
            (next matches PipelineState::Rejected(err) && err
                matches InjectStatementError::NodeAccess(msg) && msg@ == message@) && act
                is Finish
        },
        (PipelineState::Accepted(h), _) => next == PipelineState::Accepted(h) && act is Finish,
        (PipelineState::Rejected(e0), _) => {
            (next matches PipelineState::Rejected(err) && err == e0) && act is Finish
        },
        _ => {
            (next matches PipelineState::Rejected(err) && err
                matches InjectStatementError::ParameterError) && act is Finish
        },
    }
}

/// Starts a submission attempt at its first stage.
pub fn new_pipeline(req: RelayRequest) -> (s: PipelineState)
    ensures
        s == PipelineState::Received(req),
        state_inv(s),
{
    PipelineState::Received(req)
}

/// Performs one transition of the pipeline: consumes the current state and
/// the caller's event, returns the next state and the action to perform.
pub fn step(cfg: &RelayConfig, s: PipelineState, e: RelayEvent) -> (r: (
    PipelineState,
    RelayAction,
))
    requires
        state_inv(s),
    ensures
        state_inv(r.0),
        step_spec(*cfg, s, e, r.0, r.1),
{
    match (s, e) {
        (PipelineState::Received(req), RelayEvent::Proceed) => {
            let decoded = match &req {
                RelayRequest::Transfer(p) => {
                    decode_transfer_request(p, cfg.contract, cfg.transfer_entry_point.as_str())
                },
                RelayRequest::UpdateOperator(p) => {
                    decode_update_operator_request(
                        p,
                        cfg.contract,
                        cfg.update_operator_entry_point.as_str(),
                    )
                },
            };
            match decoded {
                Ok(c) => {
                    let signer = c.signer;
                    (
                        PipelineState::Decoded(c),
                        RelayAction::QueryAccountInfo { signer },
                    )
                },
                Err(err) => (PipelineState::Rejected(err), RelayAction::Finish),
            }
        },
        (PipelineState::Decoded(c), RelayEvent::AccountInfo { nonce, public_key }) => {
            match check_nonce(nonce, c.message.nonce) {
                Ok(_) => (PipelineState::NonceChecked(c, public_key), RelayAction::Advance),
                Err(err) => (PipelineState::Rejected(err), RelayAction::Finish),
            }
        },
        (PipelineState::Decoded(_), RelayEvent::QueryFailed) => {
            (
                PipelineState::Rejected(InjectStatementError::AccountInfoQueryError),
                RelayAction::Finish,
            )
        },
        (PipelineState::NonceChecked(c, pk), RelayEvent::Proceed) => {
            match verify_permit_signature(&c.message, &pk, &c.signature) {
                Ok(_) => {
                    let param = build_permit_param(c);
                    (PipelineState::Verified(param), RelayAction::Advance)
                },
                Err(err) => (PipelineState::Rejected(err), RelayAction::Finish),
            }
        },
        (PipelineState::Verified(p), RelayEvent::Proceed) => {
            let payload = encode_permit_param(&p);
            (PipelineState::Submitted(p), RelayAction::SubmitTransaction { payload })
        },
        (PipelineState::Submitted(_), RelayEvent::SubmitAccepted { tx_hash }) => {
            (PipelineState::Accepted(TxHash { tx_hash }), RelayAction::Finish)
        },
        (PipelineState::Submitted(_), RelayEvent::SubmitRejected) => {
            (
                PipelineState::Rejected(InjectStatementError::SumbitSponsoredTransactionError),
                RelayAction::Finish,
            )
        },
        (PipelineState::Submitted(_), RelayEvent::SubmitTransportFailed { message }) => {
            (
                PipelineState::Rejected(InjectStatementError::NodeAccess(message)),
                RelayAction::Finish,
            )
        },
        (PipelineState::Accepted(h), _) => (PipelineState::Accepted(h), RelayAction::Finish),
        (PipelineState::Rejected(e0), _) => (PipelineState::Rejected(e0), RelayAction::Finish),
        (PipelineState::Received(_), _) | (PipelineState::Decoded(_), _)
            | (PipelineState::NonceChecked(_, _), _) | (PipelineState::Verified(_), _)
            | (PipelineState::Submitted(_), _) => {
            (PipelineState::Rejected(InjectStatementError::ParameterError), RelayAction::Finish)
        },
    }
}

/// Actions are bound to their stages: the node is queried only by the
/// decode transition, and a transaction is submitted only from a verified
/// permit — in particular, a request rejected at decoding, at the nonce
/// check or at signature verification never reaches the node.
pub proof fn lemma_actions_staged(
    cfg: RelayConfig,
    s: PipelineState,
    e: RelayEvent,
    next: PipelineState,
    act: RelayAction,
)
    requires
        step_spec(cfg, s, e, next, act),
    ensures
        act matches RelayAction::QueryAccountInfo { signer } ==> s matches PipelineState::Received(
            _,
        ) && next matches PipelineState::Decoded(_),
        act matches RelayAction::SubmitTransaction { payload } ==> s
            matches PipelineState::Verified(_) && e matches RelayEvent::Proceed,
{
}

/// Nonce strictness: from the `Decoded` stage, the account-state answer
/// moves the pipeline onward exactly when the permit's nonce equals the
/// on-chain nonce; any other nonce is rejected as a nonce mismatch without
/// a submission.
pub proof fn lemma_nonce_strictness(
    cfg: RelayConfig,
    c: PermitCandidate,
    chain_nonce: u64,
    public_key: [u8; 32],
    next: PipelineState,
    act: RelayAction,
)
    requires
        step_spec(
            cfg,
            PipelineState::Decoded(c),
            RelayEvent::AccountInfo { nonce: chain_nonce, public_key },
            next,
            act,
        ),
    ensures
        c.message.nonce == chain_nonce <==> next == PipelineState::NonceChecked(c, public_key),
        c.message.nonce != chain_nonce ==> (next matches PipelineState::Rejected(err) && err
            matches InjectStatementError::NonceMismatchError) && !(act
            matches RelayAction::SubmitTransaction { payload }),
{
}

/// Decoding then re-encoding is deterministic: any two candidates decoded
/// from the same transfer wire request have byte-identical canonical
/// message bytes.
pub proof fn lemma_transfer_roundtrip_deterministic(
    p: TransferInputParams,
    contract: ContractAddress,
    ep: Seq<char>,
    c1: PermitCandidate,
    c2: PermitCandidate,
)
    requires
        transfer_candidate_ok(c1, p, contract, ep),
        transfer_candidate_ok(c2, p, contract, ep),
    ensures
        message_bytes(c1.message) == message_bytes(c2.message),
{
    let m1 = c1.message;
    let m2 = c2.message;
    let tp1 = m1.payload->Transfer_0;
    let tp2 = m2.payload->Transfer_0;
    assert(crate::codec::transfer_bytes(tp1.0@[0]) == crate::codec::transfer_bytes(tp2.0@[0]));
    assert(tp1.0@.drop_last() =~= Seq::<Transfer>::empty());
    assert(tp2.0@.drop_last() =~= Seq::<Transfer>::empty());
    assert(crate::codec::cat_transfers(tp1.0@) == crate::codec::cat_transfers(tp2.0@));
    assert(crate::codec::payload_bytes(m1.payload) == crate::codec::payload_bytes(m2.payload));
}

/// Decoding then re-encoding is deterministic for the other operation kind
/// as well: any two candidates decoded from the same operator-update wire
/// request have byte-identical canonical message bytes.
pub proof fn lemma_update_roundtrip_deterministic(
    p: UpdateOperatorInputParams,
    contract: ContractAddress,
    ep: Seq<char>,
    c1: PermitCandidate,
    c2: PermitCandidate,
)
    requires
        update_candidate_ok(c1, p, contract, ep),
        update_candidate_ok(c2, p, contract, ep),
    ensures
        message_bytes(c1.message) == message_bytes(c2.message),
{
    let m1 = c1.message;
    let m2 = c2.message;
    let up1 = m1.payload->UpdateOperator_0;
    let up2 = m2.payload->UpdateOperator_0;
    assert(crate::codec::update_operator_bytes(up1.0@[0]) == crate::codec::update_operator_bytes(
        up2.0@[0],
    ));
    assert(up1.0@.drop_last() =~= Seq::<UpdateOperator>::empty());
    assert(up2.0@.drop_last() =~= Seq::<UpdateOperator>::empty());
    assert(crate::codec::cat_update_operators(up1.0@) == crate::codec::cat_update_operators(
        up2.0@,
    ));
    assert(crate::codec::payload_bytes(m1.payload) == crate::codec::payload_bytes(m2.payload));
}

} // verus!
