//! The data model of the relay: wire request shapes, the permit message that
//! is signed off-chain, and the full permit parameter that is submitted
//! on-chain, each with its well-formedness condition.

use vstd::prelude::*;

verus! {

/// A chain account: a fixed 32-byte identifier, decoded from its base58check
/// string form.
#[derive(Debug, Clone, Copy)]
pub struct AccountAddress(pub [u8; 32]);

/// The pair (index, subindex) identifying one smart contract instance.
#[derive(Debug, Clone, Copy)]
pub struct ContractAddress {
    pub index: u64,
    pub subindex: u64,
}

/// A chain-native time value: milliseconds since the unix epoch.
#[derive(Debug, Clone, Copy)]
pub struct Timestamp {
    pub millis: u64,
}

/// A CIS2 token identifier: up to 255 raw bytes, decoded from hex.
#[derive(Debug, Clone)]
pub struct TokenId(pub Vec<u8>);

/// Whether a byte sequence may stand as a token id: its one-byte length
/// prefix bounds it to 255 bytes.
pub open spec fn valid_token_id(t: Seq<u8>) -> bool {
    t.len() <= 255
}

/// A CIS2 token amount. The chain format admits amounts up to 2^256 - 1; the
/// relay only ever constructs small amounts, so a 64-bit value suffices and
/// is encoded with the same unsigned LEB128 rule.
#[derive(Debug, Clone, Copy)]
pub struct TokenAmount(pub u64);

/// The name of the contract entry point a permit invokes, held as its byte
/// sequence.
#[derive(Debug, Clone)]
pub struct EntrypointName(pub Vec<u8>);

/// Whether a byte is an ASCII alphanumeric or punctuation character: exactly
/// the printable ASCII range with the space excluded.
pub open spec fn graphic_ascii(b: u8) -> bool {
    0x21 <= b <= 0x7e
}

/// Whether a byte sequence is a syntactically valid entry-point name: under
/// 100 bytes, each an ASCII alphanumeric or punctuation character.
pub open spec fn valid_entrypoint(e: Seq<u8>) -> bool {
    e.len() < 100 && forall|i: int| 0 <= i < e.len() ==> graphic_ascii(#[trigger] e[i])
}

/// An opaque 64-byte Ed25519 signature.
#[derive(Debug, Clone, Copy)]
pub struct SignatureEd25519(pub [u8; 64]);

/// One CIS2 transfer record: `amount` of token `token_id` moves from `from`
/// to the account `to`, with optional additional data for the receiving
/// contract.
#[derive(Debug, Clone)]
pub struct Transfer {
    pub token_id: TokenId,
    pub amount: TokenAmount,
    pub from: AccountAddress,
    pub to: AccountAddress,
    pub data: Vec<u8>,
}

/// Whether a transfer record is well formed: its token id and its
/// additional data fit their length prefixes.
pub open spec fn transfer_wf(t: Transfer) -> bool {
    valid_token_id(t.token_id.0@) && t.data@.len() <= 0xffff
}

/// The parameter of the CIS2 `transfer` entry point: an ordered sequence of
/// transfer records behind a 2-byte count.
#[derive(Debug, Clone)]
pub struct TransferParams(pub Vec<Transfer>);

/// Whether transfer parameters are well formed: the count fits its 2-byte
/// prefix and every record is well formed.
pub open spec fn transfer_params_wf(p: TransferParams) -> bool {
    p.0@.len() <= 0xffff && forall|i: int|
        0 <= i < p.0@.len() ==> transfer_wf(#[trigger] p.0@[i])
}

/// Whether an operator is added or removed.
#[derive(Debug, Clone, Copy)]
pub enum OperatorUpdate {
    Remove,
    Add,
}

/// One operator update record: `operator` is added or removed as an operator
/// of the sender.
#[derive(Debug, Clone)]
pub struct UpdateOperator {
    pub update: OperatorUpdate,
    pub operator: AccountAddress,
}

/// The parameter of the CIS2 `updateOperator` entry point: an ordered
/// sequence of operator updates behind a 2-byte count.
#[derive(Debug, Clone)]
pub struct UpdateOperatorParams(pub Vec<UpdateOperator>);

/// Whether operator-update parameters are well formed: the count fits its
/// 2-byte prefix.
pub open spec fn update_operator_params_wf(p: UpdateOperatorParams) -> bool {
    p.0@.len() <= 0xffff
}

/// The tagged payload of a permit: exactly one of the two CIS2 operations.
/// The tag itself is part of the canonical bytes and must stay stable.
#[derive(Debug, Clone)]
pub enum PermitPayload {
    Transfer(TransferParams),
    UpdateOperator(UpdateOperatorParams),
}

/// Whether a payload is well formed.
pub open spec fn payload_wf(p: PermitPayload) -> bool {
    match p {
        PermitPayload::Transfer(tp) => transfer_params_wf(tp),
        PermitPayload::UpdateOperator(up) => update_operator_params_wf(up),
    }
}

/// The canonical message that is signed off-chain and re-verified on
/// submission. Field order is part of the protocol with the verifying
/// contract.
#[derive(Debug, Clone)]
pub struct PermitMessage {
    pub contract_address: ContractAddress,
    pub entry_point: EntrypointName,
    pub nonce: u64,
    pub timestamp: Timestamp,
    pub payload: PermitPayload,
}

/// Whether a permit message is well formed.
pub open spec fn message_wf(m: PermitMessage) -> bool {
    valid_entrypoint(m.entry_point.0@) && payload_wf(m.payload)
}

/// The signatures of one credential, as an association list from key index
/// to signature in strictly ascending key order.
pub type CredentialSignatures = Vec<(u8, SignatureEd25519)>;

/// Whether an association list keyed by the first component of its entries
/// is in strictly ascending key order (which also bounds its length by 256).
pub open spec fn ascending_u8_keys<V>(v: Seq<(u8, V)>) -> bool {
    forall|i: int, j: int| 0 <= i < j < v.len() ==> (#[trigger] v[i]).0 < (#[trigger] v[j]).0
}

/// The full on-chain submission unit: the signatures keyed by credential
/// index and key index, the claimed signer, and the signed message.
#[derive(Debug, Clone)]
pub struct PermitParam {
    pub signature: Vec<(u8, CredentialSignatures)>,
    pub signer: AccountAddress,
    pub message: PermitMessage,
}

/// Whether a permit parameter is well formed: both signature maps are in
/// strictly ascending key order, fit their one-byte counts, and the message
/// is well formed.
pub open spec fn permit_param_wf(p: PermitParam) -> bool {
    &&& p.signature@.len() <= 255
    &&& ascending_u8_keys(p.signature@)
    &&& forall|i: int|
        0 <= i < p.signature@.len() ==> (#[trigger] p.signature@[i]).1@.len() <= 255
    &&& forall|i: int|
        0 <= i < p.signature@.len() ==> ascending_u8_keys((#[trigger] p.signature@[i]).1@)
    &&& message_wf(p.message)
}

/// The wire shape of an operator-update request.
#[derive(Debug, Clone)]
pub struct UpdateOperatorInputParams {
    pub signer: String,
    pub nonce: String,
    pub signature: String,
    pub operator: String,
    pub add_operator: bool,
    pub timestamp: String,
}

/// The wire shape of a transfer request.
#[derive(Debug, Clone)]
pub struct TransferInputParams {
    pub signer: String,
    pub nonce: String,
    pub signature: String,
    pub token_id: String,
    pub from: String,
    pub to: String,
    pub timestamp: String,
}

/// The successful response: the hash under which the node admitted the
/// transaction.
#[derive(Debug, Clone, Copy)]
pub struct TxHash {
    pub tx_hash: [u8; 32],
}

} // verus!
