//! The permit codec: the canonical byte encoding of permit messages and
//! permit parameters. Integers are little-endian, amounts are unsigned
//! LEB128, collections carry a 2-byte element count, both signature maps a
//! 1-byte count, and the payload starts with its 1-byte variant tag.

use vstd::prelude::*;
use crate::types::{
    AccountAddress, ContractAddress, CredentialSignatures, EntrypointName, OperatorUpdate,
    PermitMessage, PermitParam, PermitPayload, SignatureEd25519, TokenId, Transfer,
    TransferParams, UpdateOperator, UpdateOperatorParams, message_wf, payload_wf,
    permit_param_wf, transfer_params_wf, transfer_wf, update_operator_params_wf,
    valid_entrypoint, valid_token_id,
};

verus! {

/// The two little-endian bytes of a 16-bit value.
pub open spec fn u16_le(v: u16) -> Seq<u8> {
    seq![(v % 0x100) as u8, (v / 0x100) as u8]
}

/// The eight little-endian bytes of a 64-bit value.
pub open spec fn u64_le(v: u64) -> Seq<u8> {
    seq![
        (v % 0x100) as u8,
        ((v / 0x100) % 0x100) as u8,
        ((v / 0x10000) % 0x100) as u8,
        ((v / 0x1000000) % 0x100) as u8,
        ((v / 0x100000000) % 0x100) as u8,
        ((v / 0x10000000000) % 0x100) as u8,
        ((v / 0x1000000000000) % 0x100) as u8,
        ((v / 0x100000000000000) % 0x100) as u8,
    ]
}

/// The unsigned LEB128 encoding of a 64-bit value: 7-bit groups, least
/// significant first, the high bit of a byte set exactly when more follow.
pub open spec fn leb128_u64(v: u64) -> Seq<u8>
    decreases v,
{
    if v < 128 {
        seq![v as u8]
    } else {
        seq![(v % 128 + 128) as u8] + leb128_u64(v / 128)
    }
}

/// A token id: its 1-byte length, then its bytes.
pub open spec fn token_id_bytes(t: Seq<u8>) -> Seq<u8> {
    seq![t.len() as u8] + t
}

/// An account address standing as a CIS2 `Address` or `Receiver`: the
/// account variant tag 0, then the 32 address bytes.
pub open spec fn address_bytes(a: AccountAddress) -> Seq<u8> {
    seq![0u8] + a.0@
}

/// A CIS2 additional-data field: its 2-byte length, then its bytes.
pub open spec fn additional_data_bytes(d: Seq<u8>) -> Seq<u8> {
    u16_le(d.len() as u16) + d
}

/// One transfer record, fields in their fixed order.
pub open spec fn transfer_bytes(t: Transfer) -> Seq<u8> {
    token_id_bytes(t.token_id.0@) + leb128_u64(t.amount.0) + address_bytes(t.from)
        + address_bytes(t.to) + additional_data_bytes(t.data@)
}

/// The concatenation of the encodings of a sequence of transfer records.
pub open spec fn cat_transfers(s: Seq<Transfer>) -> Seq<u8>
    decreases s.len(),
{
    if s.len() == 0 {
        Seq::empty()
    } else {
        cat_transfers(s.drop_last()) + transfer_bytes(s.last())
    }
}

/// The operator-update flag: 0 removes, 1 adds.
pub open spec fn operator_update_byte(u: OperatorUpdate) -> u8 {
    match u {
        OperatorUpdate::Remove => 0u8,
        OperatorUpdate::Add => 1u8,
    }
}

/// One operator-update record: the flag, then the operator address.
pub open spec fn update_operator_bytes(u: UpdateOperator) -> Seq<u8> {
    seq![operator_update_byte(u.update)] + address_bytes(u.operator)
}

/// The concatenation of the encodings of a sequence of operator updates.
pub open spec fn cat_update_operators(s: Seq<UpdateOperator>) -> Seq<u8>
    decreases s.len(),
{
    if s.len() == 0 {
        Seq::empty()
    } else {
        cat_update_operators(s.drop_last()) + update_operator_bytes(s.last())
    }
}

/// The variant tag of a payload: 0 for a transfer, 1 for an operator
/// update. The tag is part of the wire protocol and must never change.
pub open spec fn payload_tag(p: PermitPayload) -> u8 {
    match p {
        PermitPayload::Transfer(_) => 0u8,
        PermitPayload::UpdateOperator(_) => 1u8,
    }
}

/// The number of records a payload carries.
pub open spec fn payload_count(p: PermitPayload) -> nat {
    match p {
        PermitPayload::Transfer(tp) => tp.0@.len(),
        PermitPayload::UpdateOperator(up) => up.0@.len(),
    }
}

/// A payload: its variant tag, its 2-byte record count, then its records.
pub open spec fn payload_bytes(p: PermitPayload) -> Seq<u8> {
    match p {
        PermitPayload::Transfer(tp) => {
            seq![0u8] + u16_le(tp.0@.len() as u16) + cat_transfers(tp.0@)
        },
        PermitPayload::UpdateOperator(up) => {
            seq![1u8] + u16_le(up.0@.len() as u16) + cat_update_operators(up.0@)
        },
    }
}

/// An entry-point name: its 2-byte length, then its bytes.
pub open spec fn entrypoint_bytes(e: Seq<u8>) -> Seq<u8> {
    u16_le(e.len() as u16) + e
}

/// A contract address: index, then subindex, each 8 little-endian bytes.
pub open spec fn contract_address_bytes(c: ContractAddress) -> Seq<u8> {
    u64_le(c.index) + u64_le(c.subindex)
}

/// The canonical bytes of a permit message: the exact byte sequence the
/// signer signs and the contract re-verifies, fields in their fixed order.
pub open spec fn message_bytes(m: PermitMessage) -> Seq<u8> {
    contract_address_bytes(m.contract_address) + entrypoint_bytes(m.entry_point.0@)
        + u64_le(m.nonce) + u64_le(m.timestamp.millis) + payload_bytes(m.payload)
}

/// The signatures of one credential: the 1-byte entry count, then each key
/// index followed by its 64 signature bytes, in list order.
pub open spec fn cred_sigs_bytes(s: Seq<(u8, SignatureEd25519)>) -> Seq<u8> {
    seq![s.len() as u8] + cat_cred_entries(s)
}

/// The concatenation of the entries of one credential's signature list.
pub open spec fn cat_cred_entries(s: Seq<(u8, SignatureEd25519)>) -> Seq<u8>
    decreases s.len(),
{
    if s.len() == 0 {
        Seq::empty()
    } else {
        cat_cred_entries(s.drop_last()) + seq![s.last().0] + s.last().1.0@
    }
}

/// The whole signature map: the 1-byte credential count, then each
/// credential index followed by that credential's signature list.
pub open spec fn sig_map_bytes(s: Seq<(u8, CredentialSignatures)>) -> Seq<u8> {
    seq![s.len() as u8] + cat_sig_map_entries(s)
}

/// The concatenation of the entries of the signature map.
pub open spec fn cat_sig_map_entries(s: Seq<(u8, CredentialSignatures)>) -> Seq<u8>
    decreases s.len(),
{
    if s.len() == 0 {
        Seq::empty()
    } else {
        cat_sig_map_entries(s.drop_last()) + seq![s.last().0] + cred_sigs_bytes(s.last().1@)
    }
}

/// The bytes of the full permit parameter as submitted on-chain: the
/// signature map, the raw 32 signer bytes, then the message.
pub open spec fn permit_param_bytes(p: PermitParam) -> Seq<u8> {
    sig_map_bytes(p.signature@) + p.signer.0@ + message_bytes(p.message)
}

/// Appends the two little-endian bytes of `v`.
pub fn encode_u16_le(out: &mut Vec<u8>, v: u16)
    ensures
        final(out)@ == old(out)@ + u16_le(v),
{
    out.push((v % 0x100) as u8);
    out.push((v / 0x100) as u8);
    proof {
        assert(out@ =~= old(out)@ + u16_le(v));
    }
}

/// Appends the eight little-endian bytes of `v`.
pub fn encode_u64_le(out: &mut Vec<u8>, v: u64)
    ensures
        final(out)@ == old(out)@ + u64_le(v),
{
    out.push((v % 0x100) as u8);
    out.push(((v / 0x100) % 0x100) as u8);
    out.push(((v / 0x10000) % 0x100) as u8);
    out.push(((v / 0x1000000) % 0x100) as u8);
    out.push(((v / 0x100000000) % 0x100) as u8);
    out.push(((v / 0x10000000000) % 0x100) as u8);
    out.push(((v / 0x1000000000000) % 0x100) as u8);
    out.push(((v / 0x100000000000000) % 0x100) as u8);
    proof {
        assert(out@ =~= old(out)@ + u64_le(v));
    }
}

/// Appends the unsigned LEB128 encoding of `v`.
pub fn encode_leb128_u64(out: &mut Vec<u8>, v: u64)
    ensures
        final(out)@ == old(out)@ + leb128_u64(v),
{
    let mut x: u64 = v;
    while x >= 128
        invariant
            out@ + leb128_u64(x) == old(out)@ + leb128_u64(v),
        decreases x,
    {
        let ghost pre = out@;
        out.push((x % 128 + 128) as u8);
        proof {
            assert(leb128_u64(x) == seq![(x % 128 + 128) as u8] + leb128_u64(x / 128));
            assert(out@ + leb128_u64(x / 128) =~= pre + leb128_u64(x));
        }
        x = x / 128;
    }
    let ghost pre = out@;
    out.push(x as u8);
    proof {
        assert(leb128_u64(x) == seq![x as u8]);
        assert(out@ =~= pre + leb128_u64(x));
        assert(out@ =~= old(out)@ + leb128_u64(v));
    }
}

/// Appends every byte of a vector.
pub fn encode_raw(out: &mut Vec<u8>, b: &Vec<u8>)
    ensures
        final(out)@ == old(out)@ + b@,
{
    let n = b.len();
    let mut i: usize = 0;
    while i < n
        invariant
            i <= n,
            n == b@.len(),
            out@ == old(out)@ + b@.take(i as int),
        decreases n - i,
    {
        out.push(b[i]);
        proof {
            assert(out@ =~= old(out)@ + b@.take(i + 1 as int));
        }
        i += 1;
    }
    proof {
        assert(b@.take(n as int) =~= b@);
    }
}

/// Appends every byte of a fixed-size array.
pub fn encode_array<const N: usize>(out: &mut Vec<u8>, a: &[u8; N])
    ensures
        final(out)@ == old(out)@ + a@,
{
    let mut i: usize = 0;
    while i < N
        invariant
            i <= N,
            out@ == old(out)@ + a@.take(i as int),
        decreases N - i,
    {
        out.push(a[i]);
        proof {
            assert(out@ =~= old(out)@ + a@.take(i + 1 as int));
        }
        i += 1;
    }
    proof {
        assert(a@.take(N as int) =~= a@);
    }
}

/// Appends a token id: its 1-byte length, then its bytes.
pub fn encode_token_id(out: &mut Vec<u8>, t: &TokenId)
    requires
        valid_token_id(t.0@),
    ensures
        final(out)@ == old(out)@ + token_id_bytes(t.0@),
{
    let len = t.0.len();
    out.push(len as u8);
    encode_raw(out, &t.0);
    proof {
        assert(out@ =~= old(out)@ + token_id_bytes(t.0@));
    }
}

/// Appends an account address as a CIS2 address: tag 0, then 32 bytes.
pub fn encode_address(out: &mut Vec<u8>, a: &AccountAddress)
    ensures
        final(out)@ == old(out)@ + address_bytes(*a),
{
    out.push(0u8);
    encode_array(out, &a.0);
    proof {
        assert(out@ =~= old(out)@ + address_bytes(*a));
    }
}

/// Appends an additional-data field: its 2-byte length, then its bytes.
pub fn encode_additional_data(out: &mut Vec<u8>, d: &Vec<u8>)
    requires
        d@.len() <= 0xffff,
    ensures
        final(out)@ == old(out)@ + additional_data_bytes(d@),
{
    encode_u16_le(out, d.len() as u16);
    encode_raw(out, d);
    proof {
        assert(out@ =~= old(out)@ + additional_data_bytes(d@));
    }
}

/// Appends one transfer record.
pub fn encode_transfer(out: &mut Vec<u8>, t: &Transfer)
    requires
        transfer_wf(*t),
    ensures
        final(out)@ == old(out)@ + transfer_bytes(*t),
{
    encode_token_id(out, &t.token_id);
    encode_leb128_u64(out, t.amount.0);
    encode_address(out, &t.from);
    encode_address(out, &t.to);
    encode_additional_data(out, &t.data);
    proof {
        assert(out@ =~= old(out)@ + transfer_bytes(*t));
    }
}

/// Appends transfer parameters: the 2-byte record count, then each record.
/// An empty sequence still carries its explicit zero count.
pub fn encode_transfer_params(out: &mut Vec<u8>, p: &TransferParams)
    requires
        transfer_params_wf(*p),
    ensures
        final(out)@ == old(out)@ + u16_le(p.0@.len() as u16) + cat_transfers(p.0@),
{
    let n = p.0.len();
    encode_u16_le(out, n as u16);
    let mut i: usize = 0;
    while i < n
        invariant
            i <= n,
            n == p.0@.len(),
            transfer_params_wf(*p),
            out@ == old(out)@ + u16_le(p.0@.len() as u16) + cat_transfers(p.0@.take(i as int)),
        decreases n - i,
    {
        encode_transfer(out, &p.0[i]);
        proof {
            assert(p.0@.take(i + 1 as int).drop_last() =~= p.0@.take(i as int));
            assert(out@ =~= old(out)@ + u16_le(p.0@.len() as u16) + cat_transfers(
                p.0@.take(i + 1 as int),
            ));
        }
        i += 1;
    }
    proof {
        assert(p.0@.take(n as int) =~= p.0@);
    }
}

/// Appends one operator-update record.
pub fn encode_update_operator(out: &mut Vec<u8>, u: &UpdateOperator)
    ensures
        final(out)@ == old(out)@ + update_operator_bytes(*u),
{
    match u.update {
        OperatorUpdate::Remove => out.push(0u8),
        OperatorUpdate::Add => out.push(1u8),
    }
    encode_address(out, &u.operator);
    proof {
        assert(out@ =~= old(out)@ + update_operator_bytes(*u));
    }
}

/// Appends operator-update parameters: the 2-byte record count, then each
/// record. An empty sequence still carries its explicit zero count.
pub fn encode_update_operator_params(out: &mut Vec<u8>, p: &UpdateOperatorParams)
    requires
        update_operator_params_wf(*p),
    ensures
        final(out)@ == old(out)@ + u16_le(p.0@.len() as u16) + cat_update_operators(p.0@),
{
    let n = p.0.len();
    encode_u16_le(out, n as u16);
    let mut i: usize = 0;
    while i < n
        invariant
            i <= n,
            n == p.0@.len(),
            out@ == old(out)@ + u16_le(p.0@.len() as u16) + cat_update_operators(
                p.0@.take(i as int),
            ),
        decreases n - i,
    {
        encode_update_operator(out, &p.0[i]);
        proof {
            assert(p.0@.take(i + 1 as int).drop_last() =~= p.0@.take(i as int));
            assert(out@ =~= old(out)@ + u16_le(p.0@.len() as u16) + cat_update_operators(
                p.0@.take(i + 1 as int),
            ));
        }
        i += 1;
    }
    proof {
        assert(p.0@.take(n as int) =~= p.0@);
    }
}

/// Appends a payload: its variant tag, then its records behind their count.
pub fn encode_payload(out: &mut Vec<u8>, p: &PermitPayload)
    requires
        payload_wf(*p),
    ensures
        final(out)@ == old(out)@ + payload_bytes(*p),
{
    match p {
        PermitPayload::Transfer(tp) => {
            out.push(0u8);
            encode_transfer_params(out, tp);
        },
        PermitPayload::UpdateOperator(up) => {
            out.push(1u8);
            encode_update_operator_params(out, up);
        },
    }
    proof {
        assert(out@ =~= old(out)@ + payload_bytes(*p));
    }
}

/// Appends an entry-point name: its 2-byte length, then its bytes.
pub fn encode_entrypoint(out: &mut Vec<u8>, e: &EntrypointName)
    requires
        valid_entrypoint(e.0@),
    ensures
        final(out)@ == old(out)@ + entrypoint_bytes(e.0@),
{
    encode_u16_le(out, e.0.len() as u16);
    encode_raw(out, &e.0);
    proof {
        assert(out@ =~= old(out)@ + entrypoint_bytes(e.0@));
    }
}

/// Appends a contract address: index, then subindex.
pub fn encode_contract_address(out: &mut Vec<u8>, c: &ContractAddress)
    ensures
        final(out)@ == old(out)@ + contract_address_bytes(*c),
{
    encode_u64_le(out, c.index);
    encode_u64_le(out, c.subindex);
    proof {
        assert(out@ =~= old(out)@ + contract_address_bytes(*c));
    }
}

/// Appends the canonical bytes of a permit message.
pub fn encode_message_into(out: &mut Vec<u8>, m: &PermitMessage)
    requires
        message_wf(*m),
    ensures
        final(out)@ == old(out)@ + message_bytes(*m),
{
    encode_contract_address(out, &m.contract_address);
    encode_entrypoint(out, &m.entry_point);
    encode_u64_le(out, m.nonce);
    encode_u64_le(out, m.timestamp.millis);
    encode_payload(out, &m.payload);
    proof {
        assert(out@ =~= old(out)@ + message_bytes(*m));
    }
}

/// The canonical bytes of a permit message: the exact sequence the signer
/// must have signed.
pub fn encode_message(m: &PermitMessage) -> (r: Vec<u8>)
    requires
        message_wf(*m),
    ensures
        r@ == message_bytes(*m),
{
    let mut out: Vec<u8> = Vec::new();
    encode_message_into(&mut out, m);
    out
}

/// Appends the signature list of one credential.
pub fn encode_cred_sigs(out: &mut Vec<u8>, s: &CredentialSignatures)
    requires
        s@.len() <= 255,
    ensures
        final(out)@ == old(out)@ + cred_sigs_bytes(s@),
{
    let n = s.len();
    out.push(n as u8);
    let mut i: usize = 0;
    while i < n
        invariant
            i <= n,
            n == s@.len(),
            n <= 255,
            out@ == old(out)@ + seq![(n as u8)] + cat_cred_entries(s@.take(i as int)),
        decreases n - i,
    {
        out.push(s[i].0);
        encode_array(out, &s[i].1.0);
        proof {
            assert(s@.take(i + 1 as int).drop_last() =~= s@.take(i as int));
            assert(out@ =~= old(out)@ + seq![(n as u8)] + cat_cred_entries(
                s@.take(i + 1 as int),
            ));
        }
        i += 1;
    }
    proof {
        assert(s@.take(n as int) =~= s@);
        assert(out@ =~= old(out)@ + cred_sigs_bytes(s@));
    }
}

/// Appends the full signature map.
pub fn encode_sig_map(out: &mut Vec<u8>, s: &Vec<(u8, CredentialSignatures)>)
    requires
        s@.len() <= 255,
        forall|i: int| 0 <= i < s@.len() ==> (#[trigger] s@[i]).1@.len() <= 255,
    ensures
        final(out)@ == old(out)@ + sig_map_bytes(s@),
{
    let n = s.len();
    out.push(n as u8);
    let mut i: usize = 0;
    while i < n
        invariant
            i <= n,
            n == s@.len(),
            n <= 255,
            forall|j: int| 0 <= j < s@.len() ==> (#[trigger] s@[j]).1@.len() <= 255,
            out@ == old(out)@ + seq![(n as u8)] + cat_sig_map_entries(s@.take(i as int)),
        decreases n - i,
    {
        out.push(s[i].0);
        encode_cred_sigs(out, &s[i].1);
        proof {
            assert(s@.take(i + 1 as int).drop_last() =~= s@.take(i as int));
            assert(out@ =~= old(out)@ + seq![(n as u8)] + cat_sig_map_entries(
                s@.take(i + 1 as int),
            ));
        }
        i += 1;
    }
    proof {
        assert(s@.take(n as int) =~= s@);
        assert(out@ =~= old(out)@ + sig_map_bytes(s@));
    }
}

/// The bytes of the full permit parameter, ready to stand as the parameter
/// of the contract's permit entry point.
pub fn encode_permit_param(p: &PermitParam) -> (r: Vec<u8>)
    requires
        permit_param_wf(*p),
    ensures
        r@ == permit_param_bytes(*p),
{
    let mut out: Vec<u8> = Vec::new();
    encode_sig_map(&mut out, &p.signature);
    encode_array(&mut out, &p.signer.0);
    encode_message_into(&mut out, &p.message);
    proof {
        assert(out@ =~= permit_param_bytes(*p));
    }
    out
}

/// The payload variant tag is stable: whatever the field values, the first
/// byte of an encoded payload is 0 for a transfer and 1 for an operator
/// update.
pub proof fn lemma_payload_tag_stable(p: PermitPayload)
    ensures
        payload_bytes(p).len() >= 3,
        payload_bytes(p)[0] == payload_tag(p),
{
}

/// A payload's record count is never omitted: bytes 1 and 2 of an encoded
/// payload are exactly the little-endian count of its records, for an empty
/// collection the two explicit zero bytes.
pub proof fn lemma_count_prefix(p: PermitPayload)
    requires
        payload_wf(p),
    ensures
        payload_bytes(p).subrange(1, 3) == u16_le(payload_count(p) as u16),
        payload_count(p) == 0 ==> payload_bytes(p) == seq![payload_tag(p), 0u8, 0u8],
{
    match p {
        PermitPayload::Transfer(tp) => {
            assert(payload_bytes(p).subrange(1, 3) =~= u16_le(tp.0@.len() as u16));
            if tp.0@.len() == 0 {
                assert(payload_bytes(p) =~= seq![payload_tag(p), 0u8, 0u8]);
            }
        },
        PermitPayload::UpdateOperator(up) => {
            assert(payload_bytes(p).subrange(1, 3) =~= u16_le(up.0@.len() as u16));
            if up.0@.len() == 0 {
                assert(payload_bytes(p) =~= seq![payload_tag(p), 0u8, 0u8]);
            }
        },
    }
}

/// The codec is deterministic: any two encodings of the same permit message
/// are byte-identical.
pub proof fn lemma_codec_deterministic(m: PermitMessage, b1: Seq<u8>, b2: Seq<u8>)
    requires
        b1 == message_bytes(m),
        b2 == message_bytes(m),
    ensures
        b1 == b2,
{
}

} // verus!
