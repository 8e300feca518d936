//! Decoding of the wire request strings: hex fields, the decimal nonce, the
//! entry-point name, and — through the chain library — base58check account
//! addresses and timestamps.

use vstd::prelude::*;
use vstd::string::StringSliceAdditionalSpecFns;
use crate::types::{AccountAddress, EntrypointName, SignatureEd25519, TokenId, graphic_ascii,
    valid_entrypoint, valid_token_id};

verus! {

/// The UTF-8 bytes of a string value.
pub open spec fn str_bytes(s: Seq<char>) -> Seq<u8> {
    vstd::utf8::encode_utf8(s)
}

/// Whether a byte is an ASCII hex digit.
pub open spec fn hex_digit(b: u8) -> bool {
    (0x30 <= b <= 0x39) || (0x41 <= b <= 0x46) || (0x61 <= b <= 0x66)
}

/// The value of an ASCII hex digit.
pub open spec fn hex_val(b: u8) -> u8 {
    if 0x30 <= b <= 0x39 {
        (b - 0x30) as u8
    } else if 0x41 <= b <= 0x46 {
        (b - 0x41 + 10) as u8
    } else {
        (b - 0x61 + 10) as u8
    }
}

/// Whether a byte sequence is a well-formed hex string: an even number of
/// hex digits.
pub open spec fn hex_ok(s: Seq<u8>) -> bool {
    s.len() % 2 == 0 && forall|i: int| 0 <= i < s.len() ==> hex_digit(#[trigger] s[i])
}

/// The bytes a hex string denotes, two digits each.
pub open spec fn hex_bytes(s: Seq<u8>) -> Seq<u8>
    decreases s.len(),
{
    if s.len() < 2 {
        Seq::empty()
    } else {
        hex_bytes(s.drop_last().drop_last()) + seq![
            (hex_val(s[s.len() - 2]) * 16 + hex_val(s[s.len() - 1])) as u8,
        ]
    }
}

/// Whether a byte is an ASCII decimal digit.
pub open spec fn dec_digit(b: u8) -> bool {
    0x30 <= b <= 0x39
}

/// The numeric value of a decimal digit string, most significant first.
pub open spec fn dec_val(s: Seq<u8>) -> int
    decreases s.len(),
{
    if s.len() == 0 {
        0
    } else {
        dec_val(s.drop_last()) * 10 + (s.last() - 0x30)
    }
}

/// Whether a byte sequence is a decimal numeral denoting a 64-bit value:
/// nonempty, digits only, value within range.
pub open spec fn dec_ok(s: Seq<u8>) -> bool {
    s.len() > 0 && (forall|i: int| 0 <= i < s.len() ==> dec_digit(#[trigger] s[i])) && dec_val(s)
        <= u64::MAX
}

/// A digit string's value is never negative.
proof fn lemma_dec_val_nonneg(s: Seq<u8>)
    requires
        forall|i: int| 0 <= i < s.len() ==> dec_digit(#[trigger] s[i]),
    ensures
        dec_val(s) >= 0,
    decreases s.len(),
{
    if s.len() > 0 {
        lemma_dec_val_nonneg(s.drop_last());
    }
}

/// Reading further digits never shrinks the value.
proof fn lemma_dec_val_mono(s: Seq<u8>, i: int, j: int)
    requires
        0 <= i <= j <= s.len(),
        forall|k: int| 0 <= k < s.len() ==> dec_digit(#[trigger] s[k]),
    ensures
        dec_val(s.take(i)) <= dec_val(s.take(j)),
    decreases j - i,
{
    if i < j {
        lemma_dec_val_mono(s, i, j - 1);
        assert(s.take(j).drop_last() =~= s.take(j - 1));
        assert(forall|k: int|
            0 <= k < s.take(j - 1).len() ==> dec_digit(#[trigger] s.take(j - 1)[k]));
        lemma_dec_val_nonneg(s.take(j - 1));
        assert(dec_val(s.take(j)) == dec_val(s.take(j - 1)) * 10 + (s[j - 1] - 0x30));
    }
}

/// Parses a nonempty all-decimal string as a 64-bit value; `None` exactly
/// when the string is empty, holds a non-digit, or overflows.
pub fn parse_u64_decimal(s: &str) -> (r: Option<u64>)
    ensures
        r is Some <==> dec_ok(s.spec_bytes()),
        r matches Some(v) ==> v == dec_val(s.spec_bytes()),
{
    let b = s.as_bytes();
    let n = b.len();
    if n == 0 {
        return None;
    }
    let mut acc: u64 = 0;
    let mut i: usize = 0;
    while i < n
        invariant
            0 < n == b@.len(),
            b@ == s.spec_bytes(),
            i <= n,
            forall|k: int| 0 <= k < i ==> dec_digit(#[trigger] b@[k]),
            acc == dec_val(b@.take(i as int)),
        decreases n - i,
    {
        let c = b[i];
        if c < 0x30 || c > 0x39 {
            return None;
        }
        let d: u64 = (c - 0x30) as u64;
        if acc > (u64::MAX - d) / 10 {
            proof {
                assert(b@.take(i + 1 as int).drop_last() =~= b@.take(i as int));
                assert(dec_val(b@.take(i + 1 as int)) > u64::MAX);
                if dec_ok(b@) {
                    lemma_dec_val_mono(b@, i + 1 as int, n as int);
                    assert(b@.take(n as int) =~= b@);
                }
            }
            return None;
        }
        acc = acc * 10 + d;
        proof {
            assert(b@.take(i + 1 as int).drop_last() =~= b@.take(i as int));
        }
        i += 1;
    }
    proof {
        assert(b@.take(n as int) =~= b@);
    }
    Some(acc)
}

/// Decodes an even-length hex string; `None` exactly when the length is odd
/// or a character is no hex digit.
pub fn hex_decode(s: &str) -> (r: Option<Vec<u8>>)
    ensures
        r is Some <==> hex_ok(s.spec_bytes()),
        r matches Some(v) ==> v@ == hex_bytes(s.spec_bytes()),
        r matches Some(v) ==> 2 * v@.len() == s.spec_bytes().len(),
{
    let b = s.as_bytes();
    let n = b.len();
    if n % 2 != 0 {
        return None;
    }
    let mut out: Vec<u8> = Vec::new();
    let mut i: usize = 0;
    while i < n
        invariant
            n == b@.len(),
            b@ == s.spec_bytes(),
            n % 2 == 0,
            i <= n,
            i % 2 == 0,
            forall|k: int| 0 <= k < i ==> hex_digit(#[trigger] b@[k]),
            out@ == hex_bytes(b@.take(i as int)),
            2 * out@.len() == i,
        decreases n - i,
    {
        let hi = match hex_digit_value(b[i]) {
            Some(v) => v,
            None => {
                return None;
            },
        };
        let lo = match hex_digit_value(b[i + 1]) {
            Some(v) => v,
            None => {
                return None;
            },
        };
        out.push(hi * 16 + lo);
        proof {
            let t = b@.take(i + 2 as int);
            assert(t.drop_last().drop_last() =~= b@.take(i as int));
            assert(t[t.len() - 2] == b@[i as int]);
            assert(t[t.len() - 1] == b@[i + 1 as int]);
        }
        i += 2;
    }
    proof {
        assert(b@.take(n as int) =~= b@);
    }
    Some(out)
}

/// The value of one hex digit byte, or `None` for any other byte.
fn hex_digit_value(b: u8) -> (r: Option<u8>)
    ensures
        r is Some <==> hex_digit(b),
        r matches Some(v) ==> v == hex_val(b) && v < 16,
{
    if 0x30 <= b && b <= 0x39 {
        Some(b - 0x30)
    } else if 0x41 <= b && b <= 0x46 {
        Some(b - 0x41 + 10)
    } else if 0x61 <= b && b <= 0x66 {
        Some(b - 0x61 + 10)
    } else {
        None
    }
}

/// Decodes a hex token id of at most 255 bytes; `None` exactly when the hex
/// is malformed or the id too long.
pub fn decode_token_id(s: &str) -> (r: Option<TokenId>)
    ensures
        r is Some <==> hex_ok(s.spec_bytes()) && valid_token_id(hex_bytes(s.spec_bytes())),
        r matches Some(t) ==> t.0@ == hex_bytes(s.spec_bytes()),
{
    match hex_decode(s) {
        Some(v) => {
            if v.len() <= 255 {
                Some(TokenId(v))
            } else {
                None
            }
        },
        None => None,
    }
}

/// Whether a hex string denotes exactly 64 bytes.
pub open spec fn sig_str_ok(s: Seq<u8>) -> bool {
    hex_ok(s) && hex_bytes(s).len() == 64
}

/// Decodes a 64-byte hex signature; `None` exactly when the hex is
/// malformed or not 128 digits.
pub fn decode_signature(s: &str) -> (r: Option<SignatureEd25519>)
    ensures
        r is Some <==> sig_str_ok(s.spec_bytes()),
        r matches Some(sig) ==> sig.0@ == hex_bytes(s.spec_bytes()),
{
    let v = match hex_decode(s) {
        Some(v) => v,
        None => {
            return None;
        },
    };
    if v.len() != 64 {
        return None;
    }
    let mut arr: [u8; 64] = [0u8; 64];
    let mut i: usize = 0;
    while i < 64
        invariant
            i <= 64,
            v@.len() == 64,
            v@ == hex_bytes(s.spec_bytes()),
            forall|k: int| 0 <= k < i ==> arr@[k] == v@[k],
        decreases 64 - i,
    {
        arr[i] = v[i];
        i += 1;
    }
    proof {
        assert(arr@ =~= v@);
    }
    Some(SignatureEd25519(arr))
}

/// Validates an entry-point name and takes a copy of its bytes; `None`
/// exactly when the name is no syntactically valid entry point.
pub fn check_entrypoint(s: &str) -> (r: Option<EntrypointName>)
    ensures
        r is Some <==> valid_entrypoint(s.spec_bytes()),
        r matches Some(e) ==> e.0@ == s.spec_bytes(),
{
    let b = s.as_bytes();
    let n = b.len();
    if n >= 100 {
        return None;
    }
    let mut out: Vec<u8> = Vec::new();
    let mut i: usize = 0;
    while i < n
        invariant
            n == b@.len() < 100,
            b@ == s.spec_bytes(),
            i <= n,
            forall|k: int| 0 <= k < i ==> graphic_ascii(#[trigger] b@[k]),
            out@ == b@.take(i as int),
        decreases n - i,
    {
        let c = b[i];
        if c < 0x21 || c > 0x7e {
            return None;
        }
        out.push(c);
        proof {
            assert(out@ =~= b@.take(i + 1 as int));
        }
        i += 1;
    }
    proof {
        assert(b@.take(n as int) =~= b@);
    }
    Some(EntrypointName(out))
}

/// The account address a base58check string denotes, if any.
pub uninterp spec fn account_of_str(s: Seq<char>) -> Option<Seq<u8>>;

/// Relies on `concordium_contracts_common::AccountAddress`'s `FromStr`:
/// base58check decoding with version byte 1, yielding the 32 address bytes;
/// the result depends on the string alone.
#[verifier::external_body]
pub(crate) fn parse_account_address(s: &str) -> (r: Option<AccountAddress>)
    ensures
        r is Some <==> account_of_str(s@) is Some,
        r matches Some(a) ==> account_of_str(s@) == Some(a.0@),
{
    match <concordium_contracts_common::AccountAddress as core::str::FromStr>::from_str(s) {
        Ok(a) => Some(AccountAddress(a.0)),
        Err(_) => None,
    }
}

/// The millisecond timestamp a time string denotes, if any.
pub uninterp spec fn timestamp_of_str(s: Seq<char>) -> Option<u64>;

/// Relies on `concordium_contracts_common::Timestamp`'s `FromStr`: it reads
/// either a plain millisecond count or an RFC3339 date, not earlier than the
/// unix epoch; the result depends on the string alone.
#[verifier::external_body]
pub(crate) fn parse_timestamp(s: &str) -> (r: Option<u64>)
    ensures
        r == timestamp_of_str(s@),
{
    match <concordium_contracts_common::Timestamp as core::str::FromStr>::from_str(s) {
        Ok(t) => Some(t.timestamp_millis()),
        Err(_) => None,
    }
}

} // verus!
