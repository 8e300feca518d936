//! Local signature verification: the fail-fast check that the supplied
//! Ed25519 signature over the canonical permit bytes matches the signer's
//! registered public key, made before any chain resource is spent.

use vstd::prelude::*;
use crate::codec::{encode_message, message_bytes};
use crate::error::InjectStatementError;
use crate::types::{PermitMessage, SignatureEd25519, message_wf};

verus! {

/// Whether `sig` is a valid Ed25519 signature over `msg` by the public key
/// `pk` (false also when `pk` is no valid key encoding).
pub uninterp spec fn ed25519_verifies(pk: Seq<u8>, msg: Seq<u8>, sig: Seq<u8>) -> bool;

/// Relies on `ed25519_dalek::VerifyingKey::{from_bytes, verify}`: Ed25519
/// verification is a pure function of key, message and signature bytes.
#[verifier::external_body]
pub(crate) fn ed25519_check(pk: &[u8; 32], msg: &Vec<u8>, sig: &SignatureEd25519) -> (r: bool)
    ensures
        r == ed25519_verifies(pk@, msg@, sig.0@),
{
    match ed25519_dalek::VerifyingKey::from_bytes(pk) {
        Ok(key) => {
            let s = ed25519_dalek::Signature::from_bytes(&sig.0);
            ed25519_dalek::Verifier::verify(&key, msg.as_slice(), &s).is_ok()
        },
        Err(_) => false,
    }
}

/// Checks the claimed signature over the canonical bytes of `m` against the
/// signer's registered public key; fails with `SignatureError` exactly when
/// the cryptographic check fails.
pub fn verify_permit_signature(m: &PermitMessage, pk: &[u8; 32], sig: &SignatureEd25519) -> (r:
    Result<(), InjectStatementError>)
    requires
        message_wf(*m),
    ensures
        r is Ok <==> ed25519_verifies(pk@, message_bytes(*m), sig.0@),
        r matches Err(e) ==> e matches InjectStatementError::SignatureError,
{
    let bytes = encode_message(m);
    if ed25519_check(pk, &bytes, sig) {
        Ok(())
    } else {
        Err(InjectStatementError::SignatureError)
    }
}

} // verus!
