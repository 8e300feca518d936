//! The closed error taxonomy of the relay, and the response shape in which a
//! failure is reported to the caller.

use vstd::prelude::*;
use vstd::string::StringExecFns;

verus! {

/// Every failure of the relay pipeline maps to exactly one of these kinds.
/// `NodeAccess` wraps the text of a low-level transport failure; every other
/// kind is a plain tag.
#[derive(Debug, Clone)]
pub enum InjectStatementError {
    /// The node query for the signer's account state failed.
    AccountInfoQueryError,
    /// The node rejected or failed to admit the submitted transaction.
    SumbitSponsoredTransactionError,
    /// A signer/from/to/operator address string was malformed.
    AccountFromStringError,
    /// The configured entry-point name is not syntactically valid.
    OwnedReceiveNameError,
    /// The token id string could not be decoded.
    TokenIdError,
    /// The token amount was malformed or out of range.
    TokenAmountError,
    /// Some other field was structurally invalid (nonce, timestamp, ...).
    ParameterError,
    /// The signature was malformed or failed verification.
    SignatureError,
    /// The CIS2 additional-data field was malformed.
    AdditionalDataError,
    /// The permit's nonce did not equal the account's current on-chain nonce.
    NonceMismatchError,
    /// A low-level RPC/transport failure, wrapping the transport's message.
    NodeAccess(String),
}

impl InjectStatementError {
    /// The stable human-readable message for this error kind.
    pub fn describe(&self) -> (r: String)
        ensures
            r@ == spec_describe(self),
    {
        match self {
            InjectStatementError::AccountInfoQueryError => "Account info query error.".to_owned(),
            InjectStatementError::SumbitSponsoredTransactionError => {
                "Sumbit sponsored transaction error.".to_owned()
            },
            InjectStatementError::AccountFromStringError => "Account from_str error.".to_owned(),
            InjectStatementError::OwnedReceiveNameError => "Owned received name error.".to_owned(),
            InjectStatementError::TokenIdError => "TokenId error.".to_owned(),
            InjectStatementError::TokenAmountError => "TokenAmount error.".to_owned(),
            InjectStatementError::ParameterError => "Parameter error.".to_owned(),
            InjectStatementError::SignatureError => "Signature error.".to_owned(),
            InjectStatementError::AdditionalDataError => "AdditionalData error.".to_owned(),
            InjectStatementError::NonceMismatchError => "Nonce mismatch error.".to_owned(),
            InjectStatementError::NodeAccess(msg) => {
                let mut s = "Node access error: ".to_owned();
                s.append(msg.as_str());
                s
            },
        }
    }

    /// The HTTP-status-like code under which this error kind is reported:
    /// 400 for a malformed or stale caller input, 500 for a relay
    /// misconfiguration, 502 for a node-side failure.
    pub fn code(&self) -> (r: u16)
        ensures
            r == spec_code(self),
    {
        match self {
            InjectStatementError::AccountInfoQueryError => 502,
            InjectStatementError::SumbitSponsoredTransactionError => 502,
            InjectStatementError::AccountFromStringError => 400,
            InjectStatementError::OwnedReceiveNameError => 500,
            InjectStatementError::TokenIdError => 400,
            InjectStatementError::TokenAmountError => 400,
            InjectStatementError::ParameterError => 400,
            InjectStatementError::SignatureError => 400,
            InjectStatementError::AdditionalDataError => 400,
            InjectStatementError::NonceMismatchError => 400,
            InjectStatementError::NodeAccess(_) => 502,
        }
    }

    /// The error response sent back to the caller for this kind.
    pub fn to_response(&self) -> (r: ErrorResponse)
        ensures
            r.code == spec_code(self),
            r.message@ == spec_describe(self),
    {
        ErrorResponse { code: self.code(), message: self.describe() }
    }
}

/// The message text of each error kind.
pub open spec fn spec_describe(e: &InjectStatementError) -> Seq<char> {
    match e {
        InjectStatementError::AccountInfoQueryError => "Account info query error."@,
        InjectStatementError::SumbitSponsoredTransactionError => {
            "Sumbit sponsored transaction error."@
        },
        InjectStatementError::AccountFromStringError => "Account from_str error."@,
        InjectStatementError::OwnedReceiveNameError => "Owned received name error."@,
        InjectStatementError::TokenIdError => "TokenId error."@,
        InjectStatementError::TokenAmountError => "TokenAmount error."@,
        InjectStatementError::ParameterError => "Parameter error."@,
        InjectStatementError::SignatureError => "Signature error."@,
        InjectStatementError::AdditionalDataError => "AdditionalData error."@,
        InjectStatementError::NonceMismatchError => "Nonce mismatch error."@,
        InjectStatementError::NodeAccess(msg) => "Node access error: "@ + msg@,
    }
}

/// The report code of each error kind: 400 for caller errors, 500 for a
/// misconfigured entry point, 502 for node-side failures.
pub open spec fn spec_code(e: &InjectStatementError) -> u16 {
    match e {
        InjectStatementError::AccountInfoQueryError => 502,
        InjectStatementError::SumbitSponsoredTransactionError => 502,
        InjectStatementError::AccountFromStringError => 400,
        InjectStatementError::OwnedReceiveNameError => 500,
        InjectStatementError::TokenIdError => 400,
        InjectStatementError::TokenAmountError => 400,
        InjectStatementError::ParameterError => 400,
        InjectStatementError::SignatureError => 400,
        InjectStatementError::AdditionalDataError => 400,
        InjectStatementError::NodeAccess(_) => 502,
        InjectStatementError::NonceMismatchError => 400,
    }
}

/// Response in case of an error. This is going to be encoded as a JSON body
/// with fields 'code' and 'message'.
#[derive(Debug, Clone)]
pub struct ErrorResponse {
    pub code: u16,
    pub message: String,
}

} // verus!
