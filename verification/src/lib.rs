//! A sponsored-transaction relay core: an end user signs an off-chain permit
//! for a CIS2 token operation, and the relay validates the wire request,
//! builds the canonical permit message bytes, checks replay protection and
//! the Ed25519 signature, and drives the submission to a chain node.

pub mod codec;
pub mod crypto;
pub mod error;
pub mod parse;
pub mod pipeline;
pub mod types;
