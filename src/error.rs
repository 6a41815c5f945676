//! The failures that the pipeline reports. Each boundary (address text,
//! base64, wire format, service reply, transport) has a kind of its own.
use vstd::prelude::*;

use solana_sdk::pubkey::ParsePubkeyError;

verus! {

#[verifier::external_type_specification]
#[verifier::external_body]
pub struct ExBincodeErrorKind(bincode::ErrorKind);

/// Failures of one exchange with the quoting service.
#[derive(Debug)]
pub enum Error {
    /// The transport failed; the text describes how.
    Reqwest(String),
    /// An address in a reply is not a valid base58 address.
    ParsePubkey(ParsePubkeyError),
    /// A payload in a reply is not valid base64.
    Base64Decode(base64::DecodeError),
    /// Decoded bytes are not a wire-format transaction.
    Bincode(bincode::Error),
    /// The service answered with an error message of its own.
    JupiterApi(String),
    /// A reply does not have the expected shape; the text describes how.
    SerdeJson(String),
}

/// Terminal failure of a whole swap.
#[derive(Debug, Clone, PartialEq, Eq)]
pub enum JupSwapError {
    Swap(String),
    Unknown(String),
}

impl JupSwapError {
    /// The human-readable description: the kind, then the detail.
    pub fn message(&self) -> (r: String)
        ensures
            r@ == match self {
                JupSwapError::Swap(m) => "Swap Error: "@ + m@,
                JupSwapError::Unknown(m) => "Unknown Error: "@ + m@,
            },
    {
        match self {
            JupSwapError::Swap(m) => {
                let r = String::from_str("Swap Error: ");
                r.concat(m.as_str())
            },
            JupSwapError::Unknown(m) => {
                let r = String::from_str("Unknown Error: ");
                r.concat(m.as_str())
            },
        }
    }
}

} // verus!
