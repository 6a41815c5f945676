//! Binary and textual encodings that cross the service boundary: base64
//! payloads, base58 account addresses and wire-format transactions.
use vstd::prelude::*;

use crate::error::Error;
use solana_sdk::pubkey::{ParsePubkeyError, Pubkey};
use solana_sdk::transaction::VersionedTransaction;
use std::str::FromStr;

verus! {

#[verifier::external_type_specification]
#[verifier::external_body]
pub struct ExParsePubkeyError(ParsePubkeyError);

#[verifier::external_type_specification]
#[verifier::external_body]
pub struct ExDecodeError(base64::DecodeError);

/// What base64 (standard alphabet, padded) decoding makes of a text, if it
/// is well-formed.
pub uninterp spec fn base64_bytes(text: Seq<char>) -> Option<Seq<u8>>;

/// The standard padded base64 text of a byte string.
pub uninterp spec fn base64_text(bytes: Seq<u8>) -> Seq<char>;

/// The 32 bytes that a base58 address text stands for, if it stands for any.
pub uninterp spec fn address_bytes(text: Seq<char>) -> Option<Seq<u8>>;

/// The base58 text of a 32-byte address.
pub uninterp spec fn address_text(bytes: Seq<u8>) -> Seq<char>;

/// Relies on base64::decode (standard engine): the decoded bytes, or the
/// error when the text is not valid padded base64.
#[verifier::external_body]
#[allow(deprecated)]
pub(crate) fn base64_decode(text: &str) -> (r: Result<Vec<u8>, base64::DecodeError>)
    ensures
        r is Ok <==> base64_bytes(text@) is Some,
        r is Ok ==> r->Ok_0@ == base64_bytes(text@)->0,
{
    base64::decode(text)
}

/// Relies on base64::encode (standard engine), and on its documented
/// round trip: decoding the produced text gives the bytes back.
#[verifier::external_body]
#[allow(deprecated)]
pub(crate) fn base64_encode(bytes: &[u8]) -> (r: String)
    ensures
        r@ == base64_text(bytes@),
        base64_bytes(r@) == Some(bytes@),
{
    base64::encode(bytes)
}

/// An account address: the 32 bytes of an ed25519 public key or of a
/// program-derived address.
#[derive(Clone, Copy, Debug, PartialEq, Eq)]
pub struct Address {
    pub bytes: [u8; 32],
}

/// Relies on `Pubkey::from_str`: texts longer than 44 characters are
/// refused, and a success yields the 32 decoded bytes.
#[verifier::external_body]
fn pubkey_from_str(text: &str) -> (r: Result<Address, ParsePubkeyError>)
    ensures
        r is Ok <==> address_bytes(text@) is Some,
        r is Ok ==> r->Ok_0.bytes@ == address_bytes(text@)->0,
        text@.len() > 44 ==> r is Err,
{
    match Pubkey::from_str(text) {
        Ok(key) => Ok(Address { bytes: key.to_bytes() }),
        Err(e) => Err(e),
    }
}

/// Relies on `Pubkey`'s `Display`, which writes the base58 text.
#[verifier::external_body]
fn pubkey_to_string(address: &Address) -> (r: String)
    ensures
        r@ == address_text(address.bytes@),
{
    Pubkey::new_from_array(address.bytes).to_string()
}

impl Address {
    /// Parses a base58 address text.
    pub fn parse(text: &str) -> (r: Result<Address, ParsePubkeyError>)
        ensures
            r is Ok <==> address_bytes(text@) is Some,
            r is Ok ==> r->Ok_0.bytes@ == address_bytes(text@)->0,
    {
        pubkey_from_str(text)
    }

    /// The base58 text of the address.
    pub fn to_text(&self) -> (r: String)
        ensures
            r@ == address_text(self.bytes@),
    {
        pubkey_to_string(self)
    }
}

} // verus!

verus! {

#[verifier::external_type_specification]
#[verifier::external_body]
pub struct ExVersionedTransaction(VersionedTransaction);

/// Whether a byte string is the bincode wire form of a versioned
/// transaction.
pub uninterp spec fn is_wire_transaction(bytes: Seq<u8>) -> bool;

/// Relies on `bincode::deserialize::<VersionedTransaction>`: it succeeds
/// exactly on the wire forms of transactions.
#[verifier::external_body]
fn deserialize_transaction(bytes: &[u8]) -> (r: Result<VersionedTransaction, bincode::Error>)
    ensures
        r is Ok <==> is_wire_transaction(bytes@),
{
    bincode::deserialize(bytes)
}

/// A partially signed transaction together with the wire bytes that it was
/// decoded from.
#[derive(Debug)]
pub struct Transaction {
    pub bytes: Vec<u8>,
    pub value: VersionedTransaction,
}

/// The outcome that decoding a base64 transaction text must have: a base64
/// failure, a wire-format failure, or the transaction with exactly the
/// decoded bytes.
pub open spec fn decode_outcome(text: Seq<char>, r: Result<Transaction, Error>) -> bool {
    match base64_bytes(text) {
        None => r matches Err(Error::Base64Decode(_)),
        Some(b) => if is_wire_transaction(b) {
            r matches Ok(t) && t.bytes@ == b
        } else {
            r matches Err(Error::Bincode(_))
        },
    }
}

/// Decodes a base64 text holding a wire-format transaction.
pub fn decode(base64_transaction: String) -> (r: Result<Transaction, Error>)
    ensures
        decode_outcome(base64_transaction@, r),
{
    let bytes = match base64_decode(base64_transaction.as_str()) {
        Ok(b) => b,
        Err(e) => return Err(Error::Base64Decode(e)),
    };
    match deserialize_transaction(bytes.as_slice()) {
        Ok(value) => Ok(Transaction { bytes, value }),
        Err(e) => Err(Error::Bincode(e)),
    }
}

/// Decodes an optional transaction text: absence stays absence, while a
/// present text must decode.
pub fn decode_optional(base64_transaction: Option<String>) -> (r: Result<Option<Transaction>, Error>)
    ensures
        base64_transaction is None ==> r == Ok::<Option<Transaction>, Error>(None),
        base64_transaction matches Some(text) ==> match r {
            Ok(Some(t)) => decode_outcome(text@, Ok(t)),
            Ok(None) => false,
            Err(e) => decode_outcome(text@, Err(e)),
        },
{
    match base64_transaction {
        None => Ok(None),
        Some(text) => match decode(text) {
            Ok(t) => Ok(Some(t)),
            Err(e) => Err(e),
        },
    }
}

/// The base64 text of a wire-format transaction.
pub fn encode_base64(transaction_bytes: &[u8]) -> (r: String)
    ensures
        r@ == base64_text(transaction_bytes@),
        base64_bytes(r@) == Some(transaction_bytes@),
{
    base64_encode(transaction_bytes)
}

/// Encoding wire bytes as base64 and decoding the text again yields a
/// transaction with exactly those bytes, whenever they are a transaction:
/// `text` is what `encode_base64` gave for the bytes, and `r` what `decode`
/// gives for `text`.
pub proof fn lemma_decode_encode_round_trip(transaction_bytes: Seq<u8>, text: Seq<char>, r: Result<Transaction, Error>)
    requires
        is_wire_transaction(transaction_bytes),
        base64_bytes(text) == Some(transaction_bytes),
        decode_outcome(text, r),
    ensures
        r matches Ok(t) && t.bytes@ == transaction_bytes,
{
}

} // verus!
