//! Resolution of the signing key from its configured text.
use vstd::prelude::*;

use solana_sdk::signature::Keypair;
use vstd::string::StrSliceExecFns;

verus! {

#[verifier::external_type_specification]
#[verifier::external_body]
pub struct ExKeypair(Keypair);

/// The bytes that a JSON array of byte values denotes, if the text is one.
pub uninterp spec fn json_bytes(text: Seq<char>) -> Option<Seq<u8>>;

/// The bytes that a base58 text (Bitcoin alphabet) denotes, if any.
pub uninterp spec fn base58_bytes(text: Seq<char>) -> Option<Seq<u8>>;

/// A text without its leading and trailing whitespace.
pub uninterp spec fn trimmed(text: Seq<char>) -> Seq<char>;

/// Whether 64 bytes are an ed25519 secret key followed by its own public key.
pub uninterp spec fn keypair_accepts(bytes: Seq<u8>) -> bool;

/// Relies on `serde_json::from_str::<Vec<u8>>`: the bytes of a JSON array of
/// integers in 0..=255, or the parser's description of what is wrong.
#[verifier::external_body]
fn json_byte_array(text: &str) -> (r: Result<Vec<u8>, String>)
    ensures
        r is Ok <==> json_bytes(text@) is Some,
        r is Ok ==> r->Ok_0@ == json_bytes(text@)->0,
{
    match serde_json::from_str::<Vec<u8>>(text) {
        Ok(bytes) => Ok(bytes),
        Err(e) => Err(e.to_string()),
    }
}

/// Relies on `bs58::decode(..).into_vec()`: the decoded bytes, or the
/// decoder's description of the first invalid character.
#[verifier::external_body]
fn base58_decode(text: &str) -> (r: Result<Vec<u8>, String>)
    ensures
        r is Ok <==> base58_bytes(text@) is Some,
        r is Ok ==> r->Ok_0@ == base58_bytes(text@)->0,
{
    match solana_sdk::bs58::decode(text).into_vec() {
        Ok(bytes) => Ok(bytes),
        Err(e) => Err(e.to_string()),
    }
}

/// Relies on `str::trim`: the text without leading and trailing whitespace.
#[verifier::external_body]
fn trim_text(text: &str) -> (r: &str)
    ensures
        r@ == trimmed(text@),
{
    text.trim()
}

/// Relies on `Keypair::try_from(&[u8])`: it takes exactly 64 bytes, a
/// secret key and the public key derived from it.
#[verifier::external_body]
fn keypair_from_bytes(bytes: &[u8]) -> (r: Result<Keypair, String>)
    ensures
        r is Ok <==> keypair_accepts(bytes@),
        r is Ok ==> bytes@.len() == 64,
{
    match Keypair::try_from(bytes) {
        Ok(k) => Ok(k),
        Err(e) => Err(e.to_string()),
    }
}

/// Relies on `Keypair::new`, which draws a fresh key from the operating
/// system's random source.
#[verifier::external_body]
fn fresh_keypair() -> (r: Keypair) {
    Keypair::new()
}

/// Why a configured key could not be used.
#[derive(Debug, Clone, PartialEq, Eq)]
pub enum KeyError {
    /// The key text starts with `[` but is not a JSON array of bytes.
    InvalidJson(String),
    /// The key text is not base58.
    InvalidBase58(String),
    /// The bytes are not a secret key followed by its public key.
    InvalidKeypair(String),
}

/// A signing key for one pipeline run; `ephemeral` says that it was drawn
/// at random because no key was configured.
pub struct ResolvedKey {
    pub keypair: Keypair,
    pub ephemeral: bool,
}

/// Whether a key text is in the JSON array form.
pub open spec fn json_form(text: Seq<char>) -> bool {
    text.len() > 0 && text[0] == '['
}

/// The bytes that a configured key text denotes: a JSON array if it starts
/// with `[`, else base58 once trimmed.
pub open spec fn key_bytes(text: Seq<char>) -> Option<Seq<u8>> {
    if json_form(text) {
        json_bytes(text)
    } else {
        base58_bytes(trimmed(text))
    }
}

/// What resolving a key source must give: a random key if none is
/// configured; for a configured text, its key or the reason why it has none,
/// and never a random key.
pub open spec fn key_outcome(configured: Option<String>, r: Result<ResolvedKey, KeyError>) -> bool {
    match configured {
        None => r matches Ok(k) && k.ephemeral,
        Some(text) => match key_bytes(text@) {
            None => if json_form(text@) {
                r matches Err(KeyError::InvalidJson(_))
            } else {
                r matches Err(KeyError::InvalidBase58(_))
            },
            Some(b) => if keypair_accepts(b) {
                r matches Ok(k) && !k.ephemeral
            } else {
                r matches Err(KeyError::InvalidKeypair(_))
            },
        },
    }
}

/// Resolves the signing key from the configured key text, if any.
pub fn resolve_key(configured: Option<String>) -> (r: Result<ResolvedKey, KeyError>)
    ensures
        key_outcome(configured, r),
{
    match configured {
        None => Ok(ResolvedKey { keypair: fresh_keypair(), ephemeral: true }),
        Some(text) => {
            let s = text.as_str();
            let is_json = s.unicode_len() > 0 && s.get_char(0) == '[';
            let bytes = if is_json {
                match json_byte_array(s) {
                    Ok(b) => b,
                    Err(why) => return Err(KeyError::InvalidJson(why)),
                }
            } else {
                match base58_decode(trim_text(s)) {
                    Ok(b) => b,
                    Err(why) => return Err(KeyError::InvalidBase58(why)),
                }
            };
            match keypair_from_bytes(bytes.as_slice()) {
                Ok(keypair) => Ok(ResolvedKey { keypair, ephemeral: false }),
                Err(why) => Err(KeyError::InvalidKeypair(why)),
            }
        },
    }
}

} // verus!

verus! {

/// Key precedence: a configured text in the JSON form that is not a JSON
/// byte array fails as such and never falls back to a random key; with no
/// configured text, a random key is used and resolution does not fail.
pub proof fn lemma_key_precedence(configured: Option<String>, r: Result<ResolvedKey, KeyError>)
    requires
        key_outcome(configured, r),
    ensures
        configured matches Some(text) && json_form(text@) && json_bytes(text@) is None ==> r matches Err(
            KeyError::InvalidJson(_),
        ),
        configured is None ==> (r matches Ok(k) && k.ephemeral),
        configured is Some ==> !(r matches Ok(k) && k.ephemeral),
{
}

} // verus!
