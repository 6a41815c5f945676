//! The swap request that forwards a quote, and the transaction bundle that
//! the service answers it with.
use vstd::prelude::*;

use crate::codec::{base64_bytes, decode, decode_optional, decode_outcome, is_wire_transaction, Address, Transaction};
use crate::error::Error;
use crate::quote::Quote;

verus! {

/// Caller choices for a swap request; each is independent of the others.
#[derive(Debug, Clone, Copy, PartialEq, Eq)]
pub struct SwapConfig {
    pub wrap_and_unwrap_sol: Option<bool>,
    pub fee_account: Option<Address>,
    pub token_ledger: Option<Address>,
}

impl Default for SwapConfig {
    fn default() -> (r: SwapConfig)
        ensures
            r.wrap_and_unwrap_sol is None,
            r.fee_account is None,
            r.token_ledger is None,
    {
        SwapConfig { wrap_and_unwrap_sol: None, fee_account: None, token_ledger: None }
    }
}

impl SwapConfig {
    /// The configuration that only sets whether the native asset is wrapped
    /// and unwrapped.
    pub fn wrapping(wrap_and_unwrap_sol: bool) -> (r: SwapConfig)
        ensures
            r.wrap_and_unwrap_sol == Some(wrap_and_unwrap_sol),
            r.fee_account is None,
            r.token_ledger is None,
    {
        SwapConfig { wrap_and_unwrap_sol: Some(wrap_and_unwrap_sol), fee_account: None, token_ledger: None }
    }
}

/// The body of a swap request: the quote, forwarded untouched, the signer,
/// and the request flags.
#[derive(Debug, Clone)]
pub struct SwapRequest {
    pub user_public_key: Address,
    pub wrap_and_unwrap_sol: Option<bool>,
    pub dynamic_compute_unit_limit: bool,
    pub dynamic_slippage: bool,
    pub quote_response: Quote,
}

/// Composes a swap request: the quote is forwarded as it is, wrapping of the
/// native asset follows the configuration, and the compute limit and the
/// slippage are left to the service.
pub fn build_swap_request(quote_response: Quote, user_public_key: Address, swap_config: &SwapConfig) -> (r: SwapRequest)
    ensures
        r.quote_response == quote_response,
        r.user_public_key == user_public_key,
        r.wrap_and_unwrap_sol == swap_config.wrap_and_unwrap_sol,
        r.dynamic_compute_unit_limit,
        r.dynamic_slippage,
{
    SwapRequest {
        user_public_key,
        wrap_and_unwrap_sol: swap_config.wrap_and_unwrap_sol,
        dynamic_compute_unit_limit: true,
        dynamic_slippage: true,
        quote_response,
    }
}

/// The service's reply in transaction mode: base64 transaction texts.
#[derive(Debug, Clone)]
pub struct SwapResponse {
    pub setup_transaction: Option<String>,
    pub swap_transaction: String,
    pub cleanup_transaction: Option<String>,
}

/// The partially signed transactions that execute a swap.
#[derive(Debug)]
pub struct Swap {
    pub setup: Option<Transaction>,
    pub swap: Transaction,
    pub cleanup: Option<Transaction>,
}

/// Whether a text decodes to a transaction.
pub open spec fn text_decodes(text: Seq<char>) -> bool {
    base64_bytes(text) matches Some(b) && is_wire_transaction(b)
}

pub open spec fn optional_decodes(text: Option<String>) -> bool {
    text matches Some(t) ==> text_decodes(t@)
}

/// `t` is what the optional text decodes to: absent for an absent text.
pub open spec fn optional_decoded(text: Option<String>, t: Option<Transaction>) -> bool {
    match text {
        None => t is None,
        Some(x) => t matches Some(tx) && decode_outcome(x@, Ok(tx)),
    }
}

/// What a transaction-mode reply must give: each present text decoded, in
/// the order setup, swap, cleanup; the first text that does not decode
/// gives the failure.
pub open spec fn swap_outcome(resp: SwapResponse, r: Result<Swap, Error>) -> bool {
    &&& r is Ok <==> (optional_decodes(resp.setup_transaction) && text_decodes(resp.swap_transaction@)
        && optional_decodes(resp.cleanup_transaction))
    &&& r matches Ok(s) ==> {
        &&& optional_decoded(resp.setup_transaction, s.setup)
        &&& decode_outcome(resp.swap_transaction@, Ok(s.swap))
        &&& optional_decoded(resp.cleanup_transaction, s.cleanup)
    }
    &&& r matches Err(e) ==> if !optional_decodes(resp.setup_transaction) {
        decode_outcome(resp.setup_transaction->0@, Err(e))
    } else if !text_decodes(resp.swap_transaction@) {
        decode_outcome(resp.swap_transaction@, Err(e))
    } else {
        decode_outcome(resp.cleanup_transaction->0@, Err(e))
    }
}

/// Decodes the transactions of a transaction-mode reply. A missing setup or
/// cleanup transaction is normal; a present one that does not decode is a
/// failure.
pub fn swap_from_response(resp: SwapResponse) -> (r: Result<Swap, Error>)
    ensures
        swap_outcome(resp, r),
{
    let setup = match decode_optional(resp.setup_transaction) {
        Ok(t) => t,
        Err(e) => return Err(e),
    };
    let swap = match decode(resp.swap_transaction) {
        Ok(t) => t,
        Err(e) => return Err(e),
    };
    let cleanup = match decode_optional(resp.cleanup_transaction) {
        Ok(t) => t,
        Err(e) => return Err(e),
    };
    Ok(Swap { setup, swap, cleanup })
}

} // verus!
