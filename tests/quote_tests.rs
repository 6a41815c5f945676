use jup_swap::codec::Address;
use jup_swap::quote::{decimal_string, quote_url, Quote, RoutePlan, SwapInfo};

fn zero_address() -> Address {
    Address { bytes: [0u8; 32] }
}

fn one_address() -> Address {
    let mut bytes = [0u8; 32];
    bytes[31] = 1;
    Address { bytes }
}

#[test]
fn quote_url_with_explicit_slippage() {
    let url = quote_url(
        zero_address(),
        zero_address(),
        "1000".to_string(),
        true,
        Some(50),
        "ExactIn".to_string(),
    );
    assert_eq!(
        url,
        "https://quote-api.jup.ag/v6/quote?inputMint=11111111111111111111111111111111&outputMint=11111111111111111111111111111111&amount=1000&onlyDirectRoutes=true&swapMode=ExactIn&excludeDexes=Phoenix&restrictIntermediateTokens=true&slippageBps=50"
    );
}

#[test]
fn quote_url_without_slippage_uses_auto_slippage() {
    let url = quote_url(
        zero_address(),
        one_address(),
        "5".to_string(),
        false,
        None,
        "ExactOut".to_string(),
    );
    let expected_out = solana_sdk::pubkey::Pubkey::new_from_array(one_address().bytes).to_string();
    assert_eq!(
        url,
        format!(
            "https://quote-api.jup.ag/v6/quote?inputMint=11111111111111111111111111111111&outputMint={}&amount=5&onlyDirectRoutes=false&swapMode=ExactOut&excludeDexes=Phoenix&restrictIntermediateTokens=true&autoSlippage=true&maxAutoSlippageBps=100&autoSlippageCollisionUsdValue=1000",
            expected_out
        )
    );
    assert!(!url.contains("slippageBps="));
}

#[test]
fn quote_url_is_deterministic() {
    let a = quote_url(zero_address(), one_address(), "77".to_string(), true, Some(3), "ExactIn".to_string());
    let b = quote_url(zero_address(), one_address(), "77".to_string(), true, Some(3), "ExactIn".to_string());
    assert_eq!(a.as_bytes(), b.as_bytes());
    let c = quote_url(zero_address(), one_address(), "77".to_string(), true, None, "ExactIn".to_string());
    let d = quote_url(zero_address(), one_address(), "77".to_string(), true, None, "ExactIn".to_string());
    assert_eq!(c.as_bytes(), d.as_bytes());
}

#[test]
fn decimal_string_values() {
    assert_eq!(decimal_string(0), "0");
    assert_eq!(decimal_string(7), "7");
    assert_eq!(decimal_string(10), "10");
    assert_eq!(decimal_string(1234509876), "1234509876");
    assert_eq!(decimal_string(u64::MAX), "18446744073709551615");
}

fn sample_quote() -> Quote {
    Quote {
        in_amount: "100".to_string(),
        out_amount: "98".to_string(),
        input_mint: zero_address(),
        output_mint: one_address(),
        slippage_bps: 50,
        price_impact_pct: "0.01".to_string(),
        route_plan: vec![RoutePlan {
            swap_info: SwapInfo {
                amm_key: one_address(),
                label: "Pool".to_string(),
                input_mint: zero_address(),
                output_mint: one_address(),
                in_amount: "100".to_string(),
                out_amount: "98".to_string(),
                fee_amount: "1".to_string(),
                fee_mint: zero_address(),
            },
            percent: 100,
        }],
        other_amount_threshold: "97".to_string(),
        swap_mode: "ExactIn".to_string(),
    }
}

#[test]
fn with_swap_mode_keeps_the_rest() {
    let q = sample_quote().with_swap_mode("ExactOut".to_string());
    assert_eq!(q.swap_mode, "ExactOut");
    assert_eq!(q.in_amount, "100");
    assert_eq!(q.out_amount, "98");
    assert_eq!(q.slippage_bps, 50);
    assert_eq!(q.other_amount_threshold, "97");
    assert_eq!(q.route_plan.len(), 1);
    assert_eq!(q.route_plan[0].percent, 100);
    assert_eq!(q.route_plan[0].swap_info.label, "Pool");
    assert_eq!(q.output_mint, one_address());
}
