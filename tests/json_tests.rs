use jup_swap::error::Error;
use jup_swap::json::{api_error_message, maybe_jupiter_api_error, JsonValue};

fn error_reply(message: &str) -> JsonValue {
    JsonValue::Object(vec![("error".to_string(), JsonValue::Str(message.to_string()))])
}

#[test]
fn error_reply_becomes_api_error_with_exact_message() {
    let v = error_reply("insufficient liquidity");
    let decoded: Result<u64, String> = Err("missing field `inAmount`".to_string());
    match maybe_jupiter_api_error(&v, decoded) {
        Err(Error::JupiterApi(m)) => assert_eq!(m, "insufficient liquidity"),
        other => panic!("unexpected outcome: {:?}", other),
    }
}

#[test]
fn error_shape_wins_over_a_decoded_value() {
    let v = error_reply("rate limited");
    match maybe_jupiter_api_error(&v, Ok(5u64)) {
        Err(Error::JupiterApi(m)) => assert_eq!(m, "rate limited"),
        other => panic!("unexpected outcome: {:?}", other),
    }
}

#[test]
fn value_reply_passes_through() {
    let v = JsonValue::Object(vec![("inAmount".to_string(), JsonValue::Str("10".to_string()))]);
    assert_eq!(maybe_jupiter_api_error(&v, Ok(10u64)).unwrap(), 10);
}

#[test]
fn shape_mismatch_is_a_parse_failure() {
    let v = JsonValue::Array(vec![JsonValue::Null]);
    match maybe_jupiter_api_error::<u64>(&v, Err("expected a map".to_string())) {
        Err(Error::SerdeJson(m)) => assert_eq!(m, "expected a map"),
        other => panic!("unexpected outcome: {:?}", other),
    }
}

#[test]
fn error_member_must_be_a_string() {
    let v = JsonValue::Object(vec![("error".to_string(), JsonValue::Number("3".to_string()))]);
    assert_eq!(api_error_message(&v), None);
    let w = JsonValue::Object(vec![
        ("code".to_string(), JsonValue::Bool(true)),
        ("error".to_string(), JsonValue::Str("bad".to_string())),
    ]);
    assert_eq!(api_error_message(&w), Some("bad".to_string()));
    assert_eq!(api_error_message(&JsonValue::Str("error".to_string())), None);
}
