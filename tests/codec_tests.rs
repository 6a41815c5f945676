use jup_swap::codec::{decode, decode_optional, encode_base64, Address};
use jup_swap::error::Error;
use solana_sdk::transaction::VersionedTransaction;

fn wire_bytes() -> Vec<u8> {
    bincode::serialize(&VersionedTransaction::default()).unwrap()
}

#[test]
fn decode_of_encoded_transaction_round_trips() {
    let bytes = wire_bytes();
    let text = encode_base64(&bytes);
    let t = decode(text).unwrap();
    assert_eq!(t.bytes, bytes);
    assert_eq!(t.value, VersionedTransaction::default());
    assert_eq!(bincode::serialize(&t.value.message).unwrap(), bincode::serialize(&VersionedTransaction::default().message).unwrap());
}

#[test]
fn encode_base64_exact_text() {
    assert_eq!(encode_base64(b"hello"), "aGVsbG8=");
    assert_eq!(encode_base64(&[]), "");
}

#[test]
fn decode_rejects_invalid_base64() {
    assert!(matches!(decode("not-valid-base64!".to_string()), Err(Error::Base64Decode(_))));
}

#[test]
fn decode_rejects_bytes_that_are_no_transaction() {
    assert!(matches!(decode("AQ==".to_string()), Err(Error::Bincode(_))));
}

#[test]
fn decode_optional_absent_is_absent() {
    assert!(matches!(decode_optional(None), Ok(None)));
}

#[test]
fn decode_optional_present_must_decode() {
    assert!(matches!(decode_optional(Some("%%%".to_string())), Err(Error::Base64Decode(_))));
    let text = encode_base64(&wire_bytes());
    assert!(matches!(decode_optional(Some(text)), Ok(Some(_))));
}

#[test]
fn address_parse_and_text() {
    let a = Address::parse("11111111111111111111111111111111").unwrap();
    assert_eq!(a.bytes, [0u8; 32]);
    assert_eq!(a.to_text(), "11111111111111111111111111111111");
    let key = "JUP6LkbZbjS1jKKwapdHNy74zcZ3tLUZoi5QNyVTaV4";
    let b = Address::parse(key).unwrap();
    assert_eq!(b.to_text(), key);
    assert!(Address::parse("not an address").is_err());
    assert!(Address::parse("111111111111111111111111111111111111111111111").is_err());
}
