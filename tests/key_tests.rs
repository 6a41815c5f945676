use jup_swap::keys::{resolve_key, KeyError};
use solana_sdk::signature::{Keypair, Signer};

#[test]
fn malformed_json_key_fails_without_fallback() {
    let r = resolve_key(Some("[1,2,3,".to_string()));
    assert!(matches!(r, Err(KeyError::InvalidJson(_))));
}

#[test]
fn no_configured_key_gives_ephemeral_key() {
    let k = resolve_key(None).unwrap();
    assert!(k.ephemeral);
}

#[test]
fn json_key_is_used() {
    let expected = Keypair::new();
    let text = format!("{:?}", expected.to_bytes().to_vec()).replace(' ', "");
    let k = resolve_key(Some(text)).unwrap();
    assert!(!k.ephemeral);
    assert_eq!(k.keypair.pubkey(), expected.pubkey());
}

#[test]
fn base58_key_is_trimmed_and_used() {
    let expected = Keypair::new();
    let text = format!("  {}\n", expected.to_base58_string());
    let k = resolve_key(Some(text)).unwrap();
    assert!(!k.ephemeral);
    assert_eq!(k.keypair.pubkey(), expected.pubkey());
}

#[test]
fn invalid_base58_key_fails() {
    assert!(matches!(resolve_key(Some("0OIl".to_string())), Err(KeyError::InvalidBase58(_))));
}

#[test]
fn wrong_length_key_fails() {
    assert!(matches!(resolve_key(Some("[1,2,3]".to_string())), Err(KeyError::InvalidKeypair(_))));
    assert!(matches!(resolve_key(Some("".to_string())), Err(KeyError::InvalidKeypair(_))));
}

#[test]
fn mismatched_public_half_fails() {
    let mut bytes = Keypair::new().to_bytes().to_vec();
    let other = Keypair::new().to_bytes();
    bytes[32..].copy_from_slice(&other[32..]);
    let text = format!("{:?}", bytes);
    assert!(matches!(resolve_key(Some(text)), Err(KeyError::InvalidKeypair(_))));
}
