use block_relay::keys::{resolve, DecodeError};
use solana_sdk::signature::Keypair;

fn sample_key() -> Vec<u8> {
    Keypair::new().to_bytes().to_vec()
}

fn as_list(b: &[u8]) -> String {
    let parts: Vec<String> = b.iter().map(|x| x.to_string()).collect();
    format!("[{}]", parts.join(","))
}

#[test]
fn all_encodings_give_the_same_identity() {
    let key = sample_key();
    let list = resolve(&as_list(&key)).unwrap();
    let hex_plain = resolve(&hex::encode(&key)).unwrap();
    let hex_prefixed = resolve(&format!("0x{}", hex::encode(&key))).unwrap();
    let b58 = resolve(&bs58::encode(&key).into_string()).unwrap();
    assert_eq!(list.key, key);
    assert_eq!(hex_plain.key, key);
    assert_eq!(hex_prefixed.key, key);
    assert_eq!(b58.key, key);
}

#[test]
fn upper_case_hex_is_read() {
    let key = sample_key();
    let id = resolve(&hex::encode_upper(&key)).unwrap();
    assert_eq!(id.key, key);
}

#[test]
fn garbage_is_unrecognized() {
    assert!(matches!(resolve("not a key!"), Err(DecodeError::UnrecognizedFormat)));
    assert!(matches!(resolve(""), Err(DecodeError::UnrecognizedFormat)));
}

#[test]
fn short_byte_list_is_unrecognized() {
    assert!(matches!(resolve("[1,2,3]"), Err(DecodeError::UnrecognizedFormat)));
}

#[test]
fn odd_length_hex_is_unrecognized() {
    assert!(matches!(resolve("0xabc"), Err(DecodeError::UnrecognizedFormat)));
}

#[test]
fn mismatched_public_half_is_unrecognized() {
    let mut key = sample_key();
    let other = sample_key();
    key[32..].copy_from_slice(&other[32..]);
    assert!(matches!(resolve(&hex::encode(&key)), Err(DecodeError::UnrecognizedFormat)));
    assert!(matches!(resolve(&as_list(&key)), Err(DecodeError::UnrecognizedFormat)));
}
