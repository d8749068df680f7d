use dero_miner::address::{from_compressed_reversed_sign, validate, Address};

const GOOD: &str = "dero1qyp5p7r2tqad8fvylrp4xp9l9q499kcpglvq4frw0pd4qtrtsa5d5qqx7tpmn";

#[test]
fn valid_address() {
    let address = Address::from_string(GOOD).unwrap();
    assert!(address.public_key.is_some());
    assert_eq!(address.mainnet, true);
}

#[test]
fn validate_accepts_the_valid_address() {
    assert!(validate(GOOD).is_ok());
}

#[test]
fn corrupted_checksum_is_rejected() {
    // same string with its last character changed
    let mut corrupted = String::from(&GOOD[..GOOD.len() - 1]);
    corrupted.push('m');
    assert!(validate(&corrupted).is_err());
}

#[test]
fn unknown_prefix_is_rejected() {
    let bad = "der1qyp5p7r2tqad8fvylrp4xp9l9q499kcpglvq4frw0pd4qtrtsa5d5qqx7tpmn";
    assert!(Address::from_string(bad).is_err());
}

#[test]
fn empty_string_is_rejected() {
    assert!(validate("").is_err());
}

#[test]
fn compressed_point_needs_exactly_33_bytes() {
    assert!(from_compressed_reversed_sign(&[0u8; 32]).is_none());
    assert!(from_compressed_reversed_sign(&[0u8; 34]).is_none());
}

#[test]
fn error_names_the_reason() {
    let err = validate("not an address").unwrap_err();
    assert!(err.starts_with("invalid address, reason: "));
}
