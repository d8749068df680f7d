use dero_miner::difficulty::check_pow_hash;

#[test]
fn zero_digest_accepted_everywhere() {
    let digest = [0u8; 32];
    assert!(check_pow_hash(digest, 0));
    assert!(check_pow_hash(digest, 1));
    assert!(check_pow_hash(digest, u64::MAX));
}

#[test]
fn boundary_at_threshold() {
    let mut digest = [0u8; 32];
    digest[0] = 2;
    assert!(!check_pow_hash(digest, 0));
    assert!(!check_pow_hash(digest, 1));
    assert!(check_pow_hash(digest, 2));
    assert!(check_pow_hash(digest, 3));
}

#[test]
fn little_endian_reading() {
    // value = 1 + 256 * 1 = 257
    let mut digest = [0u8; 32];
    digest[0] = 1;
    digest[1] = 1;
    assert!(!check_pow_hash(digest, 256));
    assert!(check_pow_hash(digest, 257));
}

#[test]
fn high_byte_exceeds_any_threshold() {
    // value = 2^64: one past what a threshold can name
    let mut digest = [0u8; 32];
    digest[8] = 1;
    assert!(!check_pow_hash(digest, u64::MAX));
}

#[test]
fn top_byte_exceeds_any_threshold() {
    let mut digest = [0u8; 32];
    digest[31] = 1;
    assert!(!check_pow_hash(digest, u64::MAX));
}

#[test]
fn largest_u64_digest_accepted_at_max() {
    // low eight bytes all set: value = 2^64 - 1
    let mut digest = [0u8; 32];
    for i in 0..8 {
        digest[i] = 0xff;
    }
    assert!(check_pow_hash(digest, u64::MAX));
    assert!(!check_pow_hash(digest, u64::MAX - 1));
}

#[test]
fn monotone_on_concrete_pairs() {
    // smaller digest value accepted whenever a larger one is
    let mut small = [0u8; 32];
    small[0] = 5;
    let mut large = [0u8; 32];
    large[0] = 9;
    for threshold in [0u64, 4, 5, 6, 9, 10, u64::MAX] {
        if check_pow_hash(large, threshold) {
            assert!(check_pow_hash(small, threshold));
        }
    }
}
