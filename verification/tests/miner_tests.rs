use dero_miner::daemon_rpc::GetBlockTemplateResult;
use dero_miner::job::Job;
use dero_miner::miner::{Miner, WorkError};
use dero_miner::MINIBLOCK_SIZE;

fn template_with_blob(blob: &str, diff: u64) -> GetBlockTemplateResult {
    GetBlockTemplateResult {
        JobID: "j".to_string(),
        Blocktemplate_blob: String::new(),
        Blockhashing_blob: blob.to_string(),
        Difficulty: diff.to_string(),
        Difficultyuint64: diff,
        Height: 1,
        Prev_Hash: String::new(),
        EpochMilli: 0,
        Blocks: 0,
        MiniBlocks: 0,
        LastError: String::new(),
        Status: "OK".to_string(),
    }
}

/// 96 hex characters: first byte carries the supported version nibble.
fn good_blob() -> String {
    let mut s = String::from("41ab");
    for _ in 0..(MINIBLOCK_SIZE - 2) {
        s.push_str("00");
    }
    s
}

fn published(blob: &str, diff: u64) -> Job {
    let mut store = Job::initial();
    store.publish(template_with_blob(blob, diff));
    store
}

#[test]
fn acquire_rejects_version_zero() {
    let store = Job::initial();
    let mut miner = Miner::new(1);
    assert_eq!(miner.acquire(&store.snapshot()), Err(WorkError::NoWork));
}

#[test]
fn acquire_rejects_bad_hex() {
    let store = published("zz", 1);
    let mut miner = Miner::new(1);
    assert_eq!(miner.acquire(&store.snapshot()), Err(WorkError::BadBlob));
}

#[test]
fn acquire_rejects_odd_length_hex() {
    let store = published("41a", 1);
    let mut miner = Miner::new(1);
    assert_eq!(miner.acquire(&store.snapshot()), Err(WorkError::BadBlob));
}

#[test]
fn acquire_rejects_wrong_length() {
    let store = published("41ab00", 1);
    let mut miner = Miner::new(1);
    assert_eq!(miner.acquire(&store.snapshot()), Err(WorkError::BadBlob));
}

#[test]
fn acquire_rejects_unknown_version_nibble() {
    // first byte 0x42: low nibble 2, not the supported 1
    let mut blob = String::from("42");
    for _ in 0..(MINIBLOCK_SIZE - 1) {
        blob.push_str("00");
    }
    let store = published(&blob, 1);
    let mut miner = Miner::new(1);
    assert_eq!(
        miner.acquire(&store.snapshot()),
        Err(WorkError::UnknownVersion)
    );
}

#[test]
fn acquire_decodes_blob_and_stamps_identity() {
    let store = published(&good_blob(), 9);
    let mut miner = Miner::new(3);
    assert_eq!(miner.acquire(&store.snapshot()), Ok(()));
    assert_eq!(miner.work.len(), MINIBLOCK_SIZE);
    assert_eq!(miner.work[0], 0x41);
    assert_eq!(miner.work[1], 0xab);
    assert_eq!(miner.work[2], 0x00);
    assert_eq!(miner.work[MINIBLOCK_SIZE - 1], 3);
    assert_eq!(miner.nonce, 0);
    assert_eq!(miner.local_version, 1);
    assert_eq!(miner.difficulty, 9);
}

#[test]
fn hash_step_writes_nonce_most_significant_first() {
    let store = published(&good_blob(), 0);
    let mut miner = Miner::new(1);
    miner.acquire(&store.snapshot()).unwrap();
    let (digest, _accepted) = miner.hash_step();
    assert_eq!(digest.len(), 32);
    assert_eq!(miner.nonce, 1);
    assert_eq!(miner.work[MINIBLOCK_SIZE - 5], 0);
    assert_eq!(miner.work[MINIBLOCK_SIZE - 4], 0);
    assert_eq!(miner.work[MINIBLOCK_SIZE - 3], 0);
    assert_eq!(miner.work[MINIBLOCK_SIZE - 2], 1);
    let (_, _) = miner.hash_step();
    assert_eq!(miner.nonce, 2);
    assert_eq!(miner.work[MINIBLOCK_SIZE - 2], 2);
}

#[test]
fn identity_byte_changes_the_digest() {
    // two workers, same blob and nonce, different identity bytes
    let store = published(&good_blob(), 0);
    let mut first = Miner::new(1);
    let mut second = Miner::new(2);
    first.acquire(&store.snapshot()).unwrap();
    second.acquire(&store.snapshot()).unwrap();
    let (d1, _) = first.hash_step();
    let (d2, _) = second.hash_step();
    assert_eq!(first.nonce, second.nonce);
    assert_ne!(d1, d2);
}

#[test]
fn stale_version_abandons_loop_within_one_check() {
    let mut store = published(&good_blob(), 0);
    let mut miner = Miner::new(1);
    miner.acquire(&store.snapshot()).unwrap();
    assert!(!miner.is_stale(store.version()));
    store.publish(template_with_blob(&good_blob(), 0));
    // the counting worker stub: hash until the version check fires
    let mut iterations = 0;
    while !miner.is_stale(store.version()) {
        let _ = miner.hash_step();
        iterations += 1;
        assert!(iterations < 10, "worker failed to notice the new version");
    }
    assert_eq!(iterations, 0);
}

#[test]
fn version_skips_also_read_as_stale() {
    let mut store = published(&good_blob(), 0);
    let mut miner = Miner::new(1);
    miner.acquire(&store.snapshot()).unwrap();
    store.publish(template_with_blob(&good_blob(), 0));
    store.publish(template_with_blob(&good_blob(), 0));
    assert!(miner.is_stale(store.version()));
}
