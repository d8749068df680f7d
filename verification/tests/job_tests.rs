use dero_miner::daemon_rpc::GetBlockTemplateResult;
use dero_miner::job::Job;

fn template(jobid: &str, blob: &str, diff: u64) -> GetBlockTemplateResult {
    GetBlockTemplateResult {
        JobID: jobid.to_string(),
        Blocktemplate_blob: String::new(),
        Blockhashing_blob: blob.to_string(),
        Difficulty: diff.to_string(),
        Difficultyuint64: diff,
        Height: 1,
        Prev_Hash: String::new(),
        EpochMilli: 0,
        Blocks: 0,
        MiniBlocks: 0,
        LastError: String::new(),
        Status: "OK".to_string(),
    }
}

#[test]
fn initial_store_is_version_zero_and_sentinel() {
    let store = Job::initial();
    assert_eq!(store.count, 0);
    assert_eq!(store.ijob.JobID, "");
    assert_eq!(store.ijob.Blockhashing_blob, "");
    assert_eq!(store.ijob.Difficultyuint64, 0);
    assert_eq!(store.ijob.Height, 0);
    assert_eq!(store.ijob.Status, "");
}

#[test]
fn publish_bumps_version_by_one() {
    let mut store = Job::initial();
    store.publish(template("a", "00", 7));
    assert_eq!(store.count, 1);
    assert_eq!(store.ijob.JobID, "a");
    assert_eq!(store.ijob.Difficultyuint64, 7);
}

#[test]
fn publish_identical_template_still_bumps() {
    // version identity, not content identity, is the staleness signal
    let mut store = Job::initial();
    store.publish(template("a", "00", 7));
    store.publish(template("a", "00", 7));
    assert_eq!(store.count, 2);
}

#[test]
fn snapshot_is_an_owned_copy() {
    let mut store = Job::initial();
    store.publish(template("a", "0102", 3));
    let snap = store.snapshot();
    store.publish(template("b", "0304", 9));
    assert_eq!(snap.count, 1);
    assert_eq!(snap.ijob.JobID, "a");
    assert_eq!(snap.ijob.Blockhashing_blob, "0102");
    assert_eq!(store.count, 2);
    assert_eq!(store.ijob.JobID, "b");
}

#[test]
fn version_reads_the_counter() {
    let mut store = Job::initial();
    assert_eq!(store.version(), 0);
    store.publish(template("a", "00", 1));
    assert_eq!(store.version(), 1);
}
