//! The job-template record exchanged with the daemon.  The wire field names
//! are fixed by the protocol; the record is immutable once received and is
//! superseded wholesale by the next one.

use vstd::prelude::*;

verus! {

/// Parameters of a job-template request.
#[allow(non_snake_case)]
#[derive(Debug, Clone)]
pub struct GetBlockTemplatePararms {
    pub Wallet_Address: String,
    pub Block: bool,
    pub Miner: String,
}

/// One unit of work as the daemon reports it: a job identifier, the
/// hex-encoded header blob to hash, the full block template, the difficulty
/// threshold in string and numeric form, chain position and timestamp, and
/// status strings.
#[allow(non_snake_case)]
#[derive(Debug)]
pub struct GetBlockTemplateResult {
    pub JobID: String,
    pub Blocktemplate_blob: String,
    pub Blockhashing_blob: String,
    pub Difficulty: String,
    pub Difficultyuint64: u64,
    pub Height: u64,
    pub Prev_Hash: String,
    pub EpochMilli: u64,
    pub Blocks: u64,
    pub MiniBlocks: u64,
    pub LastError: String,
    pub Status: String,
}

/// Every string field empty and every numeric field zero: the sentinel
/// template held before any work has arrived.
pub open spec fn is_sentinel(t: GetBlockTemplateResult) -> bool {
    &&& t.JobID@ == Seq::<char>::empty()
    &&& t.Blocktemplate_blob@ == Seq::<char>::empty()
    &&& t.Blockhashing_blob@ == Seq::<char>::empty()
    &&& t.Difficulty@ == Seq::<char>::empty()
    &&& t.Difficultyuint64 == 0
    &&& t.Height == 0
    &&& t.Prev_Hash@ == Seq::<char>::empty()
    &&& t.EpochMilli == 0
    &&& t.Blocks == 0
    &&& t.MiniBlocks == 0
    &&& t.LastError@ == Seq::<char>::empty()
    &&& t.Status@ == Seq::<char>::empty()
}

impl GetBlockTemplateResult {
    /// The sentinel template: all fields empty or zero.
    pub fn empty() -> (r: Self)
        ensures
            is_sentinel(r),
    {
        GetBlockTemplateResult {
            JobID: String::new(),
            Blocktemplate_blob: String::new(),
            Blockhashing_blob: String::new(),
            Difficulty: String::new(),
            Difficultyuint64: 0,
            Height: 0,
            Prev_Hash: String::new(),
            EpochMilli: 0,
            Blocks: 0,
            MiniBlocks: 0,
            LastError: String::new(),
            Status: String::new(),
        }
    }
}

impl Clone for GetBlockTemplateResult {
    /// A clone is the same template.
    fn clone(&self) -> (r: Self)
        ensures
            r == *self,
    {
        GetBlockTemplateResult {
            JobID: self.JobID.clone(),
            Blocktemplate_blob: self.Blocktemplate_blob.clone(),
            Blockhashing_blob: self.Blockhashing_blob.clone(),
            Difficulty: self.Difficulty.clone(),
            Difficultyuint64: self.Difficultyuint64,
            Height: self.Height,
            Prev_Hash: self.Prev_Hash.clone(),
            EpochMilli: self.EpochMilli,
            Blocks: self.Blocks,
            MiniBlocks: self.MiniBlocks,
            LastError: self.LastError.clone(),
            Status: self.Status.clone(),
        }
    }
}

} // verus!
