//! One hashing thread's state machine.  A worker snapshots the shared job,
//! decodes the header blob, stamps its identity byte into the buffer's last
//! position, and then scans nonces: each step writes the nonce into the four
//! reserved bytes (most significant first), hashes the buffer, and tests the
//! digest against the difficulty, until the job version goes stale.

use vstd::prelude::*;

use crate::MINIBLOCK_SIZE;
use crate::daemon_rpc::GetBlockTemplateResult;
use crate::difficulty::accepts;
use crate::difficulty::check_pow_hash;
use crate::job::Job;
use crate::pow::pow16;
use crate::pow::pow16_digest_ok;

verus! {

/// Why a job snapshot cannot be mined.  None of these ends the worker: it
/// keeps polling for a usable job.
#[derive(Debug, Clone, Copy, PartialEq, Eq, Structural)]
pub enum WorkError {
    /// The store still holds version 0: no work has arrived yet.
    NoWork,
    /// The hashing blob is not valid hex of the miniblock length.
    BadBlob,
    /// The header's leading version nibble is not the supported one.
    UnknownVersion,
}

/// `c` is an ASCII hexadecimal digit.
pub open spec fn is_hex_digit(c: char) -> bool {
    ||| ('0' as int) <= c as int && c as int <= ('9' as int)
    ||| ('a' as int) <= c as int && c as int <= ('f' as int)
    ||| ('A' as int) <= c as int && c as int <= ('F' as int)
}

/// The value of one hexadecimal digit.
pub open spec fn hex_val(c: char) -> int {
    if ('0' as int) <= c as int && c as int <= ('9' as int) {
        c as int - ('0' as int)
    } else if ('a' as int) <= c as int && c as int <= ('f' as int) {
        c as int - ('a' as int) + 10
    } else {
        c as int - ('A' as int) + 10
    }
}

/// A string is decodable hex: even length, hexadecimal digits throughout.
pub open spec fn hex_valid(s: Seq<char>) -> bool {
    s.len() % 2 == 0 && (forall|i: int| 0 <= i < s.len() ==> is_hex_digit(#[trigger] s[i]))
}

/// The bytes a valid hex string decodes to: one byte per digit pair, high
/// digit first.
pub open spec fn hex_bytes(s: Seq<char>) -> Seq<u8> {
    Seq::new(s.len() / 2, |i: int| ((hex_val(s[2 * i]) * 16 + hex_val(s[2 * i + 1])) as u8))
}

/// Relies on hex::decode: it succeeds exactly on even-length strings of
/// hexadecimal digits and then yields one byte per digit pair.
#[verifier::external_body]
fn hex_decode(s: &str) -> (r: Option<Vec<u8>>)
    ensures
        r is Some <==> hex_valid(s@),
        r matches Some(v) ==> v@ == hex_bytes(s@),
{
    hex::decode(s).ok()
}

/// The template's hashing blob is well-formed: valid hex that decodes to
/// exactly the miniblock length.
pub open spec fn blob_ok(t: GetBlockTemplateResult) -> bool {
    hex_valid(t.Blockhashing_blob@) && hex_bytes(t.Blockhashing_blob@).len() == MINIBLOCK_SIZE
}

/// The decoded header carries the single supported version nibble in the low
/// four bits of its first byte.
pub open spec fn version_nibble_ok(t: GetBlockTemplateResult) -> bool {
    blob_ok(t) && hex_bytes(t.Blockhashing_blob@)[0] % 16 == 1
}

/// The work buffer with a nonce written into its four reserved bytes, most
/// significant byte first.
pub open spec fn with_nonce(w: Seq<u8>, nonce: u32) -> Seq<u8> {
    w.update(MINIBLOCK_SIZE as int - 5, ((nonce >> 24) as u8)).update(
        MINIBLOCK_SIZE as int - 4,
        ((nonce >> 16) as u8),
    ).update(MINIBLOCK_SIZE as int - 3, ((nonce >> 8) as u8)).update(
        MINIBLOCK_SIZE as int - 2,
        (nonce as u8),
    )
}

/// A recorded version is stale next to the store's current version exactly
/// when the two differ; workers may see versions skip ahead, never move back.
pub open spec fn stale(local_version: u64, current: u64) -> bool {
    current != local_version
}

/// One hashing thread: its identity, its private work buffer, the nonce
/// counter, and the version and difficulty of the job it is mining.
#[derive(Debug)]
pub struct Miner {
    pub id: usize,
    pub work: Vec<u8>,
    pub nonce: u32,
    pub local_version: u64,
    pub difficulty: u64,
    pub has_job: bool,
}

impl Miner {
    /// Whenever the worker holds a job, its buffer has the miniblock length.
    pub open spec fn wf(self) -> bool {
        self.has_job ==> self.work@.len() == MINIBLOCK_SIZE
    }

    /// A fresh worker with no job yet.
    pub fn new(id: usize) -> (r: Miner)
        ensures
            r.id == id,
            !r.has_job,
            r.wf(),
    {
        Miner { id, work: Vec::new(), nonce: 0, local_version: 0, difficulty: 0, has_job: false }
    }

    /// Take a snapshot as the worker's current job.  On success the buffer
    /// holds the decoded blob with this worker's identity byte in the last
    /// position, the nonce is reset, and the snapshot's version and
    /// difficulty are recorded.  Each error names the one condition that
    /// caused it; the worker is left unchanged.
    pub fn acquire(&mut self, job: &Job) -> (r: Result<(), WorkError>)
        requires
            old(self).wf(),
        ensures
            final(self).id == old(self).id,
            final(self).wf(),
            r matches Err(_) ==> *final(self) == *old(self),
            (r == Ok::<(), WorkError>(())) <==> (job.count != 0 && version_nibble_ok(job.ijob)),
            (r == Err::<(), WorkError>(WorkError::NoWork)) <==> job.count == 0,
            (r == Err::<(), WorkError>(WorkError::BadBlob)) <==> (job.count != 0 && !blob_ok(
                job.ijob,
            )),
            (r == Err::<(), WorkError>(WorkError::UnknownVersion)) <==> (job.count != 0 && blob_ok(
                job.ijob,
            ) && !version_nibble_ok(job.ijob)),
            r matches Ok(_) ==> {
                &&& final(self).work@ == hex_bytes(job.ijob.Blockhashing_blob@).update(
                    MINIBLOCK_SIZE as int - 1,
                    (#[verifier::truncate] (old(self).id as u8)),
                )
                &&& final(self).nonce == 0
                &&& final(self).local_version == job.count
                &&& final(self).difficulty == job.ijob.Difficultyuint64
                &&& final(self).has_job
            },
    {
        if job.count == 0 {
            return Err(WorkError::NoWork);
        }
        let decoded: Option<Vec<u8>> = hex_decode(job.ijob.Blockhashing_blob.as_str());
        let mut val: Vec<u8> = match decoded {
            Some(v) => v,
            None => { return Err(WorkError::BadBlob) },
        };
        if val.len() != MINIBLOCK_SIZE {
            return Err(WorkError::BadBlob);
        }
        let head: u8 = val[0];
        proof {
            assert((head & 0xf) == head % 16) by (bit_vector);
        }
        if head & 0xf != 1 {
            return Err(WorkError::UnknownVersion);
        }
        let id_byte: u8 = #[verifier::truncate] (self.id as u8);
        val[MINIBLOCK_SIZE - 1] = id_byte;
        self.work = val;
        self.nonce = 0;
        self.local_version = job.count;
        self.difficulty = job.ijob.Difficultyuint64;
        self.has_job = true;
        Ok(())
    }

    /// One iteration of the nonce loop: step the 32-bit nonce (wrapping at
    /// its top, an accepted limitation), write it into the reserved bytes,
    /// hash the buffer, and test the digest against the difficulty.  The
    /// digest and the test's outcome are returned; a success does not stop
    /// the search.
    pub fn hash_step(&mut self) -> (r: ([u8; 32], bool))
        requires
            old(self).has_job,
            old(self).wf(),
        ensures
            final(self).id == old(self).id,
            final(self).local_version == old(self).local_version,
            final(self).difficulty == old(self).difficulty,
            final(self).has_job == old(self).has_job,
            final(self).wf(),
            final(self).nonce == (if old(self).nonce == u32::MAX {
                0u32
            } else {
                (old(self).nonce + 1) as u32
            }),
            final(self).work@ == with_nonce(old(self).work@, final(self).nonce),
            pow16_digest_ok(final(self).work@, r.0@),
            r.1 == accepts(r.0@, old(self).difficulty),
    {
        let n: u32 = self.nonce.wrapping_add(1);
        self.nonce = n;
        self.work[MINIBLOCK_SIZE - 5] = #[verifier::truncate] ((n >> 24) as u8);
        self.work[MINIBLOCK_SIZE - 4] = #[verifier::truncate] ((n >> 16) as u8);
        self.work[MINIBLOCK_SIZE - 3] = #[verifier::truncate] ((n >> 8) as u8);
        self.work[MINIBLOCK_SIZE - 2] = #[verifier::truncate] (n as u8);
        let digest: [u8; 32] = pow16(self.work.as_slice());
        let ok: bool = check_pow_hash(digest, self.difficulty);
        (digest, ok)
    }

    /// True when the store's version no longer matches the version this
    /// worker is mining: the signal to abandon the nonce loop and
    /// resnapshot.
    pub fn is_stale(&self, current_version: u64) -> (r: bool)
        ensures
            r == stale(self.local_version, current_version),
    {
        current_version != self.local_version
    }
}

/// Version staleness: a publication moves the store's version strictly past
/// every version recorded before it, so a worker holding such a version sees
/// the store as stale at its very next check — whether the version moved by
/// one or skipped ahead.
pub proof fn lemma_publish_staleness(before: u64, after: u64, local_version: u64)
    requires
        local_version <= before,
        before < after,
    ensures
        stale(local_version, after),
{
}

/// Identity separation: the identity byte is load-bearing.  Buffers prepared
/// from the same decoded blob for workers with different identity bytes
/// differ at the identity position whatever nonce is written, so the two
/// workers never hand the same bytes to the hash.
pub proof fn lemma_identity_separation(base: Seq<u8>, id1: u8, id2: u8, nonce: u32)
    requires
        base.len() == MINIBLOCK_SIZE,
        id1 != id2,
    ensures
        with_nonce(base.update(MINIBLOCK_SIZE as int - 1, id1), nonce) != with_nonce(
            base.update(MINIBLOCK_SIZE as int - 1, id2),
            nonce,
        ),
{
    let w1 = with_nonce(base.update(MINIBLOCK_SIZE as int - 1, id1), nonce);
    let w2 = with_nonce(base.update(MINIBLOCK_SIZE as int - 1, id2), nonce);
    assert(w1[MINIBLOCK_SIZE as int - 1] == id1);
    assert(w2[MINIBLOCK_SIZE as int - 1] == id2);
}

} // verus!
