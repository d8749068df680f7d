//! The difficulty check: a digest counts as a valid proof of work when its
//! value, read as a little-endian unsigned integer, does not exceed the
//! difficulty threshold reported by the daemon.

use vstd::prelude::*;
use vstd::arithmetic::mul::*;

verus! {

/// The integer value of a byte sequence read in little-endian order.
pub open spec fn le_value(s: Seq<u8>) -> int
    decreases s.len(),
{
    if s.len() == 0 {
        0
    } else {
        s[0] + 256 * le_value(s.skip(1))
    }
}

/// 256 raised to the power `n`.
pub open spec fn pow256(n: nat) -> int
    decreases n,
{
    if n == 0 {
        1
    } else {
        256 * pow256((n - 1) as nat)
    }
}

/// A digest is accepted when its little-endian integer value does not exceed
/// the threshold.
pub open spec fn accepts(digest: Seq<u8>, threshold: u64) -> bool {
    le_value(digest) <= threshold as int
}

pub proof fn lemma_le_value_nonneg(s: Seq<u8>)
    ensures
        0 <= le_value(s),
    decreases s.len(),
{
    if s.len() > 0 {
        lemma_le_value_nonneg(s.skip(1));
    }
}

pub proof fn lemma_pow256_pos(n: nat)
    ensures
        1 <= pow256(n),
    decreases n,
{
    if n > 0 {
        lemma_pow256_pos((n - 1) as nat);
    }
}

/// Splitting a byte sequence at `n` splits its value: the low part plus
/// the high part scaled by `256^n`.
pub proof fn lemma_le_value_split(s: Seq<u8>, n: int)
    requires
        0 <= n <= s.len(),
    ensures
        le_value(s) == le_value(s.take(n)) + pow256(n as nat) * le_value(s.skip(n)),
    decreases n,
{
    if n == 0 {
        assert(s.take(0) =~= Seq::<u8>::empty());
        assert(s.skip(0) =~= s);
    } else {
        lemma_le_value_split(s.skip(1), n - 1);
        assert(s.take(n).skip(1) =~= s.skip(1).take(n - 1));
        assert(s.skip(n) =~= s.skip(1).skip(n - 1));
        assert(s.take(n)[0] == s[0]);
        lemma_mul_is_associative(256, pow256((n - 1) as nat), le_value(s.skip(n)));
    }
}

/// The value of a byte sequence is zero exactly when every byte is zero.
pub proof fn lemma_le_value_zero(s: Seq<u8>)
    ensures
        (le_value(s) == 0) <==> (forall|i: int| 0 <= i < s.len() ==> s[i] == 0),
    decreases s.len(),
{
    if s.len() > 0 {
        lemma_le_value_zero(s.skip(1));
        lemma_le_value_nonneg(s.skip(1));
        if le_value(s) == 0 {
            assert forall|i: int| 0 <= i < s.len() implies s[i] == 0 by {
                if i > 0 {
                    assert(s.skip(1)[i - 1] == s[i]);
                }
            }
        }
        if forall|i: int| 0 <= i < s.len() ==> s[i] == 0 {
            assert forall|i: int| 0 <= i < s.skip(1).len() implies s.skip(1)[i] == 0 by {
                assert(s.skip(1)[i] == s[i + 1]);
            }
        }
    }
}

/// A 32-byte digest with any nonzero byte among the high 24 has a value of
/// at least `256^8`, beyond the reach of any 64-bit threshold.
proof fn lemma_high_bytes_large(s: Seq<u8>)
    requires
        s.len() == 32,
        le_value(s.skip(8)) >= 1,
    ensures
        le_value(s) >= pow256(8),
{
    lemma_le_value_split(s, 8);
    lemma_le_value_nonneg(s.take(8));
    lemma_pow256_pos(8);
    lemma_mul_inequality(1, le_value(s.skip(8)), pow256(8));
    lemma_mul_is_commutative(le_value(s.skip(8)), pow256(8));
}

pub proof fn lemma_pow256_monotone(a: nat, b: nat)
    requires
        a <= b,
    ensures
        pow256(a) <= pow256(b),
    decreases b,
{
    if a < b {
        lemma_pow256_monotone(a, (b - 1) as nat);
        lemma_pow256_pos((b - 1) as nat);
    }
}

proof fn lemma_pow256_8_value()
    ensures
        pow256(8) == 0x1_0000_0000_0000_0000,
{
    assert(pow256(0) == 1);
    assert(pow256(1) == 256);
    assert(pow256(2) == 0x1_0000);
    assert(pow256(3) == 0x100_0000);
    assert(pow256(4) == 0x1_0000_0000);
    assert(pow256(5) == 0x100_0000_0000);
    assert(pow256(6) == 0x1_0000_0000_0000);
    assert(pow256(7) == 0x100_0000_0000_0000);
}

/// Decide whether a digest satisfies the difficulty threshold: true exactly
/// when the digest, as a little-endian integer, is at most `difficulty`.
pub fn check_pow_hash(pow_hash: [u8; 32], difficulty: u64) -> (r: bool)
    ensures
        r == accepts(pow_hash@, difficulty),
{
    let mut k: usize = 8;
    while k < 32
        invariant
            8 <= k <= 32,
            pow_hash@.len() == 32,
            forall|i: int| 8 <= i < k ==> pow_hash@[i] == 0,
        decreases 32 - k,
    {
        if pow_hash[k] != 0 {
            proof {
                lemma_le_value_zero(pow_hash@.skip(8));
                assert(pow_hash@.skip(8)[k - 8] == pow_hash@[k as int]);
                lemma_le_value_nonneg(pow_hash@.skip(8));
                lemma_high_bytes_large(pow_hash@);
                lemma_pow256_8_value();
            }
            return false;
        }
        k += 1;
    }
    proof {
        assert forall|i: int| 0 <= i < pow_hash@.skip(8).len() implies pow_hash@.skip(8)[i]
            == 0 by {
            assert(pow_hash@.skip(8)[i] == pow_hash@[i + 8]);
        }
        lemma_le_value_zero(pow_hash@.skip(8));
        lemma_le_value_split(pow_hash@, 8);
    }
    let mut low: u64 = 0;
    let mut j: usize = 8;
    while j > 0
        invariant
            j <= 8,
            pow_hash@.len() == 32,
            low as int == le_value(pow_hash@.subrange(j as int, 8)),
            (low as int) < pow256((8 - j) as nat),
        decreases j,
    {
        j -= 1;
        proof {
            assert(pow_hash@.subrange(j as int, 8).skip(1) =~= pow_hash@.subrange(
                j as int + 1,
                8,
            ));
            assert(pow_hash@.subrange(j as int, 8)[0] == pow_hash@[j as int]);
            assert(pow256((8 - j) as nat) == 256 * pow256((7 - j) as nat));
            lemma_pow256_monotone((8 - j) as nat, 8);
            lemma_pow256_8_value();
        }
        low = low * 256 + (pow_hash[j] as u64);
    }
    proof {
        assert(pow_hash@.subrange(0, 8) =~= pow_hash@.take(8));
    }
    low <= difficulty
}

/// Difficulty monotonicity: among two digests, if the one with the larger
/// integer value is accepted at some threshold, the smaller one is accepted
/// there as well.
pub proof fn lemma_difficulty_monotone(d1: Seq<u8>, d2: Seq<u8>, threshold: u64)
    requires
        le_value(d1) < le_value(d2),
    ensures
        accepts(d2, threshold) ==> accepts(d1, threshold),
{
}

} // verus!
