//! The AstroBWT proof-of-work hash: a SHA3-256 of the input seeds a Salsa20
//! keystream of a fixed prime-like length, the suffix array of that keystream
//! is built, its indices are truncated to 16 bits and laid out as
//! little-endian byte pairs, and a final SHA3-256 of those bytes is the
//! digest.

use vstd::prelude::*;

verus! {

/// Byte length of the intermediate pseudorandom buffer; fixed for every
/// input, and deliberately not a power of two.
pub const STAGE1_LENGTH: usize = 9973;

/// The SHA3-256 digest of a byte sequence, named here because its value is a
/// function of the input alone and is not restated in this crate.
pub uninterp spec fn sha3_of(input: Seq<u8>) -> Seq<u8>;

/// The Salsa20 keystream drawn from a 32-byte key with an all-zero nonce,
/// truncated to `STAGE1_LENGTH` bytes; a function of the key alone.
pub uninterp spec fn salsa20_expand(key: Seq<u8>) -> Seq<u8>;

/// The pseudorandom stage-1 buffer derived from an input.
pub open spec fn stage1_of(input: Seq<u8>) -> Seq<u8> {
    salsa20_expand(sha3_of(input))
}

/// The suffix of `s` that starts at position `i`.
pub open spec fn suffix(s: Seq<u8>, i: int) -> Seq<u8> {
    s.skip(i)
}

/// Strict lexicographic order on byte sequences: a proper prefix comes first,
/// otherwise the first differing byte decides.
pub open spec fn lex_less(a: Seq<u8>, b: Seq<u8>) -> bool
    decreases a.len(),
{
    if b.len() == 0 {
        false
    } else if a.len() == 0 {
        true
    } else if a[0] < b[0] {
        true
    } else if a[0] > b[0] {
        false
    } else {
        lex_less(a.skip(1), b.skip(1))
    }
}

/// `sa` is the suffix array of `s`: a permutation of the starting positions
/// of `s`, listed so that the suffixes they begin come in strictly increasing
/// lexicographic order.
pub open spec fn is_suffix_array(s: Seq<u8>, sa: Seq<int>) -> bool {
    &&& sa.len() == s.len()
    &&& (forall|i: int| 0 <= i < sa.len() ==> 0 <= #[trigger] sa[i] < s.len())
    &&& (forall|i: int, j: int|
        #![trigger sa[i], sa[j]]
        0 <= i < j < sa.len() ==> sa[i] != sa[j])
    &&& (forall|i: int|
        0 <= i && i + 1 < sa.len() ==> lex_less(
            suffix(s, #[trigger] sa[i]),
            suffix(s, sa[i + 1]),
        ))
}

/// Each index truncated to an unsigned 16-bit value and written as two
/// little-endian bytes.
pub open spec fn sa_le16_bytes(sa: Seq<int>) -> Seq<u8> {
    Seq::new(
        (2 * sa.len()) as nat,
        |k: int|
            if k % 2 == 0 {
                (((sa[k / 2] % 0x10000) % 256) as u8)
            } else {
                (((sa[k / 2] % 0x10000) / 256) as u8)
            },
    )
}

/// The digest `r` is the AstroBWT hash of `input`: the final SHA3-256 over
/// the 16-bit-truncated, little-endian-encoded suffix array of the stage-1
/// buffer.
pub open spec fn pow16_digest_ok(input: Seq<u8>, r: Seq<u8>) -> bool {
    exists|sa: Seq<int>|
        #[trigger] is_suffix_array(stage1_of(input), sa) && r == sha3_of(sa_le16_bytes(sa))
}

/// Relies on sha3::Sha3_256 (update then finalize): the 32-byte digest is a
/// function of the input bytes alone.
#[verifier::external_body]
pub fn sha3(input: &[u8]) -> (r: [u8; 32])
    ensures
        r@ == sha3_of(input@),
{
    let mut output: [u8; 32] = [0; 32];
    let mut hasher = <sha3::Sha3_256 as sha3::Digest>::new();
    sha3::Digest::update(&mut hasher, input);
    output.copy_from_slice(sha3::Digest::finalize(hasher).as_slice());
    output
}

/// Relies on salsa20::Salsa20 with an all-zero eight-byte nonce: applying the
/// cipher to an all-zero buffer yields the keystream, a function of the key
/// alone; the output length equals the buffer handed in.
#[verifier::external_body]
fn salsa20_stage1(key: &[u8; 32]) -> (r: Vec<u8>)
    ensures
        r@ == salsa20_expand(key@),
        r@.len() == STAGE1_LENGTH,
{
    let key_arr = salsa20::Key::from(*key);
    let nonce = salsa20::Nonce::from([0u8; 8]);
    let mut cipher = <salsa20::Salsa20 as salsa20::cipher::KeyIvInit>::new(&key_arr, &nonce);
    let mut buf = vec![0u8; STAGE1_LENGTH];
    salsa20::cipher::StreamCipher::apply_keystream(&mut cipher, &mut buf);
    buf
}

/// Relies on cdivsufsort::sort_in_place: fills an equally long array with
/// the suffix array of `s` (it panics only on a length mismatch or an input
/// of `i32::MAX` bytes or more, both excluded here).
#[verifier::external_body]
fn suffix_array(s: &[u8]) -> (sa: Vec<i32>)
    requires
        s@.len() < 0x7fff_ffff,
    ensures
        sa@.len() == s@.len(),
        is_suffix_array(s@, sa@.map_values(|v: i32| v as int)),
{
    let mut sa = vec![0i32; s.len()];
    cdivsufsort::sort_in_place(s, &mut sa);
    sa
}

/// Lay the suffix-array indices out as little-endian 16-bit values.
fn sa_to_bytes(sa: &Vec<i32>) -> (r: Vec<u8>)
    requires
        sa@.len() <= 0x7fff_ffff,
        forall|i: int| 0 <= i < sa@.len() ==> 0 <= #[trigger] sa@[i] < 0x10000,
    ensures
        r@ == sa_le16_bytes(sa@.map_values(|v: i32| v as int)),
{
    let ghost target: Seq<u8> = sa_le16_bytes(sa@.map_values(|v: i32| v as int));
    let mut r: Vec<u8> = Vec::new();
    let mut i: usize = 0;
    while i < sa.len()
        invariant
            i <= sa@.len(),
            sa@.len() <= 0x7fff_ffff,
            forall|k: int| 0 <= k < sa@.len() ==> 0 <= #[trigger] sa@[k] < 0x10000,
            target == sa_le16_bytes(sa@.map_values(|v: i32| v as int)),
            r@.len() == 2 * i,
            forall|k: int| 0 <= k < 2 * i ==> r@[k] == #[trigger] target[k],
        decreases sa@.len() - i,
    {
        let v: i32 = sa[i];
        r.push((v % 256) as u8);
        r.push((v / 256) as u8);
        i += 1;
    }
    proof {
        assert(r@ =~= target);
    }
    r
}

/// The AstroBWT hash: 32 digest bytes computed from the input alone.
pub fn pow16(input: &[u8]) -> (r: [u8; 32])
    ensures
        pow16_digest_ok(input@, r@),
{
    let stage1_result: Vec<u8> = stage1(input);
    let sa: Vec<i32> = suffix_array(stage1_result.as_slice());
    proof {
        let gsa: Seq<int> = sa@.map_values(|v: i32| v as int);
        assert forall|i: int| 0 <= i < sa@.len() implies 0 <= #[trigger] sa@[i] < 0x10000 by {
            assert(gsa[i] == sa@[i] as int);
            assert(0 <= gsa[i] < stage1_result@.len());
        }
    }
    let bytes: Vec<u8> = sa_to_bytes(&sa);
    let out: [u8; 32] = sha3(bytes.as_slice());
    proof {
        let gsa: Seq<int> = sa@.map_values(|v: i32| v as int);
        assert(is_suffix_array(stage1_of(input@), gsa));
        assert(out@ == sha3_of(sa_le16_bytes(gsa)));
    }
    out
}

/// The stage-1 buffer is the same fixed length for every input, whatever the
/// input's own length.
pub fn stage1(input: &[u8]) -> (r: Vec<u8>)
    ensures
        r@ == stage1_of(input@),
        r@.len() == STAGE1_LENGTH,
{
    let key: [u8; 32] = sha3(input);
    salsa20_stage1(&key)
}

proof fn lemma_lex_asym(a: Seq<u8>, b: Seq<u8>)
    requires
        lex_less(a, b),
    ensures
        !lex_less(b, a),
    decreases a.len(),
{
    if a.len() > 0 && b.len() > 0 && a[0] == b[0] {
        lemma_lex_asym(a.skip(1), b.skip(1));
    }
}

proof fn lemma_lex_trans(a: Seq<u8>, b: Seq<u8>, c: Seq<u8>)
    requires
        lex_less(a, b),
        lex_less(b, c),
    ensures
        lex_less(a, c),
    decreases a.len(),
{
    if a.len() > 0 && b.len() > 0 && c.len() > 0 && a[0] == b[0] && b[0] == c[0] {
        lemma_lex_trans(a.skip(1), b.skip(1), c.skip(1));
    }
}

/// Sortedness of adjacent entries extends to every pair of positions.
proof fn lemma_sorted_pairs(s: Seq<u8>, sa: Seq<int>, i: int, j: int)
    requires
        is_suffix_array(s, sa),
        0 <= i < j < sa.len(),
    ensures
        lex_less(suffix(s, sa[i]), suffix(s, sa[j])),
    decreases j - i,
{
    if j == i + 1 {
        assert(lex_less(suffix(s, sa[i]), suffix(s, sa[i + 1])));
    } else {
        lemma_sorted_pairs(s, sa, i, j - 1);
        assert(lex_less(suffix(s, sa[j - 1]), suffix(s, sa[(j - 1) + 1])));
        lemma_lex_trans(suffix(s, sa[i]), suffix(s, sa[j - 1]), suffix(s, sa[j]));
    }
}

/// A duplicate-free sequence of `n` values drawn from `[0, n)` holds every
/// such value: the pigeonhole argument.
proof fn lemma_perm_covers(a: Seq<int>, n: int, v: int)
    requires
        a.len() == n,
        forall|i: int| 0 <= i < a.len() ==> 0 <= #[trigger] a[i] < n,
        forall|i: int, j: int| #![trigger a[i], a[j]] 0 <= i < j < a.len() ==> a[i] != a[j],
        0 <= v < n,
    ensures
        a.contains(v),
{
    broadcast use vstd::set::group_set_axioms;
    broadcast use vstd::seq_lib::seq_to_set_is_finite;

    assert(a.no_duplicates()) by {
        assert forall|i: int, j: int|
            (0 <= i < a.len() && 0 <= j < a.len() && i != j) implies a[i] != a[j] by {
            if i < j {
                assert(a[i] != a[j]);
            } else {
                assert(a[j] != a[i]);
            }
        }
    }
    a.unique_seq_to_set();
    vstd::set_lib::lemma_int_range(0, n);
    assert(a.to_set().subset_of(vstd::set_lib::set_int_range(0, n))) by {
        assert forall|x: int| a.to_set().contains(x) implies vstd::set_lib::set_int_range(
            0,
            n,
        ).contains(x) by {
            let i = choose|i: int| 0 <= i < a.len() && a[i] == x;
            assert(0 <= a[i] < n);
        }
    }
    vstd::set_lib::lemma_subset_equality(a.to_set(), vstd::set_lib::set_int_range(0, n));
    assert(a.to_set().contains(v));
}

/// A buffer has exactly one suffix array: suffixes at distinct positions have
/// distinct lengths, so the lexicographic order on them is strict and total,
/// and a sorted permutation under a strict total order is unique.
pub proof fn lemma_suffix_array_unique(s: Seq<u8>, a: Seq<int>, b: Seq<int>)
    requires
        is_suffix_array(s, a),
        is_suffix_array(s, b),
    ensures
        a == b,
{
    let n = s.len() as int;
    assert forall|k: int| 0 <= k < n implies a[k] == b[k] by {
        lemma_sa_entries_agree(s, a, b, k);
    }
    assert(a =~= b);
}

/// Entries of two suffix arrays of one buffer agree at every position.
proof fn lemma_sa_entries_agree(s: Seq<u8>, a: Seq<int>, b: Seq<int>, k: int)
    requires
        is_suffix_array(s, a),
        is_suffix_array(s, b),
        0 <= k < s.len(),
    ensures
        a[k] == b[k],
    decreases k,
{
    let n = s.len() as int;
    assert forall|j: int| 0 <= j < k implies a[j] == b[j] by {
        lemma_sa_entries_agree(s, a, b, j);
    }
    if a[k] != b[k] {
        lemma_perm_covers(b, n, a[k]);
        let l = choose|l: int| 0 <= l < b.len() && b[l] == a[k];
        if l < k {
            assert(b[l] == a[l]);
            assert(a[l] != a[k]);
            assert(false);
        }
        lemma_perm_covers(a, n, b[k]);
        let m = choose|m: int| 0 <= m < a.len() && a[m] == b[k];
        if m < k {
            assert(a[m] == b[m]);
            assert(b[m] != b[k]);
            assert(false);
        }
        lemma_sorted_pairs(s, b, k, l);
        lemma_sorted_pairs(s, a, k, m);
        lemma_lex_asym(suffix(s, a[k]), suffix(s, b[k]));
        assert(false);
    }
}

/// Determinism: the digest is a function of the input alone.  The suffix
/// array in the hash's contract is unique, so any two digests the contract
/// allows for one input are the same digest.
pub proof fn lemma_pow16_deterministic(input: Seq<u8>, r1: Seq<u8>, r2: Seq<u8>)
    requires
        pow16_digest_ok(input, r1),
        pow16_digest_ok(input, r2),
    ensures
        r1 == r2,
{
    let sa1 = choose|sa: Seq<int>|
        #[trigger] is_suffix_array(stage1_of(input), sa) && r1 == sha3_of(sa_le16_bytes(sa));
    let sa2 = choose|sa: Seq<int>|
        #[trigger] is_suffix_array(stage1_of(input), sa) && r2 == sha3_of(sa_le16_bytes(sa));
    lemma_suffix_array_unique(stage1_of(input), sa1, sa2);
}

} // verus!
