//! Inclusion proofs and their verification.

use vstd::arithmetic::power2::{lemma_pow2_pos, lemma_pow2_unfold, pow2};
use vstd::prelude::*;

use crate::merkle::error::ProofError;
use crate::merkle::hash::{bag_of, bag_peaks, combine_nodes, hex_of, node_hash_of, Hash32};
use crate::merkle::mountains::{
    bit,
    bitlen,
    fold_path,
    heights,
    in_mountain,
    lemma_fold_path,
    lemma_heights_len,
    lemma_heights_top,
    lemma_mountain_of,
    lemma_start_mono,
    lemma_start_next,
    lemma_total_heights,
    mountain_of,
    peak_hashes,
    popcount,
    start,
    total,
};

verus! {

/// An inclusion proof that a leaf is in a Merkle Mountain Range: the
/// sibling hashes from the leaf up to its mountain's peak, and all peaks.
#[derive(Clone, Debug, PartialEq, Eq)]
pub struct MmrProof {
    /// 0-based index of the leaf within the range.
    pub leaf_index: usize,
    /// Total number of leaves when the proof was generated.
    pub leaf_count: usize,
    /// Hashes of sibling nodes along the path from the leaf to its peak.
    pub siblings: Vec<Hash32>,
    /// Hashes of all mountain peaks, tallest first.
    pub peaks: Vec<Hash32>,
}

/// The hashes of a list of hashes.
pub open spec fn views(hs: Seq<Hash32>) -> Seq<Seq<u8>> {
    hs.map_values(|h: Hash32| h@)
}

/// Whether a proof of leaf `i` among `n` leaves, with the given sibling and
/// peak hashes, shows `leaf` under `root`: the peaks are one per mountain,
/// the siblings one per level of the leaf's mountain, climbing them from
/// the leaf reaches that mountain's peak, and the peaks bag to the root.
pub open spec fn accepts(n: nat, i: nat, sibs: Seq<Seq<u8>>, pks: Seq<Seq<u8>>, root: Seq<u8>, leaf: Seq<u8>) -> bool {
    let hs = heights(n);
    let j = mountain_of(hs, i);
    &&& n > 0
    &&& i < n
    &&& pks.len() == hs.len()
    &&& sibs.len() == hs[j]
    &&& fold_path(leaf, sibs, (i - start(hs, j)) as nat) == pks[j]
    &&& bag_of(pks) == root
}

/// The number of one bits of `x`.
///
/// Calls `usize::count_ones`, documented as the number of ones in the
/// binary representation.
#[verifier::external_body]
fn count_ones(x: usize) -> (r: u32)
    ensures
        r == popcount(x as nat),
{
    x.count_ones()
}

/// The number of leading zero bits of `x`.
///
/// Calls `usize::leading_zeros`, documented as the number of leading zeros
/// in the binary representation.
#[verifier::external_body]
fn leading_zeros(x: usize) -> (r: u32)
    ensures
        r + bitlen(x as nat) == usize::BITS,
{
    x.leading_zeros()
}

/// A power of two has one more binary digit than its exponent.
proof fn lemma_bitlen_pow2(h: nat)
    ensures
        bitlen(pow2(h)) == h + 1,
    decreases h,
{
    if h == 0 {
        assert(pow2(0) == 1) by {
            vstd::arithmetic::power2::lemma2_to64();
        }
        assert(bitlen(0) == 0);
    } else {
        lemma_pow2_unfold(h);
        lemma_bitlen_pow2((h - 1) as nat);
        lemma_pow2_pos((h - 1) as nat);
        assert(pow2(h) / 2 == pow2((h - 1) as nat));
    }
}

/// Numbers below `2^64` have at most 64 binary digits.
proof fn lemma_bitlen_bound(x: nat, k: nat)
    requires
        x < pow2(k),
    ensures
        bitlen(x) <= k,
    decreases k,
{
    if x > 0 {
        if k == 0 {
            assert(pow2(0) == 1) by {
                vstd::arithmetic::power2::lemma2_to64();
            }
        } else {
            lemma_pow2_unfold(k);
            lemma_bitlen_bound(x / 2, (k - 1) as nat);
        }
    }
}

/// Every `usize` is below `2^BITS`, and `2^(BITS - 1)` is a `usize`.
proof fn lemma_usize_pow2()
    ensures
        usize::MAX < pow2(usize::BITS as nat),
        pow2((usize::BITS - 1) as nat) <= usize::MAX,
{
    vstd::arithmetic::power2::lemma2_to64();
    vstd::arithmetic::power2::lemma2_to64_rest();
}

/// Bit `h` of `x` read with a shift and a mask.
proof fn lemma_shift_bit(x: usize, h: usize)
    requires
        h < usize::BITS,
    ensures
        (((x >> h) & 1) == 1) == bit(x as nat, h as nat),
{
    vstd::bits::lemma_usize_shr_is_div(x, h);
    let y = x >> h;
    assert((y & 1) == y % 2) by (bit_vector);
}

impl MmrProof {
    /// Verify that this proof shows `leaf_hash` in a range with root
    /// `expected_root`.
    ///
    /// The checks, in order: a non-empty tree (`EmptyTree`), the leaf index
    /// in range (`LeafIndexOutOfBounds`), one peak per mountain
    /// (`PeakCountMismatch`), one sibling per level of the leaf's mountain
    /// (`SiblingCountMismatch`), the climb reaching that mountain's peak
    /// (`PeakMismatch`), and the peaks bagging to the root (`RootMismatch`).
    pub fn verify(&self, expected_root: &Hash32, leaf_hash: &Hash32) -> (r: Result<(), ProofError>)
        ensures
            ({
                let n = self.leaf_count as nat;
                let i = self.leaf_index as nat;
                let hs = heights(n);
                let j = mountain_of(hs, i);
                let sibs = views(self.siblings@);
                let pks = views(self.peaks@);
                let cand = fold_path(leaf_hash@, sibs, (i - start(hs, j)) as nat);
                &&& (r is Ok) == accepts(n, i, sibs, pks, expected_root@, leaf_hash@)
                &&& n == 0 ==> r == Err::<(), ProofError>(ProofError::EmptyTree)
                &&& n > 0 && i >= n ==> r == Err::<(), ProofError>(
                    ProofError::LeafIndexOutOfBounds { index: self.leaf_index, count: self.leaf_count },
                )
                &&& n > 0 && i < n && pks.len() != hs.len() ==> r == Err::<(), ProofError>(
                    ProofError::PeakCountMismatch { expected: hs.len() as usize, actual: pks.len() as usize },
                )
                &&& n > 0 && i < n && pks.len() == hs.len() && sibs.len() != hs[j] ==> r == Err::<
                    (),
                    ProofError,
                >(ProofError::SiblingCountMismatch { expected: hs[j] as usize, actual: sibs.len() as usize })
                &&& n > 0 && i < n && pks.len() == hs.len() && sibs.len() == hs[j] && cand != pks[j] ==> (
                r matches Err(ProofError::PeakMismatch { expected, computed, peak_index }) && expected@ == hex_of(
                    pks[j],
                ) && computed@ == hex_of(cand) && peak_index == j)
                &&& n > 0 && i < n && pks.len() == hs.len() && sibs.len() == hs[j] && cand == pks[j] && bag_of(pks)
                    != expected_root@ ==> (r matches Err(ProofError::RootMismatch { expected, computed })
                    && expected@ == hex_of(expected_root@) && computed@ == hex_of(bag_of(pks)))
            }),
    {
        let ghost n = self.leaf_count as nat;
        let ghost i = self.leaf_index as nat;
        let ghost hs = heights(n);
        if self.leaf_count == 0 {
            return Err(ProofError::EmptyTree);
        }
        if self.leaf_index >= self.leaf_count {
            return Err(ProofError::LeafIndexOutOfBounds { index: self.leaf_index, count: self.leaf_count });
        }
        let expected_peaks = count_ones(self.leaf_count) as usize;
        proof {
            lemma_heights_len(n);
        }
        if self.peaks.len() != expected_peaks {
            return Err(ProofError::PeakCountMismatch { expected: expected_peaks, actual: self.peaks.len() });
        }
        let mut rem = self.leaf_count;
        let mut offset: usize = 0;
        let mut target_peak_idx: Option<usize> = None;
        let mut target_mountain_size: usize = 0;
        let mut current_peak_idx: usize = 0;
        proof {
            lemma_mountain_of(n, i);
            lemma_total_heights(n);
            assert(hs.skip(0) =~= hs);
            assert(hs.take(0) =~= Seq::<nat>::empty());
        }
        while rem > 0
            invariant_except_break
                current_peak_idx <= hs.len(),
                current_peak_idx <= offset,
                offset == start(hs, current_peak_idx as int),
                offset + rem == n,
                heights(rem as nat) == hs.skip(current_peak_idx as int),
                i >= offset,
            invariant
                n == self.leaf_count,
                i == self.leaf_index,
                hs == heights(n),
                i < n,
                total(hs) == n,
                in_mountain(hs, mountain_of(hs, i), i),
                forall|j: int| #[trigger] in_mountain(hs, j, i) ==> j == mountain_of(hs, i),
            ensures
                target_peak_idx matches Some(k) && k == mountain_of(hs, i) && target_mountain_size == pow2(
                    hs[k as int],
                ) && offset == start(hs, k as int),
            decreases rem,
        {
            let lz = leading_zeros(rem);
            proof {
                lemma_heights_top(rem as nat);
                lemma_usize_pow2();
                lemma_bitlen_bound(rem as nat, usize::BITS as nat);
                assert(hs.skip(current_peak_idx as int)[0] == hs[current_peak_idx as int]);
            }
            let power = (usize::BITS - 1 - lz) as usize;
            proof {
                assert(power == hs[current_peak_idx as int]);
                if power < usize::BITS - 1 {
                    vstd::arithmetic::power2::lemma_pow2_strictly_increases(
                        power as nat,
                        (usize::BITS - 1) as nat,
                    );
                }
                vstd::bits::lemma_usize_shl_is_mul(1, power);
            }
            let size = 1usize << power;
            proof {
                lemma_start_next(hs, current_peak_idx as int);
                lemma_pow2_pos(power as nat);
            }
            if self.leaf_index >= offset && self.leaf_index < offset + size {
                proof {
                    assert(in_mountain(hs, current_peak_idx as int, i));
                }
                target_peak_idx = Some(current_peak_idx);
                target_mountain_size = size;
                break;
            }
            offset += size;
            rem -= size;
            current_peak_idx += 1;
            proof {
                assert(hs.skip(current_peak_idx - 1).drop_first() =~= hs.skip(current_peak_idx as int));
            }
        }
        let peak_idx = match target_peak_idx {
            Some(idx) => idx,
            None => {
                return Err(ProofError::LeafIndexOutOfBounds { index: self.leaf_index, count: self.leaf_count });
            },
        };
        let ghost j = peak_idx as int;
        let ghost h = hs[j];
        proof {
            lemma_bitlen_pow2(h);
            lemma_usize_pow2();
            if h >= usize::BITS {
                if h > usize::BITS {
                    vstd::arithmetic::power2::lemma_pow2_strictly_increases(usize::BITS as nat, h);
                }
            }
        }
        let expected_siblings = (usize::BITS - 1 - leading_zeros(target_mountain_size)) as usize;
        if self.siblings.len() != expected_siblings {
            return Err(
                ProofError::SiblingCountMismatch { expected: expected_siblings, actual: self.siblings.len() },
            );
        }
        let local_index = self.leaf_index - offset;
        let ghost sibs = views(self.siblings@);
        let mut curr = *leaf_hash;
        let mut k: usize = 0;
        proof {
            assert(sibs.take(0) =~= Seq::<Seq<u8>>::empty());
        }
        while k < self.siblings.len()
            invariant
                k <= self.siblings@.len(),
                self.siblings@.len() == h,
                h < usize::BITS,
                sibs == views(self.siblings@),
                curr@ == fold_path(leaf_hash@, sibs.take(k as int), local_index as nat),
            decreases self.siblings@.len() - k,
        {
            let sibling = &self.siblings[k];
            proof {
                lemma_shift_bit(local_index, k);
                assert(sibs.take(k as int + 1).drop_last() =~= sibs.take(k as int));
            }
            if ((local_index >> k) & 1) == 1 {
                curr = combine_nodes(sibling, &curr);
            } else {
                curr = combine_nodes(&curr, sibling);
            }
            k += 1;
        }
        proof {
            assert(sibs.take(k as int) =~= sibs);
        }
        let expected_peak = self.peaks[peak_idx];
        if !hash_eq(&curr, &expected_peak) {
            return Err(
                ProofError::PeakMismatch {
                    expected: expected_peak.to_hex(),
                    computed: curr.to_hex(),
                    peak_index: peak_idx,
                },
            );
        }
        let computed_root = bag_peaks(self.peaks.as_slice());
        if !hash_eq(&computed_root, expected_root) {
            return Err(
                ProofError::RootMismatch { expected: expected_root.to_hex(), computed: computed_root.to_hex() },
            );
        }
        Ok(())
    }
}

/// Whether two hashes are equal, byte by byte.
fn hash_eq(a: &Hash32, b: &Hash32) -> (r: bool)
    ensures
        r == (a@ == b@),
{
    let mut i: usize = 0;
    while i < 32
        invariant
            i <= 32,
            forall|k: int| 0 <= k < i ==> a@[k] == b@[k],
        decreases 32 - i,
    {
        if a.0[i] != b.0[i] {
            return false;
        }
        i += 1;
    }
    proof {
        assert(a@ =~= b@);
    }
    true
}

/// A proof generated for a leaf of a range verifies against the range's
/// root and that leaf's hash.
pub proof fn law_generated_proof_verifies(leaves: Seq<Seq<u8>>, i: nat)
    requires
        i < leaves.len(),
    ensures
        ({
            let hs = heights(leaves.len());
            let j = mountain_of(hs, i);
            let sibs = crate::merkle::mountains::path(leaves, start(hs, j), hs[j], (i - start(hs, j)) as nat);
            accepts(leaves.len(), i, sibs, peak_hashes(leaves), bag_of(peak_hashes(leaves)), leaves[i as int])
        }),
{
    let n = leaves.len();
    let hs = heights(n);
    lemma_mountain_of(n, i);
    let j = mountain_of(hs, i);
    let st = start(hs, j);
    let loc = (i - st) as nat;
    lemma_total_heights(n);
    assert(hs.take(hs.len() as int) =~= hs);
    lemma_start_mono(hs, j, hs.len() as int);
    vstd::arithmetic::div_mod::lemma_small_mod(loc, pow2(hs[j]));
    lemma_fold_path(leaves, st, hs[j], loc, loc);
    assert(st + loc == i);
}

} // verus!
