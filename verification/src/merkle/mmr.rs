//! The Merkle Mountain Range: an append-only forest of perfect binary
//! Merkle trees whose heights are the set bits of the leaf count.

use vstd::arithmetic::power2::{lemma_pow2_pos, lemma_pow2_unfold, pow2};
use vstd::prelude::*;

use crate::merkle::error::MmrError;
use crate::merkle::hash::{bag_of, bag_peaks, combine_nodes, hash_leaf, leaf_hash_of, Hash32};
use crate::merkle::inclusion::MmrProof;
use crate::merkle::mountains::{
    heights,
    in_mountain,
    lemma_heights_last,
    lemma_heights_odd,
    lemma_heights_even,
    lemma_heights_scale,
    lemma_heights_succ_even,
    lemma_mountain_of,
    lemma_raise_raise,
    lemma_raise_zero,
    lemma_start_next,
    lemma_total_heights,
    lemma_total_push,
    lemma_total_raise,
    lemma_tree_push,
    mountain_of,
    path,
    peak_hashes,
    raise,
    start,
    total,
    tree,
};

verus! {

/// An internal node of the range: a leaf or the parent of two equal trees.
#[derive(Clone, Copy, Debug, PartialEq, Eq)]
struct MmrNode {
    /// Domain-separated SHA-256 hash of this node.
    hash: Hash32,
    /// Distance from the bottom of the tree (leaves are height 0).
    height: u32,
    /// Position of the left child in the node array, if any.
    left_child: Option<usize>,
    /// Position of the right child in the node array, if any.
    right_child: Option<usize>,
    /// Position of this node's parent in the node array, if any.
    parent: Option<usize>,
}

/// An append-only Merkle Mountain Range.
///
/// Adding a leaf merges equal mountains; generating an inclusion proof
/// climbs from the leaf to its mountain's peak.
pub struct MerkleMountainRange {
    /// All nodes, leaves and parents, in the order they were created.
    nodes: Vec<MmrNode>,
    /// Node positions of the mountain peaks, tallest first.
    peaks: Vec<usize>,
    /// Node position of each leaf, by leaf index.
    leaf_positions: Vec<usize>,
    /// The leaf hashes, in order.
    leaves: Ghost<Seq<Seq<u8>>>,
    /// For each node, the first leaf it covers and its height.
    spans: Ghost<Seq<(nat, nat)>>,
}

/// What node `i` must satisfy: its height and hash match the tree over the
/// leaves it covers, its children cover the two halves and point back to it,
/// and its parent has it as a child.
spec fn node_ok(
    nodes: Seq<MmrNode>,
    spans: Seq<(nat, nat)>,
    leaves: Seq<Seq<u8>>,
    positions: Seq<usize>,
    i: int,
) -> bool {
    let n = nodes[i];
    let (s, h) = spans[i];
    &&& n.height == h
    &&& s + pow2(h) <= leaves.len()
    &&& n.hash@ == tree(leaves, s, h)
    &&& h == 0 ==> n.left_child is None && n.right_child is None && s < positions.len() && positions[s as int] == i
    &&& h > 0 ==> {
        &&& n.left_child matches Some(l) && 0 <= l < i && spans[l as int] == (s, (h - 1) as nat)
            && nodes[l as int].parent == Some(i as usize)
        &&& n.right_child matches Some(r) && 0 <= r < i && spans[r as int] == (
            s + pow2((h - 1) as nat),
            (h - 1) as nat,
        ) && nodes[r as int].parent == Some(i as usize)
    }
    &&& n.parent matches Some(p) ==> i < p < nodes.len() && (nodes[p as int].left_child == Some(i as usize)
        || nodes[p as int].right_child == Some(i as usize))
}

/// The heights of the trees rooted at the given node positions.
spec fn peak_heights(spans: Seq<(nat, nat)>, peaks: Seq<usize>) -> Seq<nat> {
    peaks.map_values(|p: usize| spans[p as int].1)
}

/// The peaks: in bounds, without parents, covering consecutive leaves.
spec fn peaks_ok(nodes: Seq<MmrNode>, spans: Seq<(nat, nat)>, peaks: Seq<usize>) -> bool {
    forall|j: int|
        0 <= j < peaks.len() ==> {
            &&& #[trigger] peaks[j] < nodes.len()
            &&& nodes[peaks[j] as int].parent is None
            &&& spans[peaks[j] as int].0 == start(peak_heights(spans, peaks), j)
        }
}

impl MerkleMountainRange {
    /// The leaf hashes, in order.
    pub closed spec fn leaves(&self) -> Seq<Seq<u8>> {
        self.leaves@
    }

    /// The number of nodes stored.
    pub closed spec fn spec_node_count(&self) -> nat {
        self.nodes@.len()
    }

    /// The structure is consistent with its leaves.
    pub closed spec fn wf(&self) -> bool {
        let nodes = self.nodes@;
        let sp = self.spans@;
        let lv = self.leaves@;
        let lp = self.leaf_positions@;
        let hs = heights(lp.len() as nat);
        &&& lv.len() == lp.len()
        &&& sp.len() == nodes.len()
        &&& nodes.len() + hs.len() == 2 * lp.len()
        &&& forall|i: int| 0 <= i < nodes.len() ==> #[trigger] node_ok(nodes, sp, lv, lp, i)
        &&& forall|k: int|
            0 <= k < lp.len() ==> #[trigger] lp[k] < nodes.len() && sp[lp[k] as int] == (k as nat, 0nat)
        &&& peaks_ok(nodes, sp, self.peaks@)
        &&& peak_heights(sp, self.peaks@) == hs
        &&& forall|i: int|
            0 <= i < nodes.len() && #[trigger] nodes[i].parent is None ==> exists|j: int|
                0 <= j < self.peaks@.len() && self.peaks@[j] == i
    }

    /// The node count of a range of `n` leaves: `2n` minus its mountains.
    pub open spec fn node_count_of(n: nat) -> nat {
        (2 * n - heights(n).len()) as nat
    }

    /// Create an empty range.
    pub fn new() -> (r: Self)
        ensures
            r.wf(),
            r.leaves() == Seq::<Seq<u8>>::empty(),
    {
        let r = MerkleMountainRange {
            nodes: Vec::new(),
            peaks: Vec::new(),
            leaf_positions: Vec::new(),
            leaves: Ghost(Seq::empty()),
            spans: Ghost(Seq::empty()),
        };
        proof {
            assert(peak_heights(r.spans@, r.peaks@) =~= heights(0));
        }
        r
    }

    /// Whether the range holds no leaves.
    pub fn is_empty(&self) -> (r: bool)
        requires
            self.wf(),
        ensures
            r == (self.leaves().len() == 0),
    {
        self.leaf_positions.len() == 0
    }

    /// The number of leaves appended.
    pub fn leaf_count(&self) -> (r: usize)
        requires
            self.wf(),
        ensures
            r == self.leaves().len(),
    {
        self.leaf_positions.len()
    }

    /// The number of nodes stored, leaves and parents: twice the leaves
    /// minus one per mountain.
    pub fn node_count(&self) -> (r: usize)
        requires
            self.wf(),
        ensures
            r == Self::node_count_of(self.leaves().len()),
    {
        self.nodes.len()
    }

    /// The leaf hash at `leaf_index`.
    pub fn leaf_hash(&self, leaf_index: usize) -> (r: Result<Hash32, MmrError>)
        requires
            self.wf(),
        ensures
            leaf_index < self.leaves().len() ==> r is Ok && r->Ok_0@ == self.leaves()[leaf_index as int],
            leaf_index >= self.leaves().len() ==> r == Err::<Hash32, MmrError>(
                MmrError::LeafIndexOutOfBounds { index: leaf_index, count: self.leaves().len() as usize },
            ),
    {
        if leaf_index >= self.leaf_positions.len() {
            return Err(MmrError::LeafIndexOutOfBounds { index: leaf_index, count: self.leaf_positions.len() });
        }
        let node_pos = self.leaf_positions[leaf_index];
        proof {
            assert(node_ok(self.nodes@, self.spans@, self.leaves@, self.leaf_positions@, node_pos as int));
        }
        if node_pos >= self.nodes.len() {
            return Err(MmrError::NodeIndexOutOfBounds(node_pos));
        }
        Ok(self.nodes[node_pos].hash)
    }

    /// The hashes of the mountain peaks, tallest first.
    pub fn peaks(&self) -> (r: Vec<Hash32>)
        requires
            self.wf(),
        ensures
            r@.map_values(|h: Hash32| h@) == peak_hashes(self.leaves()),
    {
        let ghost hs = heights(self.leaf_positions@.len() as nat);
        let mut out: Vec<Hash32> = Vec::new();
        let mut j: usize = 0;
        while j < self.peaks.len()
            invariant
                self.wf(),
                hs == heights(self.leaf_positions@.len() as nat),
                j <= self.peaks@.len(),
                out@.len() == j,
                forall|k: int| 0 <= k < j ==> #[trigger] out@[k]@ == peak_hashes(self.leaves())[k],
            decreases self.peaks@.len() - j,
        {
            let idx = self.peaks[j];
            proof {
                assert(self.peaks@[j as int] < self.nodes@.len());
                assert(node_ok(self.nodes@, self.spans@, self.leaves@, self.leaf_positions@, idx as int));
                assert(peak_heights(self.spans@, self.peaks@)[j as int] == hs[j as int]);
            }
            if idx < self.nodes.len() {
                out.push(self.nodes[idx].hash);
            }
            j += 1;
        }
        proof {
            assert(out@.map_values(|h: Hash32| h@) =~= peak_hashes(self.leaves()));
        }
        out
    }

    /// The root: the peaks bagged right to left; the zero hash when empty.
    pub fn root(&self) -> (r: Hash32)
        requires
            self.wf(),
        ensures
            r@ == bag_of(peak_hashes(self.leaves())),
    {
        let p = self.peaks();
        bag_peaks(p.as_slice())
    }
}


/// The leaf tables extended by one leaf keep every node consistent.
proof fn lemma_push_leaf(
    nodes: Seq<MmrNode>,
    sp: Seq<(nat, nat)>,
    lv: Seq<Seq<u8>>,
    lp: Seq<usize>,
    x: Hash32,
)
    requires
        sp.len() == nodes.len(),
        lv.len() == lp.len(),
        forall|i: int| 0 <= i < nodes.len() ==> #[trigger] node_ok(nodes, sp, lv, lp, i),
        forall|i: int| 0 <= i < nodes.len() ==> ((#[trigger] nodes[i]).parent matches Some(p) ==> p < nodes.len()),
        nodes.len() < usize::MAX,
    ensures
        ({
            let n2 = nodes.push(MmrNode { hash: x, height: 0, left_child: None, right_child: None, parent: None });
            let sp2 = sp.push((lv.len() as nat, 0nat));
            let lv2 = lv.push(x@);
            let lp2 = lp.push(nodes.len() as usize);
            forall|i: int| 0 <= i < n2.len() ==> #[trigger] node_ok(n2, sp2, lv2, lp2, i)
        }),
{
    let n2 = nodes.push(MmrNode { hash: x, height: 0, left_child: None, right_child: None, parent: None });
    let sp2 = sp.push((lv.len() as nat, 0nat));
    let lv2 = lv.push(x@);
    let lp2 = lp.push(nodes.len() as usize);
    assert forall|i: int| 0 <= i < n2.len() implies #[trigger] node_ok(n2, sp2, lv2, lp2, i) by {
        if i < nodes.len() {
            assert(node_ok(nodes, sp, lv, lp, i));
            let (s, h) = sp[i];
            lemma_tree_push(lv, x@, s, h);
            assert(n2[i] == nodes[i]);
            assert(sp2[i] == sp[i]);
            if h == 0 {
                assert(lp2[s as int] == lp[s as int]);
            }
            if h > 0 {
                let l = nodes[i].left_child->0;
                let r = nodes[i].right_child->0;
                assert(n2[l as int] == nodes[l as int]);
                assert(n2[r as int] == nodes[r as int]);
            }
            if nodes[i].parent is Some {
                let p = nodes[i].parent->0;
                assert(n2[p as int] == nodes[p as int]);
            }
        } else {
            assert(pow2(0) == 1) by {
                vstd::arithmetic::power2::lemma2_to64();
            }
        }
    }
}

/// The state in the middle of appending the leaf number `l0`: the new
/// leaf's mountain so far is the node `cur` of height `c`, covering the last
/// `2^c` leaves, and the peaks to its left are the mountains of `q * 2^c`
/// leaves.
spec fn loop_ok(
    nodes: Seq<MmrNode>,
    sp: Seq<(nat, nat)>,
    lv: Seq<Seq<u8>>,
    lp: Seq<usize>,
    peaks: Seq<usize>,
    cur: usize,
    c: nat,
    q: nat,
    l0: nat,
) -> bool {
    &&& lp.len() == l0 + 1
    &&& lv.len() == lp.len()
    &&& l0 < usize::MAX / 4
    &&& sp.len() == nodes.len()
    &&& forall|i: int| 0 <= i < nodes.len() ==> #[trigger] node_ok(nodes, sp, lv, lp, i)
    &&& forall|k: int| 0 <= k < lp.len() ==> #[trigger] lp[k] < nodes.len() && sp[lp[k] as int] == (k as nat, 0nat)
    &&& cur == nodes.len() - 1
    &&& nodes[cur as int].parent is None
    &&& sp[cur as int] == (q * pow2(c), c)
    &&& (q + 1) * pow2(c) == lp.len()
    &&& c < 64
    &&& peaks_ok(nodes, sp, peaks)
    &&& forall|j: int| 0 <= j < peaks.len() ==> #[trigger] peaks[j] < cur
    &&& peak_heights(sp, peaks) == raise(heights(q), c)
    &&& nodes.len() + peaks.len() + 1 == 2 * lp.len()
    &&& forall|i: int|
        0 <= i < nodes.len() && #[trigger] nodes[i].parent is None ==> i == cur || exists|j: int|
            0 <= j < peaks.len() && peaks[j] == i
}

/// One merge of the append loop: the last peak, of the new mountain's
/// height, and the new mountain become the children of a new node, which is
/// the new mountain.
#[verifier::rlimit(80)]
#[verifier::spinoff_prover]
proof fn lemma_merge_step(
    nodes0: Seq<MmrNode>,
    sp0: Seq<(nat, nat)>,
    lv: Seq<Seq<u8>>,
    lp: Seq<usize>,
    peaks0: Seq<usize>,
    c: nat,
    q: nat,
    l0: nat,
    parent_hash: Hash32,
)
    requires
        loop_ok(nodes0, sp0, lv, lp, peaks0, (nodes0.len() - 1) as usize, c, q, l0),
        peaks0.len() > 0,
        peak_heights(sp0, peaks0).last() == c,
        q % 2 == 1,
        parent_hash@ == crate::merkle::hash::node_hash_of(
            nodes0[peaks0.last() as int].hash@,
            nodes0[nodes0.len() - 1].hash@,
        ),
    ensures
        ({
            let left_idx = peaks0.last();
            let right_idx = (nodes0.len() - 1) as usize;
            let parent_idx = nodes0.len() as usize;
let nodes2 = nodes0.push(
    MmrNode {
        hash: parent_hash,
        height: (c + 1) as u32,
        left_child: Some(left_idx),
        right_child: Some(right_idx),
        parent: None,
    },
).update(left_idx as int, MmrNode { parent: Some(parent_idx), ..nodes0[left_idx as int] }).update(
    right_idx as int,
    MmrNode { parent: Some(parent_idx), ..nodes0[right_idx as int] },
);
let sp2 = sp0.push((sp0[left_idx as int].0, c + 1));
loop_ok(nodes2, sp2, lv, lp, peaks0.drop_last(), parent_idx, c + 1, q / 2, l0)
        }),
{
    let plen = peaks0.len() as int;
    let ph0 = peak_heights(sp0, peaks0);
    let left_idx = peaks0.last();
    let right_idx = (nodes0.len() - 1) as usize;
    let parent_idx = nodes0.len() as usize;
    let hq = heights(q);
    let q2 = q / 2;
    let s_left = sp0[left_idx as int].0;
    lemma_pow2_unfold(c + 1);
    lemma_pow2_pos(c);
    lemma_total_raise(hq, c);
    lemma_total_heights(q);
    assert(ph0.take(plen - 1) =~= ph0.drop_last());
    assert(s_left == start(ph0, plen - 1));
    assert(total(ph0) == pow2(c) * q);
    assert(s_left + pow2(c) == pow2(c) * q);
    assert(q == 2 * q2 + 1);
    assert(s_left == q2 * pow2(c + 1)) by (nonlinear_arith)
        requires
            s_left + pow2(c) == pow2(c) * q,
            q == 2 * q2 + 1,
            pow2(c + 1) == 2 * pow2(c),
    ;
    assert(sp0[right_idx as int] == (s_left + pow2(c), c)) by {
        assert(q * pow2(c) == pow2(c) * q) by (nonlinear_arith);
    }
    assert((q2 + 1) * pow2(c + 1) == (q + 1) * pow2(c)) by (nonlinear_arith)
        requires
            q == 2 * q2 + 1,
            pow2(c + 1) == 2 * pow2(c),
    ;
    if c + 1 >= 64 {
        vstd::arithmetic::power2::lemma_pow2_strictly_increases(63, c + 1);
        vstd::arithmetic::power2::lemma2_to64_rest();
        assert((q2 + 1) * pow2(c + 1) >= pow2(c + 1)) by (nonlinear_arith)
            requires
                pow2(c + 1) > 0,
        ;
    }
    assert(s_left + pow2(c + 1) <= lv.len()) by (nonlinear_arith)
        requires
            s_left == q2 * pow2(c + 1),
            (q2 + 1) * pow2(c + 1) == lv.len(),
    ;
    lemma_merge_nodes(nodes0, sp0, lv, lp, left_idx as int, right_idx as int, c, s_left, parent_hash);
    let nodes2 = nodes0.push(
        MmrNode {
            hash: parent_hash,
            height: (c + 1) as u32,
            left_child: Some(left_idx),
            right_child: Some(right_idx),
            parent: None,
        },
    ).update(left_idx as int, MmrNode { parent: Some(parent_idx), ..nodes0[left_idx as int] }).update(
        right_idx as int,
        MmrNode { parent: Some(parent_idx), ..nodes0[right_idx as int] },
    );
    let sp2 = sp0.push((s_left, c + 1));
    // The peaks left of the merged one keep their place.
    let peaks2 = peaks0.drop_last();
    assert(peak_heights(sp2, peaks2) =~= ph0.drop_last());
    lemma_heights_odd(q);
    assert(hq.drop_last() =~= raise(heights(q2), 1));
    assert(raise(hq, c).drop_last() =~= raise(hq.drop_last(), c));
    lemma_raise_raise(heights(q2), 1, c);
    assert(1 + c == c + 1);
    assert forall|j: int| 0 <= j < peaks2.len() implies {
        &&& #[trigger] peaks2[j] < nodes2.len()
        &&& nodes2[peaks2[j] as int].parent is None
        &&& sp2[peaks2[j] as int].0 == start(peak_heights(sp2, peaks2), j)
    } by {
        assert(peaks0[j] < nodes0.len());
        crate::merkle::mountains::lemma_start_mono(ph0, j, plen - 1);
        assert(peaks0[j] != left_idx);
        assert(peaks0[j] < right_idx);
        assert(ph0.drop_last().take(j) =~= ph0.take(j));
    }
    assert forall|k: int| 0 <= k < lp.len() implies #[trigger] lp[k] < nodes2.len()
        && sp2[lp[k] as int] == (k as nat, 0nat) by {
        assert(lp[k] < nodes0.len());
    }
    assert forall|i: int|
        0 <= i < nodes2.len() && #[trigger] nodes2[i].parent is None implies i == parent_idx
        || exists|j: int| 0 <= j < peaks2.len() && peaks2[j] == i by {
        if i < nodes0.len() {
            assert(i != left_idx && i != right_idx);
            assert(nodes0[i].parent is None);
            if i != right_idx {
                let j = choose|j: int| 0 <= j < peaks0.len() && peaks0[j] == i;
                assert(j != plen - 1);
                assert(peaks2[j] == i);
            }
        }
    }
    assert forall|j: int| 0 <= j < peaks2.len() implies #[trigger] peaks2[j] < parent_idx by {
        assert(peaks0[j] < right_idx);
    }
}

/// Merging the peak `left` with the new mountain `right` under a new parent
/// keeps every node consistent.
proof fn lemma_merge_nodes(
    nodes: Seq<MmrNode>,
    sp: Seq<(nat, nat)>,
    lv: Seq<Seq<u8>>,
    lp: Seq<usize>,
    left: int,
    right: int,
    c: nat,
    s: nat,
    hash: Hash32,
)
    requires
        sp.len() == nodes.len(),
        forall|i: int| 0 <= i < nodes.len() ==> #[trigger] node_ok(nodes, sp, lv, lp, i),
        0 <= left < right,
        right == nodes.len() - 1,
        nodes.len() < usize::MAX,
        nodes[left].parent is None,
        nodes[right].parent is None,
        sp[left] == (s, c),
        sp[right] == (s + pow2(c), c),
        s + pow2(c + 1) <= lv.len(),
        c + 1 < 64,
        hash@ == crate::merkle::hash::node_hash_of(nodes[left].hash@, nodes[right].hash@),
    ensures
        ({
            let p = nodes.len();
            let n1 = nodes.push(
                MmrNode {
                    hash,
                    height: (c + 1) as u32,
                    left_child: Some(left as usize),
                    right_child: Some(right as usize),
                    parent: None,
                },
            );
            let n2 = n1.update(left, MmrNode { parent: Some(p as usize), ..nodes[left] }).update(
                right,
                MmrNode { parent: Some(p as usize), ..nodes[right] },
            );
            let sp2 = sp.push((s, c + 1));
            forall|i: int| 0 <= i < n2.len() ==> #[trigger] node_ok(n2, sp2, lv, lp, i)
        }),
{
    let p = nodes.len();
    let n1 = nodes.push(
        MmrNode {
            hash,
            height: (c + 1) as u32,
            left_child: Some(left as usize),
            right_child: Some(right as usize),
            parent: None,
        },
    );
    let n2 = n1.update(left, MmrNode { parent: Some(p as usize), ..nodes[left] }).update(
        right,
        MmrNode { parent: Some(p as usize), ..nodes[right] },
    );
    let sp2 = sp.push((s, c + 1));
    lemma_pow2_unfold(c + 1);
    assert(node_ok(nodes, sp, lv, lp, left));
    assert(node_ok(nodes, sp, lv, lp, right));
    assert forall|i: int| 0 <= i < n2.len() implies #[trigger] node_ok(n2, sp2, lv, lp, i) by {
        if i < nodes.len() {
            assert(node_ok(nodes, sp, lv, lp, i));
            assert(sp2[i] == sp[i]);
            let (si, h) = sp[i];
            if h > 0 {
                let l = nodes[i].left_child->0 as int;
                let r = nodes[i].right_child->0 as int;
                assert(nodes[l].parent == Some(i as usize));
                assert(nodes[r].parent == Some(i as usize));
                assert(l != left && l != right);
                assert(r != left && r != right);
                assert(n2[l] == nodes[l]);
                assert(n2[r] == nodes[r]);
            }
            if i != left && i != right {
                assert(n2[i] == nodes[i]);
                if nodes[i].parent is Some {
                    let q = nodes[i].parent->0 as int;
                    if q == left || q == right {
                        assert(n2[q].left_child == nodes[q].left_child);
                        assert(n2[q].right_child == nodes[q].right_child);
                    } else {
                        assert(n2[q] == nodes[q]);
                    }
                }
            }
        } else {
            assert(i == p);
            assert(n2[i] == n1[i]);
            assert(n2[left].parent == Some(p as usize));
            assert(n2[right].parent == Some(p as usize));
            assert(((c + 1) - 1) as nat == c);
        }
    }
}

impl MerkleMountainRange {
    /// Append a leaf hash, merging equal mountains; returns the new leaf's
    /// index.
    #[verifier::rlimit(80)]
    #[verifier::spinoff_prover]
    pub fn append_leaf_hash(&mut self, leaf_hash: Hash32) -> (r: usize)
        requires
            old(self).wf(),
            old(self).leaves().len() < usize::MAX / 4,
        ensures
            final(self).wf(),
            final(self).leaves() == old(self).leaves().push(leaf_hash@),
            r == old(self).leaves().len(),
    {
        let ghost l0 = self.leaf_positions@.len() as nat;
        let leaf_node_idx = self.nodes.len();
        proof {
            assert forall|i: int| 0 <= i < self.nodes@.len() implies ((#[trigger] self.nodes@[i]).parent matches Some(
                p,
            ) ==> p < self.nodes@.len()) by {
                assert(node_ok(self.nodes@, self.spans@, self.leaves@, self.leaf_positions@, i));
            }
            lemma_push_leaf(self.nodes@, self.spans@, self.leaves@, self.leaf_positions@, leaf_hash);
        }
        self.leaf_positions.push(leaf_node_idx);
        self.nodes.push(
            MmrNode { hash: leaf_hash, height: 0, left_child: None, right_child: None, parent: None },
        );
        proof {
            self.spans = Ghost(self.spans@.push((l0, 0nat)));
            self.leaves = Ghost(self.leaves@.push(leaf_hash@));
        }
        let mut current_pos = leaf_node_idx;
        let mut current_height: u32 = 0;
        let ghost mut q: nat = l0;
        proof {
            lemma_raise_zero(heights(l0));
            assert(pow2(0) == 1) by {
                vstd::arithmetic::power2::lemma2_to64();
            }
            let o = old(self);
            assert(self.nodes@ == o.nodes@.push(
                MmrNode { hash: leaf_hash, height: 0, left_child: None, right_child: None, parent: None },
            ));
            assert(self.leaf_positions@ == o.leaf_positions@.push(leaf_node_idx));
            assert forall|j: int| 0 <= j < self.peaks@.len() implies #[trigger] self.peaks@[j] < o.nodes@.len() by {
                assert(self.peaks@[j] < o.nodes@.len());
            }
            assert(peak_heights(self.spans@, self.peaks@) =~= peak_heights(o.spans@, o.peaks@));
            assert forall|j: int| 0 <= j < self.peaks@.len() implies {
                &&& #[trigger] self.peaks@[j] < self.nodes@.len()
                &&& self.nodes@[self.peaks@[j] as int].parent is None
                &&& self.spans@[self.peaks@[j] as int].0 == start(peak_heights(self.spans@, self.peaks@), j)
            } by {
                assert(o.peaks@[j] < o.nodes@.len());
            }
            assert forall|k: int| 0 <= k < self.leaf_positions@.len() implies #[trigger] self.leaf_positions@[k]
                < self.nodes@.len() && self.spans@[self.leaf_positions@[k] as int] == (k as nat, 0nat) by {
                if k < l0 {
                    assert(o.leaf_positions@[k] < o.nodes@.len());
                }
            }
            assert forall|i: int|
                0 <= i < self.nodes@.len() && #[trigger] self.nodes@[i].parent is None implies i == current_pos
                || exists|j: int| 0 <= j < self.peaks@.len() && self.peaks@[j] == i by {
                if i < o.nodes@.len() {
                    assert(o.nodes@[i].parent is None);
                }
            }
            let nodes = self.nodes@;
            let sp = self.spans@;
            let lv = self.leaves@;
            let lp = self.leaf_positions@;
            assert(lp.len() == l0 + 1);
            assert(lv.len() == lp.len());
            assert(sp.len() == nodes.len());
            assert(sp == o.spans@.push((o.leaves@.len() as nat, 0nat)));
            assert(lv == o.leaves@.push(leaf_hash@));
            assert(lp == o.leaf_positions@.push(o.nodes@.len() as usize));
            assert(forall|i: int| 0 <= i < nodes.len() ==> #[trigger] node_ok(nodes, sp, lv, lp, i));
            assert(current_pos == nodes.len() - 1);
            assert(nodes[current_pos as int].parent is None);
            assert(sp[current_pos as int] == (q * pow2(0), 0nat));
            assert((q + 1) * pow2(0) == lp.len());
            assert(peaks_ok(nodes, sp, self.peaks@));
            assert(peak_heights(sp, self.peaks@) == raise(heights(q), 0));
            assert(nodes.len() + self.peaks@.len() + 1 == 2 * lp.len());
        }
        loop
            invariant
                self.wf_loop(current_pos, current_height as nat, q, l0),
                self.leaves@ == old(self).leaves@.push(leaf_hash@),
            ensures
                self.wf_loop(current_pos, current_height as nat, q, l0),
                self.leaves@ == old(self).leaves@.push(leaf_hash@),
                q % 2 == 0,
            decreases q,
        {
            let plen = self.peaks.len();
            if plen == 0 {
                proof {
                    assert(peak_heights(self.spans@, self.peaks@).len() == 0);
                    assert(raise(heights(q), current_height as nat).len() == heights(q).len());
                    if q > 0 {
                        lemma_heights_last(q);
                    }
                }
                break;
            }
            let last_peak_idx = self.peaks[plen - 1];
            let ghost nodes0 = self.nodes@;
            let ghost sp0 = self.spans@;
            let ghost peaks0 = self.peaks@;
            let ghost ph0 = peak_heights(sp0, peaks0);
            let ghost c = current_height as nat;
            proof {
                assert(peaks0[plen - 1] < nodes0.len());
                assert(node_ok(nodes0, sp0, self.leaves@, self.leaf_positions@, last_peak_idx as int));
            }
            if self.nodes[last_peak_idx].height != current_height {
                proof {
                    assert(ph0.last() != c);
                    assert(heights(0).len() == 0);
                    assert(q > 0);
                    lemma_heights_last(q);
                    assert(ph0.last() == heights(q).last() + c);
                }
                break;
            }
            proof {
                assert(ph0.last() == c);
                if q == 0 {
                    assert(heights(0).len() == 0);
                }
                lemma_heights_last(q);
                assert(q % 2 == 1);
            }
            self.peaks.pop();
            let left_idx = last_peak_idx;
            let right_idx = current_pos;
            let parent_hash = combine_nodes(&self.nodes[left_idx].hash, &self.nodes[right_idx].hash);
            let parent_height = current_height + 1;
            let parent_idx = self.nodes.len();
            self.nodes.push(
                MmrNode {
                    hash: parent_hash,
                    height: parent_height,
                    left_child: Some(left_idx),
                    right_child: Some(right_idx),
                    parent: None,
                },
            );
            let mut left_node = self.nodes[left_idx];
            left_node.parent = Some(parent_idx);
            self.nodes.set(left_idx, left_node);
            let mut right_node = self.nodes[right_idx];
            right_node.parent = Some(parent_idx);
            self.nodes.set(right_idx, right_node);
            proof {
                let s_left = sp0[left_idx as int].0;
                lemma_merge_step(
                    nodes0,
                    sp0,
                    self.leaves@,
                    self.leaf_positions@,
                    peaks0,
                    c,
                    q,
                    l0,
                    parent_hash,
                );
                assert(self.nodes@ == nodes0.push(
                    MmrNode {
                        hash: parent_hash,
                        height: (c + 1) as u32,
                        left_child: Some(left_idx),
                        right_child: Some(right_idx),
                        parent: None,
                    },
                ).update(left_idx as int, MmrNode { parent: Some(parent_idx), ..nodes0[left_idx as int] }).update(
                    right_idx as int,
                    MmrNode { parent: Some(parent_idx), ..nodes0[right_idx as int] },
                ));
                assert(self.peaks@ =~= peaks0.drop_last());
                self.spans = Ghost(sp0.push((s_left, c + 1)));
                q = q / 2;
            }
            current_pos = parent_idx;
            current_height = parent_height;
        }
        let ghost c = current_height as nat;
        let ghost ph = peak_heights(self.spans@, self.peaks@);
        let ghost n_leaves = self.leaf_positions@.len() as nat;
        let ghost peaks_before = self.peaks@;
        proof {
            lemma_heights_scale(q + 1, c);
            lemma_heights_succ_even(q);
            assert(raise(heights(q).push(0), c) =~= raise(heights(q), c).push(c));
            assert(heights(n_leaves) == ph.push(c));
            lemma_total_raise(heights(q), c);
            lemma_total_heights(q);
        }
        self.peaks.push(current_pos);
        proof {
            let peaks3 = self.peaks@;
            let sp = self.spans@;
            let nodes = self.nodes@;
            assert(peak_heights(sp, peaks3) =~= ph.push(c));
            assert forall|j: int| 0 <= j < peaks3.len() implies {
                &&& #[trigger] peaks3[j] < nodes.len()
                &&& nodes[peaks3[j] as int].parent is None
                &&& sp[peaks3[j] as int].0 == start(peak_heights(sp, peaks3), j)
            } by {
                assert(ph.push(c).take(j) =~= ph.take(j)) by {
                    if j < ph.len() {
                        assert(ph.push(c).take(j) =~= ph.take(j));
                    }
                }
                if j == ph.len() {
                    assert(ph.take(j) =~= ph);
                    assert(q * pow2(c) == pow2(c) * q) by (nonlinear_arith);
                }
            }
            assert forall|i: int|
                0 <= i < nodes.len() && #[trigger] nodes[i].parent is None implies exists|j: int|
                0 <= j < peaks3.len() && peaks3[j] == i by {
                if i == current_pos {
                    assert(peaks3[ph.len() as int] == i);
                } else {
                    assert(nodes[i].parent is None);
                    let j = choose|j: int| 0 <= j < peaks_before.len() && peaks_before[j] == i;
                    assert(peaks3[j] == i);
                }
            }
        }
        self.leaf_positions.len() - 1
    }

    /// The state in the middle of appending the leaf number `l0`.
    closed spec fn wf_loop(&self, cur: usize, c: nat, q: nat, l0: nat) -> bool {
        loop_ok(self.nodes@, self.spans@, self.leaves@, self.leaf_positions@, self.peaks@, cur, c, q, l0)
    }
}


/// The error for a corrupted tree, naming the node where it shows.
fn corrupted(what: &str, index: usize) -> (r: MmrError)
    ensures
        r is CorruptedTree,
{
    let mut msg = String::new();
    crate::ledger_core::message::push_str(&mut msg, what);
    crate::ledger_core::text::push_decimal(&mut msg, index as u128);
    MmrError::CorruptedTree(msg)
}

/// The inclusion proof of leaf `i` among `leaves`: its index, the leaf
/// count, its path to the peak of its mountain, and all peaks.
pub open spec fn proof_fields(leaves: Seq<Seq<u8>>, i: nat) -> (nat, nat, Seq<Seq<u8>>, Seq<Seq<u8>>) {
    let hs = heights(leaves.len());
    let j = mountain_of(hs, i);
    (i, leaves.len(), path(leaves, start(hs, j), hs[j], (i - start(hs, j)) as nat), peak_hashes(leaves))
}

/// The hashes of a list of hashes.
pub open spec fn hash_views(hs: Seq<Hash32>) -> Seq<Seq<u8>> {
    hs.map_values(|h: Hash32| h@)
}

impl MerkleMountainRange {
    /// The leaf hashes, in order: all a range's state follows from them.
    pub fn leaf_hashes(&self) -> (r: Vec<Hash32>)
        requires
            self.wf(),
        ensures
            hash_views(r@) == self.leaves(),
    {
        let mut out: Vec<Hash32> = Vec::new();
        let n = self.leaf_count();
        let mut i: usize = 0;
        while i < n
            invariant
                self.wf(),
                n == self.leaves().len(),
                0 <= i <= n,
                hash_views(out@) == self.leaves().take(i as int),
            decreases n - i,
        {
            let ghost prev = out@;
            match self.leaf_hash(i) {
                Ok(h) => {
                    out.push(h);
                    assert(hash_views(out@) =~= hash_views(prev).push(h@));
                    assert(self.leaves().take(i + 1) =~= self.leaves().take(i as int).push(self.leaves()[i as int]));
                },
                Err(_) => {
                    proof {
                        assert(false);
                    }
                },
            }
            i = i + 1;
            assert(hash_views(out@) =~= self.leaves().take(i as int));
        }
        assert(self.leaves().take(n as int) =~= self.leaves());
        out
    }

    /// The range holding the given leaf hashes, in order.
    pub fn from_leaf_hashes(hashes: &[Hash32]) -> (r: Self)
        requires
            hashes@.len() < usize::MAX / 4,
        ensures
            r.wf(),
            r.leaves() == hash_views(hashes@),
    {
        let mut mmr = MerkleMountainRange::new();
        let mut i: usize = 0;
        while i < hashes.len()
            invariant
                mmr.wf(),
                0 <= i <= hashes@.len(),
                hashes@.len() < usize::MAX / 4,
                mmr.leaves() == hash_views(hashes@.take(i as int)),
            decreases hashes@.len() - i,
        {
            mmr.append_leaf_hash(hashes[i]);
            i = i + 1;
            assert(hash_views(hashes@.take(i as int)) =~= hash_views(hashes@.take((i - 1) as int)).push(hashes@[i - 1]@));
        }
        assert(hashes@.take(i as int) =~= hashes@);
        mmr
    }

    /// Hash `data` as a leaf and append it; returns the new leaf's index.
    pub fn append_leaf(&mut self, data: &[u8]) -> (r: usize)
        requires
            old(self).wf(),
            old(self).leaves().len() < usize::MAX / 4,
        ensures
            final(self).wf(),
            final(self).leaves() == old(self).leaves().push(leaf_hash_of(data@)),
            r == old(self).leaves().len(),
    {
        self.append_leaf_hash(hash_leaf(data))
    }

    /// Generate the inclusion proof of the leaf at `leaf_index`.
    ///
    /// Fails with `LeafIndexOutOfBounds` when there is no such leaf.
    pub fn generate_proof(&self, leaf_index: usize) -> (r: Result<MmrProof, MmrError>)
        requires
            self.wf(),
        ensures
            leaf_index >= self.leaves().len() ==> r == Err::<MmrProof, MmrError>(
                MmrError::LeafIndexOutOfBounds { index: leaf_index, count: self.leaves().len() as usize },
            ),
            leaf_index < self.leaves().len() ==> r is Ok && ({
                let p = r->Ok_0;
                (p.leaf_index as nat, p.leaf_count as nat, hash_views(p.siblings@), hash_views(p.peaks@))
                    == proof_fields(self.leaves(), leaf_index as nat)
            }),
    {
        if leaf_index >= self.leaf_positions.len() {
            return Err(MmrError::LeafIndexOutOfBounds { index: leaf_index, count: self.leaf_positions.len() });
        }
        let ghost lv = self.leaves@;
        let ghost sp = self.spans@;
        let ghost i = leaf_index as nat;
        let node_pos = self.leaf_positions[leaf_index];
        let mut curr = node_pos;
        let mut siblings: Vec<Hash32> = Vec::new();
        proof {
            assert(sp[node_pos as int] == (i, 0nat));
            assert(pow2(0) == 1) by {
                vstd::arithmetic::power2::lemma2_to64();
            }
            assert(hash_views(siblings@) =~= path(lv, i, 0, 0));
        }
        loop
            invariant
                self.wf(),
                lv == self.leaves@,
                sp == self.spans@,
                i == leaf_index,
                curr < self.nodes@.len(),
                sp[curr as int].0 <= i < sp[curr as int].0 + pow2(sp[curr as int].1),
                hash_views(siblings@) == path(lv, sp[curr as int].0, sp[curr as int].1, (i - sp[curr as int].0) as nat),
            ensures
                curr < self.nodes@.len(),
                self.nodes@[curr as int].parent is None,
                sp[curr as int].0 <= i < sp[curr as int].0 + pow2(sp[curr as int].1),
                hash_views(siblings@) == path(lv, sp[curr as int].0, sp[curr as int].1, (i - sp[curr as int].0) as nat),
            decreases self.nodes@.len() - curr,
        {
            let parent_idx = match self.nodes[curr].parent {
                Some(p) => p,
                None => break,
            };
            let ghost s = sp[curr as int].0;
            let ghost h = sp[curr as int].1;
            let ghost sibs0 = siblings@;
            proof {
                assert(node_ok(self.nodes@, sp, lv, self.leaf_positions@, curr as int));
                assert(node_ok(self.nodes@, sp, lv, self.leaf_positions@, parent_idx as int));
            }
            if parent_idx >= self.nodes.len() {
                return Err(corrupted("missing parent node at index ", parent_idx));
            }
            let parent = self.nodes[parent_idx];
            let ghost sp_p = sp[parent_idx as int].0;
            let ghost hp = sp[parent_idx as int].1;
            proof {
                assert(hp > 0);
                lemma_pow2_unfold(hp);
                lemma_pow2_pos((hp - 1) as nat);
            }
            if parent.left_child == Some(curr) {
                let sib_idx = match parent.right_child {
                    Some(r) => r,
                    None => return Err(corrupted("missing right child of node ", parent_idx)),
                };
                if sib_idx >= self.nodes.len() {
                    return Err(corrupted("missing sibling node at index ", sib_idx));
                }
                proof {
                    assert(node_ok(self.nodes@, sp, lv, self.leaf_positions@, sib_idx as int));
                    assert(s == sp_p && h == hp - 1);
                }
                siblings.push(self.nodes[sib_idx].hash);
                proof {
                    assert(hash_views(siblings@) =~= hash_views(sibs0).push(tree(lv, s + pow2(h), h)));
                }
            } else if parent.right_child == Some(curr) {
                let sib_idx = match parent.left_child {
                    Some(l) => l,
                    None => return Err(corrupted("missing left child of node ", parent_idx)),
                };
                if sib_idx >= self.nodes.len() {
                    return Err(corrupted("missing sibling node at index ", sib_idx));
                }
                proof {
                    assert(node_ok(self.nodes@, sp, lv, self.leaf_positions@, sib_idx as int));
                    assert(s == sp_p + pow2(h) && h == hp - 1);
                }
                siblings.push(self.nodes[sib_idx].hash);
                proof {
                    assert(hash_views(siblings@) =~= hash_views(sibs0).push(tree(lv, sp_p, h)));
                    assert((i - sp_p) as nat - pow2(h) == (i - s) as nat);
                }
            } else {
                return Err(corrupted("node does not reference its child at index ", curr));
            }
            curr = parent_idx;
        }
        let ghost hs = heights(self.leaf_positions@.len() as nat);
        proof {
            let j = choose|j: int| 0 <= j < self.peaks@.len() && self.peaks@[j] == curr;
            assert(self.peaks@[j] < self.nodes@.len());
            assert(peak_heights(sp, self.peaks@)[j] == hs[j]);
            assert(in_mountain(hs, j, i));
            lemma_mountain_of(self.leaf_positions@.len() as nat, i);
        }
        let peaks = self.peaks();
        Ok(MmrProof { leaf_index, leaf_count: self.leaf_positions.len(), siblings, peaks })
    }
}


impl Default for MerkleMountainRange {
    fn default() -> (r: Self)
        ensures
            r.wf(),
            r.leaves() == Seq::<Seq<u8>>::empty(),
    {
        MerkleMountainRange::new()
    }
}

} // verus!
