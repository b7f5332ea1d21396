//! The fault model of the simulated cluster network: which nodes are
//! isolated and which partitions separate groups of nodes.
//!
//! The router around it holds the nodes' handles and forwards a message from
//! one node to another only when [`RouterState::can_communicate`] allows it.

use std::collections::BTreeSet;

use vstd::prelude::*;

verus! {

broadcast use vstd::std_specs::btree::group_btree_axioms;

/// Whether a message from `from` can reach `to`: neither node is isolated
/// and no partition puts them on opposite sides.
pub open spec fn spec_can_communicate(
    isolated: Set<u64>,
    partitions: Seq<(Set<u64>, Set<u64>)>,
    from: u64,
    to: u64,
) -> bool {
    &&& !isolated.contains(from)
    &&& !isolated.contains(to)
    &&& forall|i: int|
        0 <= i < partitions.len() ==> !((#[trigger] partitions[i]).0.contains(from) && partitions[i].1.contains(to))
            && !(partitions[i].1.contains(from) && partitions[i].0.contains(to))
}

/// The faults injected into the simulated network.
pub struct RouterState {
    isolated: BTreeSet<u64>,
    partitions: Vec<(BTreeSet<u64>, BTreeSet<u64>)>,
}

/// The faults as sets: the isolated nodes, and each partition's two sides.
pub struct RouterView {
    /// Nodes cut off from all traffic.
    pub isolated: Set<u64>,
    /// Active partitions: traffic between the two sides is blocked.
    pub partitions: Seq<(Set<u64>, Set<u64>)>,
}

impl View for RouterState {
    type V = RouterView;

    closed spec fn view(&self) -> RouterView {
        RouterView {
            isolated: self.isolated@,
            partitions: self.partitions@.map_values(|p: (BTreeSet<u64>, BTreeSet<u64>)| (p.0@, p.1@)),
        }
    }
}

impl RouterState {
    /// A network without faults.
    pub fn new() -> (r: Self)
        ensures
            r@.isolated == Set::<u64>::empty(),
            r@.partitions == Seq::<(Set<u64>, Set<u64>)>::empty(),
    {
        let r = RouterState { isolated: BTreeSet::new(), partitions: Vec::new() };
        assert(r@.partitions =~= Seq::<(Set<u64>, Set<u64>)>::empty());
        r
    }

    /// Whether a message from `from` can reach `to`.
    pub fn can_communicate(&self, from: u64, to: u64) -> (r: bool)
        ensures
            r == spec_can_communicate(self@.isolated, self@.partitions, from, to),
    {
        if self.isolated.contains(&from) || self.isolated.contains(&to) {
            return false;
        }
        let mut i: usize = 0;
        while i < self.partitions.len()
            invariant
                i <= self.partitions@.len(),
                !self@.isolated.contains(from) && !self@.isolated.contains(to),
                forall|j: int|
                    0 <= j < i ==> !((#[trigger] self@.partitions[j]).0.contains(from) && self@.partitions[j].1.contains(to))
                        && !(self@.partitions[j].1.contains(from) && self@.partitions[j].0.contains(to)),
            decreases self.partitions@.len() - i,
        {
            let (set_a, set_b) = &self.partitions[i];
            if (set_a.contains(&from) && set_b.contains(&to)) || (set_b.contains(&from) && set_a.contains(&to)) {
                assert(self@.partitions[i as int] == (set_a@, set_b@));
                return false;
            }
            assert(self@.partitions[i as int] == (set_a@, set_b@));
            i += 1;
        }
        true
    }

    /// Isolate a node from all traffic.
    pub fn isolate(&mut self, node_id: u64)
        ensures
            final(self)@.isolated == old(self)@.isolated.insert(node_id),
            final(self)@.partitions == old(self)@.partitions,
    {
        self.isolated.insert(node_id);
    }

    /// Reconnect a previously isolated node.
    pub fn unisolate(&mut self, node_id: u64)
        ensures
            final(self)@.isolated == old(self)@.isolated.remove(node_id),
            final(self)@.partitions == old(self)@.partitions,
    {
        self.isolated.remove(&node_id);
    }

    /// Block traffic between two sets of nodes.
    pub fn partition(&mut self, set_a: BTreeSet<u64>, set_b: BTreeSet<u64>)
        ensures
            final(self)@.isolated == old(self)@.isolated,
            final(self)@.partitions == old(self)@.partitions.push((set_a@, set_b@)),
    {
        self.partitions.push((set_a, set_b));
        assert(self@.partitions =~= old(self)@.partitions.push((set_a@, set_b@)));
    }

    /// Heal every partition and isolation.
    pub fn heal(&mut self)
        ensures
            final(self)@.isolated == Set::<u64>::empty(),
            final(self)@.partitions == Seq::<(Set<u64>, Set<u64>)>::empty(),
    {
        self.isolated.clear();
        self.partitions.clear();
        assert(self@.partitions =~= Seq::<(Set<u64>, Set<u64>)>::empty());
    }
}

/// After healing, every node can reach every other.
pub proof fn law_healed_network_connects(from: u64, to: u64)
    ensures
        spec_can_communicate(Set::empty(), Seq::empty(), from, to),
{
}

/// An isolated node can neither send nor receive.
pub proof fn law_isolated_node_is_cut_off(
    isolated: Set<u64>,
    partitions: Seq<(Set<u64>, Set<u64>)>,
    node: u64,
    other: u64,
)
    ensures
        !spec_can_communicate(isolated.insert(node), partitions, node, other),
        !spec_can_communicate(isolated.insert(node), partitions, other, node),
{
}

/// A partition blocks traffic across it in both directions, whatever else
/// holds.
pub proof fn law_partition_blocks_across(
    isolated: Set<u64>,
    partitions: Seq<(Set<u64>, Set<u64>)>,
    set_a: Set<u64>,
    set_b: Set<u64>,
    from: u64,
    to: u64,
)
    requires
        set_a.contains(from),
        set_b.contains(to),
    ensures
        !spec_can_communicate(isolated, partitions.push((set_a, set_b)), from, to),
        !spec_can_communicate(isolated, partitions.push((set_a, set_b)), to, from),
{
    let ps = partitions.push((set_a, set_b));
    assert(ps[partitions.len() as int] == (set_a, set_b));
}

} // verus!
