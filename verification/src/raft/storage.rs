//! The replicated log kept in memory: entries by index, the vote, the
//! committed position and the last purged position.

use std::collections::BTreeMap;

use vstd::prelude::*;

use crate::raft::log::{LogEntry, LogPosition, Vote};

verus! {

broadcast use vstd::std_specs::btree::group_btree_axioms;

/// One end of a range of log indices.
#[derive(Copy, Clone, Debug, PartialEq, Eq, Structural)]
pub enum IndexBound {
    /// No bound on this side.
    Unbounded,
    /// The bound itself belongs to the range.
    Included(u64),
    /// The bound itself does not belong to the range.
    Excluded(u64),
}

/// Whether `k` lies between the bounds `start` and `end`.
pub open spec fn in_range(start: IndexBound, end: IndexBound, k: u64) -> bool {
    &&& match start {
        IndexBound::Unbounded => true,
        IndexBound::Included(s) => s <= k,
        IndexBound::Excluded(s) => s < k,
    }
    &&& match end {
        IndexBound::Unbounded => true,
        IndexBound::Included(e) => k <= e,
        IndexBound::Excluded(e) => k < e,
    }
}

fn index_in_range(start: IndexBound, end: IndexBound, k: u64) -> (r: bool)
    ensures
        r == in_range(start, end, k),
{
    let above = match start {
        IndexBound::Unbounded => true,
        IndexBound::Included(s) => s <= k,
        IndexBound::Excluded(s) => s < k,
    };
    let below = match end {
        IndexBound::Unbounded => true,
        IndexBound::Included(e) => k <= e,
        IndexBound::Excluded(e) => k < e,
    };
    above && below
}

/// Every entry is stored under its own index.
pub open spec fn keyed_by_index<P>(m: Map<u64, LogEntry<P>>) -> bool {
    forall|k: u64| #[trigger] m.contains_key(k) ==> m[k].log_id.index == k
}

/// `k` is the highest index present in `m`.
pub open spec fn is_last_index<P>(m: Map<u64, LogEntry<P>>, k: u64) -> bool {
    &&& m.contains_key(k)
    &&& forall|j: u64| #[trigger] m.contains_key(j) ==> j <= k
}

/// The entries `m` holds after storing each entry of `s` in turn under its
/// index, a later entry replacing an earlier one at the same index.
pub open spec fn with_entries<P>(m: Map<u64, LogEntry<P>>, s: Seq<LogEntry<P>>) -> Map<u64, LogEntry<P>>
    decreases s.len(),
{
    if s.len() == 0 {
        m
    } else {
        with_entries(m, s.drop_last()).insert(s.last().log_id.index, s.last())
    }
}

/// What the store reports of its extent: the last purged position, and the
/// position of the last entry (the last purged one when no entry is left).
#[derive(Copy, Clone, Debug, PartialEq, Eq, Structural)]
pub struct LogState {
    /// Position of the last purged entry, if any.
    pub last_purged_log_id: Option<LogPosition>,
    /// Position of the last entry in the log, if any.
    pub last_log_id: Option<LogPosition>,
}

/// The replicated log of one node, kept in memory.
#[derive(Debug)]
pub struct MemLogStore<P> {
    vote: Option<Vote>,
    committed: Option<LogPosition>,
    last_purged_log_id: Option<LogPosition>,
    entries: BTreeMap<u64, LogEntry<P>>,
}

/// What a log store holds.
pub struct MemLogStoreView<P> {
    /// The last vote saved.
    pub vote: Option<Vote>,
    /// The last committed position saved.
    pub committed: Option<LogPosition>,
    /// Position of the last purged entry.
    pub last_purged_log_id: Option<LogPosition>,
    /// Entries by index.
    pub entries: Map<u64, LogEntry<P>>,
}

impl<P> View for MemLogStore<P> {
    type V = MemLogStoreView<P>;

    closed spec fn view(&self) -> MemLogStoreView<P> {
        MemLogStoreView {
            vote: self.vote,
            committed: self.committed,
            last_purged_log_id: self.last_purged_log_id,
            entries: self.entries@,
        }
    }
}

/// An index sequence that a map walk yields in increasing order is sorted.
proof fn lemma_increasing_indices(keys: Seq<u64>)
    requires
        vstd::std_specs::btree::increasing_seq(keys),
    ensures
        forall|i: int, j: int| 0 <= i < j < keys.len() ==> keys[i] < keys[j],
{
    broadcast use vstd::laws_cmp::group_laws_cmp;

    assert(vstd::laws_cmp::obeys_cmp::<u64>());
    assert forall|i: int, j: int| 0 <= i < j < keys.len() implies keys[i] < keys[j] by {
        assert(vstd::std_specs::cmp::OrdSpec::cmp_spec(&keys[i], &keys[j]) is Less);
    }
}

impl<P> MemLogStore<P> {
    /// Every entry is stored under its own index.
    pub closed spec fn wf(&self) -> bool {
        keyed_by_index(self.entries@)
    }

    /// An empty log with no vote and nothing committed or purged.
    pub fn new() -> (r: Self)
        ensures
            r.wf(),
            r@.vote == None::<Vote>,
            r@.committed == None::<LogPosition>,
            r@.last_purged_log_id == None::<LogPosition>,
            r@.entries == Map::<u64, LogEntry<P>>::empty(),
    {
        MemLogStore { vote: None, committed: None, last_purged_log_id: None, entries: BTreeMap::new() }
    }

    /// The indices present that lie in the range, in increasing order.
    fn indices_in_range(&self, start: IndexBound, end: IndexBound) -> (r: Vec<u64>)
        requires
            self.wf(),
        ensures
            forall|i: int, j: int| 0 <= i < j < r@.len() ==> r@[i] < r@[j],
            forall|i: int|
                0 <= i < r@.len() ==> #[trigger] self@.entries.contains_key(r@[i]) && in_range(start, end, r@[i]),
            forall|k: u64| #[trigger]
                self@.entries.contains_key(k) && in_range(start, end, k) ==> r@.contains(k),
    {
        let values = self.entries.values();
        let ghost keys = choose|keys: Seq<u64>|
            {
                &&& vstd::std_specs::btree::increasing_seq(keys)
                &&& keys.to_set() == self.entries@.dom()
                &&& keys.no_duplicates()
                &&& vstd::std_specs::iter::IteratorSpec::remaining(&values) == keys.map(
                    |i: int, k: u64| &self.entries@[k],
                )
            };
        proof {
            lemma_increasing_indices(keys);
        }
        let mut out: Vec<u64> = Vec::new();
        let ghost mut taken: Seq<int> = Seq::empty();
        for e in it: values
            invariant
                self.wf(),
                it.seq() == keys.map(|i: int, k: u64| &self.entries@[k]),
                keys.to_set() == self.entries@.dom(),
                forall|i: int, j: int| 0 <= i < j < keys.len() ==> keys[i] < keys[j],
                out@.len() == taken.len(),
                forall|t: int| 0 <= t < taken.len() ==> 0 <= #[trigger] taken[t] < it.index(),
                forall|t: int| 0 <= t < taken.len() ==> out@[t] == keys[#[trigger] taken[t]],
                forall|s: int, t: int| 0 <= s < t < taken.len() ==> taken[s] < taken[t],
                forall|j: int|
                    0 <= j < it.index() && in_range(start, end, #[trigger] keys[j]) ==> taken.contains(j),
                forall|t: int| 0 <= t < taken.len() ==> in_range(start, end, keys[#[trigger] taken[t]]),
        {
            let ghost j = it.index();
            proof {
                assert(keys.to_set().contains(keys[j]));
                assert(self.entries@.contains_key(keys[j]));
                assert(*e == self.entries@[keys[j]]);
            }
            let k = e.log_id.index;
            let ghost before = taken;
            if index_in_range(start, end, k) {
                out.push(k);
                proof {
                    taken = taken.push(j);
                    assert(taken[taken.len() - 1] == j);
                    assert forall|x: int| before.contains(x) implies taken.contains(x) by {
                        let t = choose|t: int| 0 <= t < before.len() && before[t] == x;
                        assert(taken[t] == x);
                    }
                }
            }
        }
        proof {
            assert forall|i: int, j: int| 0 <= i < j < out@.len() implies out@[i] < out@[j] by {
                assert(taken[i] < taken[j]);
            }
            assert forall|i: int| 0 <= i < out@.len() implies #[trigger] self@.entries.contains_key(out@[i])
                && in_range(start, end, out@[i]) by {
                assert(keys.to_set().contains(keys[taken[i]]));
            }
            assert forall|k: u64| #[trigger]
                self@.entries.contains_key(k) && in_range(start, end, k) implies out@.contains(k) by {
                assert(keys.to_set().contains(k));
                let j = choose|j: int| 0 <= j < keys.len() && keys[j] == k;
                assert(taken.contains(j));
                let t = choose|t: int| 0 <= t < taken.len() && taken[t] == j;
                assert(out@[t] == k);
            }
        }
        out
    }

    /// Drop the entries at the given indices.
    fn remove_indices(&mut self, doomed: &Vec<u64>)
        requires
            old(self).wf(),
        ensures
            final(self).wf(),
            final(self)@.vote == old(self)@.vote,
            final(self)@.committed == old(self)@.committed,
            final(self)@.last_purged_log_id == old(self)@.last_purged_log_id,
            final(self)@.entries == old(self)@.entries.remove_keys(doomed@.to_set()),
    {
        let ghost start = self@.entries;
        let mut i: usize = 0;
        while i < doomed.len()
            invariant
                0 <= i <= doomed@.len(),
                self.wf(),
                self@.vote == old(self)@.vote,
                self@.committed == old(self)@.committed,
                self@.last_purged_log_id == old(self)@.last_purged_log_id,
                self@.entries == start.remove_keys(doomed@.take(i as int).to_set()),
            decreases doomed@.len() - i,
        {
            self.entries.remove(&doomed[i]);
            proof {
                let pre = doomed@.take(i as int);
                let post = doomed@.take(i + 1);
                assert(post == pre.push(doomed@[i as int]));
                assert forall|x: u64| post.to_set().contains(x) <==> pre.to_set().insert(doomed@[i as int]).contains(x) by {
                    if post.contains(x) && x != doomed@[i as int] {
                        let t = choose|t: int| 0 <= t < post.len() && post[t] == x;
                        assert(pre[t] == x);
                    }
                    if pre.contains(x) {
                        let t = choose|t: int| 0 <= t < pre.len() && pre[t] == x;
                        assert(post[t] == x);
                    }
                    if x == doomed@[i as int] {
                        assert(post[i as int] == x);
                    }
                }
                assert(post.to_set() =~= pre.to_set().insert(doomed@[i as int]));
            }
            i = i + 1;
            assert(self@.entries =~= start.remove_keys(doomed@.take(i as int).to_set()));
        }
        assert(doomed@.take(i as int) == doomed@);
    }

    /// Where the log begins and ends: the last purged position, and the
    /// position of the entry with the highest index, or the last purged
    /// position when no entry is left.
    pub fn get_log_state(&self) -> (r: LogState)
        requires
            self.wf(),
        ensures
            r.last_purged_log_id == self@.last_purged_log_id,
            self@.entries.dom().is_empty() ==> r.last_log_id == self@.last_purged_log_id,
            !self@.entries.dom().is_empty() ==> exists|k: u64|
                is_last_index(self@.entries, k) && r.last_log_id == Some(self@.entries[k].log_id),
    {
        let all = self.indices_in_range(IndexBound::Unbounded, IndexBound::Unbounded);
        if all.len() == 0 {
            proof {
                assert(self@.entries.dom() =~= Set::<u64>::empty()) by {
                    assert forall|k: u64| !self@.entries.dom().contains(k) by {
                        if self@.entries.contains_key(k) {
                            assert(all@.contains(k));
                        }
                    }
                }
            }
            LogState { last_purged_log_id: self.last_purged_log_id, last_log_id: self.last_purged_log_id }
        } else {
            let last = all[all.len() - 1];
            let ghost n = all@.len() - 1;
            proof {
                assert(self@.entries.contains_key(all@[n]));
                assert forall|j: u64| #[trigger] self@.entries.contains_key(j) implies j <= last by {
                    assert(all@.contains(j));
                    let t = choose|t: int| 0 <= t < all@.len() && all@[t] == j;
                    if t < n {
                        assert(all@[t] < all@[n]);
                    }
                }
                assert(is_last_index(self@.entries, last));
                assert(!self@.entries.dom().is_empty());
            }
            match self.entries.get(&last) {
                Some(e) => LogState { last_purged_log_id: self.last_purged_log_id, last_log_id: Some(e.log_id) },
                None => {
                    proof {
                        assert(false);
                    }
                    LogState { last_purged_log_id: self.last_purged_log_id, last_log_id: None }
                },
            }
        }
    }

    /// Record the vote this node cast.
    pub fn save_vote(&mut self, vote: Vote)
        requires
            old(self).wf(),
        ensures
            final(self).wf(),
            final(self)@ == (MemLogStoreView { vote: Some(vote), ..old(self)@ }),
    {
        self.vote = Some(vote);
    }

    /// The last vote recorded.
    pub fn read_vote(&self) -> (r: Option<Vote>)
        ensures
            r == self@.vote,
    {
        self.vote
    }

    /// Record the committed position.
    pub fn save_committed(&mut self, committed: Option<LogPosition>)
        requires
            old(self).wf(),
        ensures
            final(self).wf(),
            final(self)@ == (MemLogStoreView { committed, ..old(self)@ }),
    {
        self.committed = committed;
    }

    /// The committed position recorded last.
    pub fn read_committed(&self) -> (r: Option<LogPosition>)
        ensures
            r == self@.committed,
    {
        self.committed
    }

    /// Store the entries under their indices, in order; an entry replaces
    /// one already stored at its index.
    pub fn append(&mut self, entries: Vec<LogEntry<P>>)
        requires
            old(self).wf(),
        ensures
            final(self).wf(),
            final(self)@ == (MemLogStoreView { entries: with_entries(old(self)@.entries, entries@), ..old(self)@ }),
    {
        let ghost all = entries@;
        let ghost start = self@.entries;
        for e in it: entries
            invariant
                self.wf(),
                it.seq() == all,
                self@.vote == old(self)@.vote,
                self@.committed == old(self)@.committed,
                self@.last_purged_log_id == old(self)@.last_purged_log_id,
                self@.entries == with_entries(start, all.take(it.index() as int)),
        {
            let ghost j = it.index() as int;
            proof {
                assert(all.take(j + 1).drop_last() == all.take(j));
                assert(all.take(j + 1).last() == all[j]);
            }
            self.entries.insert(e.log_id.index, e);
        }
        proof {
            assert(all.take(all.len() as int) == all);
        }
    }

    /// Drop every entry at or after the index of `log_id`.
    pub fn truncate(&mut self, log_id: LogPosition)
        requires
            old(self).wf(),
        ensures
            final(self).wf(),
            final(self)@ == (MemLogStoreView {
                entries: old(self)@.entries.restrict(Set::new(|k: u64| k < log_id.index)),
                ..old(self)@
            }),
    {
        let doomed = self.indices_in_range(IndexBound::Included(log_id.index), IndexBound::Unbounded);
        let ghost start = self@.entries;
        self.remove_indices(&doomed);
        proof {
            assert forall|k: u64| #[trigger] start.contains_key(k) implies (doomed@.to_set().contains(k) <==> k
                >= log_id.index) by {
                if k >= log_id.index {
                    assert(doomed@.contains(k));
                }
                if doomed@.to_set().contains(k) {
                    let t = choose|t: int| 0 <= t < doomed@.len() && doomed@[t] == k;
                    assert(in_range(IndexBound::Included(log_id.index), IndexBound::Unbounded, doomed@[t]));
                }
            }
            assert(self@.entries =~= start.restrict(Set::new(|k: u64| k < log_id.index)));
        }
    }

    /// Drop every entry up to and including the index of `log_id`, and
    /// record `log_id` as the last purged position.
    pub fn purge(&mut self, log_id: LogPosition)
        requires
            old(self).wf(),
        ensures
            final(self).wf(),
            final(self)@ == (MemLogStoreView {
                last_purged_log_id: Some(log_id),
                entries: old(self)@.entries.restrict(Set::new(|k: u64| k > log_id.index)),
                ..old(self)@
            }),
    {
        self.last_purged_log_id = Some(log_id);
        let doomed = self.indices_in_range(IndexBound::Unbounded, IndexBound::Included(log_id.index));
        let ghost start = self@.entries;
        self.remove_indices(&doomed);
        proof {
            assert forall|k: u64| #[trigger] start.contains_key(k) implies (doomed@.to_set().contains(k) <==> k
                <= log_id.index) by {
                if k <= log_id.index {
                    assert(doomed@.contains(k));
                }
                if doomed@.to_set().contains(k) {
                    let t = choose|t: int| 0 <= t < doomed@.len() && doomed@[t] == k;
                    assert(in_range(IndexBound::Unbounded, IndexBound::Included(log_id.index), doomed@[t]));
                }
            }
            assert(self@.entries =~= start.restrict(Set::new(|k: u64| k > log_id.index)));
        }
    }
}

impl<P> Default for MemLogStore<P> {
    fn default() -> (r: Self)
        ensures
            r.wf(),
            r@.vote == None::<Vote>,
            r@.committed == None::<LogPosition>,
            r@.last_purged_log_id == None::<LogPosition>,
            r@.entries == Map::<u64, LogEntry<P>>::empty(),
    {
        MemLogStore::new()
    }
}

/// Entries appended with increasing indices are each stored under their
/// index; an index that none of them has keeps what it held.
pub proof fn law_appended_entries_are_kept<P>(m: Map<u64, LogEntry<P>>, s: Seq<LogEntry<P>>)
    requires
        forall|i: int, j: int| 0 <= i < j < s.len() ==> s[i].log_id.index < s[j].log_id.index,
    ensures
        forall|i: int|
            0 <= i < s.len() ==> #[trigger] with_entries(m, s).contains_key(s[i].log_id.index)
                && with_entries(m, s)[s[i].log_id.index] == s[i],
        forall|k: u64|
            #[trigger] with_entries(m, s).contains_key(k) <==> (m.contains_key(k) || exists|i: int|
                0 <= i < s.len() && s[i].log_id.index == k),
        forall|k: u64|
            m.contains_key(k) && (forall|i: int| 0 <= i < s.len() ==> s[i].log_id.index != k) ==> #[trigger] with_entries(
                m,
                s,
            )[k] == m[k],
    decreases s.len(),
{
    if s.len() > 0 {
        let p = s.drop_last();
        law_appended_entries_are_kept(m, p);
        let last = s.last();
        let w = with_entries(m, p);
        assert(with_entries(m, s) == w.insert(last.log_id.index, last));
        assert forall|i: int| 0 <= i < s.len() implies #[trigger] with_entries(m, s).contains_key(s[i].log_id.index)
            && with_entries(m, s)[s[i].log_id.index] == s[i] by {
            if i < s.len() - 1 {
                assert(p[i] == s[i]);
                assert(s[i].log_id.index < last.log_id.index);
                assert(w.contains_key(p[i].log_id.index));
            }
        }
        assert forall|k: u64| #[trigger] with_entries(m, s).contains_key(k) <==> (m.contains_key(k) || exists|i: int|
            0 <= i < s.len() && s[i].log_id.index == k) by {
            if exists|i: int| 0 <= i < s.len() && s[i].log_id.index == k {
                let i = choose|i: int| 0 <= i < s.len() && s[i].log_id.index == k;
                if i < s.len() - 1 {
                    assert(p[i] == s[i]);
                }
            }
            if exists|i: int| 0 <= i < p.len() && p[i].log_id.index == k {
                let i = choose|i: int| 0 <= i < p.len() && p[i].log_id.index == k;
                assert(s[i] == p[i]);
            }
        }
        assert forall|k: u64|
            m.contains_key(k) && (forall|i: int| 0 <= i < s.len() ==> s[i].log_id.index != k) implies #[trigger] with_entries(
            m,
            s,
        )[k] == m[k] by {
            assert forall|i: int| 0 <= i < p.len() implies p[i].log_id.index != k by {
                assert(p[i] == s[i]);
            }
            assert(s[s.len() - 1].log_id.index != k);
        }
    }
}

impl<P: Clone> MemLogStore<P> {
    /// Copies of the entries whose indices lie in the range, in increasing
    /// order of index.
    pub fn entries_in_range(&self, start: IndexBound, end: IndexBound) -> (r: Vec<LogEntry<P>>)
        requires
            self.wf(),
        ensures
            forall|i: int, j: int| 0 <= i < j < r@.len() ==> r@[i].log_id.index < r@[j].log_id.index,
            forall|i: int|
                0 <= i < r@.len() ==> {
                    let k = #[trigger] r@[i].log_id.index;
                    &&& self@.entries.contains_key(k)
                    &&& in_range(start, end, k)
                    &&& r@[i].log_id == self@.entries[k].log_id
                    &&& cloned(self@.entries[k].payload, r@[i].payload)
                },
            forall|k: u64| #[trigger]
                self@.entries.contains_key(k) && in_range(start, end, k) ==> exists|i: int|
                    0 <= i < r@.len() && r@[i].log_id.index == k,
    {
        let idx = self.indices_in_range(start, end);
        let mut out: Vec<LogEntry<P>> = Vec::new();
        let mut i: usize = 0;
        while i < idx.len()
            invariant
                self.wf(),
                0 <= i <= idx@.len(),
                out@.len() == i,
                forall|s: int, t: int| 0 <= s < t < idx@.len() ==> idx@[s] < idx@[t],
                forall|t: int|
                    0 <= t < idx@.len() ==> #[trigger] self@.entries.contains_key(idx@[t]) && in_range(start, end, idx@[t]),
                forall|t: int|
                    0 <= t < i ==> {
                        &&& (#[trigger] out@[t]).log_id == self@.entries[idx@[t]].log_id
                        &&& out@[t].log_id.index == idx@[t]
                        &&& cloned(self@.entries[idx@[t]].payload, out@[t].payload)
                    },
            decreases idx@.len() - i,
        {
            let k = idx[i];
            proof {
                assert(self@.entries.contains_key(idx@[i as int]));
            }
            match self.entries.get(&k) {
                Some(e) => {
                    out.push(e.clone());
                },
                None => {
                    proof {
                        assert(false);
                    }
                },
            }
            i = i + 1;
        }
        proof {
            assert forall|k: u64| #[trigger]
                self@.entries.contains_key(k) && in_range(start, end, k) implies exists|i: int|
                0 <= i < out@.len() && out@[i].log_id.index == k by {
                assert(idx@.contains(k));
                let t = choose|t: int| 0 <= t < idx@.len() && idx@[t] == k;
                assert(out@[t].log_id.index == k);
            }
        }
        out
    }
}

} // verus!
