//! Idempotency keys for financial write endpoints.

use vstd::prelude::*;

use crate::demo::error::IdempotencyError;

verus! {

/// Status of an operation associated with an idempotency key.
#[derive(Clone, Debug, PartialEq, Eq)]
enum IdempotencyStatus {
    /// Operation is currently being processed by another task.
    InProgress,
    /// Operation succeeded; holds serialized response JSON.
    Completed(String),
}

/// What a status stands for: `None` while in flight, the stored response
/// once completed.
spec fn status_view(s: IdempotencyStatus) -> Option<Seq<char>> {
    match s {
        IdempotencyStatus::InProgress => None,
        IdempotencyStatus::Completed(json) => Some(json@),
    }
}

/// The outcome of trying to start an operation under a key.
pub enum Acquire {
    /// The key was new; it is now marked in flight.
    Fresh,
    /// The key completed before with this response.
    Replay(Seq<char>),
    /// An operation under the key is in flight.
    InFlight,
}

/// Trying to start an operation under `key` in a store holding `m`: the
/// outcome and the store afterwards.
pub open spec fn spec_acquire(m: Map<Seq<char>, Option<Seq<char>>>, key: Seq<char>) -> (
    Acquire,
    Map<Seq<char>, Option<Seq<char>>>,
) {
    if !m.contains_key(key) {
        (Acquire::Fresh, m.insert(key, None))
    } else {
        match m[key] {
            None => (Acquire::InFlight, m),
            Some(json) => (Acquire::Replay(json), m),
        }
    }
}

/// Recording the response of a completed operation.
pub open spec fn spec_complete(
    m: Map<Seq<char>, Option<Seq<char>>>,
    key: Seq<char>,
    response: Seq<char>,
) -> Map<Seq<char>, Option<Seq<char>>> {
    m.insert(key, Some(response))
}

/// Freeing a key whose operation failed; a completed key keeps its response.
pub open spec fn spec_release(m: Map<Seq<char>, Option<Seq<char>>>, key: Seq<char>) -> Map<Seq<char>, Option<Seq<char>>> {
    if m.contains_key(key) && m[key] is None {
        m.remove(key)
    } else {
        m
    }
}

/// An in-memory idempotency coordinator.
///
/// Duplicate requests get the original response back without re-executing
/// their mutations, and requests under a key that is in flight are rejected.
#[derive(Debug)]
pub struct IdempotencyStore {
    entries: Vec<(String, IdempotencyStatus)>,
}

impl View for IdempotencyStore {
    type V = Map<Seq<char>, Option<Seq<char>>>;

    /// Each key maps to `None` while its operation is in flight and to the
    /// stored response once it completed.
    closed spec fn view(&self) -> Map<Seq<char>, Option<Seq<char>>> {
        Map::new(
            |k: Seq<char>| exists|i: int| 0 <= i < self.entries@.len() && #[trigger] self.entries@[i].0@ == k,
            |k: Seq<char>|
                status_view(
                    self.entries@[choose|i: int| 0 <= i < self.entries@.len() && #[trigger] self.entries@[i].0@ == k].1,
                ),
        )
    }
}

impl Default for IdempotencyStore {
    fn default() -> (r: Self)
        ensures
            r.wf(),
            r@ == Map::<Seq<char>, Option<Seq<char>>>::empty(),
    {
        Self::new()
    }
}

impl IdempotencyStore {
    /// No key is stored twice.
    pub closed spec fn wf(&self) -> bool {
        forall|i: int, j: int|
            0 <= i < j < self.entries@.len() ==> #[trigger] self.entries@[i].0@ != #[trigger] self.entries@[j].0@
    }

    /// Create a new, empty idempotency store.
    pub fn new() -> (r: Self)
        ensures
            r.wf(),
            r@ == Map::<Seq<char>, Option<Seq<char>>>::empty(),
    {
        let r = IdempotencyStore { entries: Vec::new() };
        assert(r@ =~= Map::<Seq<char>, Option<Seq<char>>>::empty());
        r
    }

    /// The position of `key`, if it is stored.
    fn find(&self, key: &str) -> (r: Option<usize>)
        requires
            self.wf(),
        ensures
            match r {
                Some(i) => i < self.entries@.len() && self.entries@[i as int].0@ == key@ && self@.contains_key(key@)
                    && self@[key@] == status_view(self.entries@[i as int].1),
                None => !self@.contains_key(key@),
            },
    {
        let wanted = key.to_owned();
        let mut i: usize = 0;
        while i < self.entries.len()
            invariant
                i <= self.entries@.len(),
                wanted@ == key@,
                self.wf(),
                forall|j: int| 0 <= j < i ==> #[trigger] self.entries@[j].0@ != key@,
            decreases self.entries@.len() - i,
        {
            if self.entries[i].0 == wanted {
                let ghost k = key@;
                proof {
                    assert(self.entries@[i as int].0@ == k);
                    let c = choose|j: int| 0 <= j < self.entries@.len() && #[trigger] self.entries@[j].0@ == k;
                    assert(c == i);
                }
                return Some(i);
            }
            i += 1;
        }
        None
    }

    /// The stored entry at `i` is what the view holds for its key.
    proof fn lemma_view_entry(&self, i: int)
        requires
            self.wf(),
            0 <= i < self.entries@.len(),
        ensures
            self@.contains_key(self.entries@[i].0@),
            self@[self.entries@[i].0@] == status_view(self.entries@[i].1),
    {
        let k = self.entries@[i].0@;
        assert(self@.dom().contains(k));
        let c = choose|j: int| 0 <= j < self.entries@.len() && #[trigger] self.entries@[j].0@ == k;
        assert(c == i);
    }

    /// A key is in the view exactly when some entry stores it.
    proof fn lemma_view_keys(&self, k: Seq<char>)
        ensures
            self@.contains_key(k) <==> exists|i: int| 0 <= i < self.entries@.len() && #[trigger] self.entries@[i].0@ == k,
    {
    }

    /// Try to start processing an operation with the given idempotency key.
    ///
    /// - If the key is new: returns `Ok(None)` and marks the key as in flight.
    /// - If the key completed previously: returns `Ok(Some(cached_json))` with the stored result.
    /// - If the key is currently in flight: returns `IdempotencyError::ConcurrentRequest`.
    pub fn try_acquire(&mut self, key: &str) -> (r: Result<Option<String>, IdempotencyError>)
        requires
            old(self).wf(),
        ensures
            final(self).wf(),
            final(self)@ == spec_acquire(old(self)@, key@).1,
            match spec_acquire(old(self)@, key@).0 {
                Acquire::Fresh => r == Ok::<Option<String>, IdempotencyError>(None),
                Acquire::Replay(json) => r is Ok && r->Ok_0 is Some && r->Ok_0->Some_0@ == json,
                Acquire::InFlight => r is Err && (r->Err_0 matches IdempotencyError::ConcurrentRequest(k) && k@ == key@),
            },
    {
        match self.find(key) {
            Some(i) => match &self.entries[i].1 {
                IdempotencyStatus::InProgress => Err(IdempotencyError::ConcurrentRequest(key.to_owned())),
                IdempotencyStatus::Completed(json) => Ok(Some(json.clone())),
            },
            None => {
                let ghost old_entries = self.entries@;
                let ghost before = *self;
                self.entries.push((key.to_owned(), IdempotencyStatus::InProgress));
                proof {
                    let n = old_entries.len() as int;
                    assert forall|a: int, b: int| 0 <= a < b < self.entries@.len() implies #[trigger] self.entries@[a].0@
                        != #[trigger] self.entries@[b].0@ by {
                        if b == n {
                            before.lemma_view_keys(key@);
                            assert(old_entries[a] == self.entries@[a]);
                        } else {
                            assert(old_entries[a] == self.entries@[a]);
                            assert(old_entries[b] == self.entries@[b]);
                        }
                    }
                    let expected = before@.insert(key@, None);
                    assert forall|k: Seq<char>| #![auto] self@.contains_key(k) == expected.contains_key(k) by {
                        before.lemma_view_keys(k);
                        self.lemma_view_keys(k);
                        if self@.contains_key(k) && k != key@ {
                            let j = choose|j: int| 0 <= j < self.entries@.len() && #[trigger] self.entries@[j].0@ == k;
                            assert(j < n);
                            assert(old_entries[j] == self.entries@[j]);
                        }
                        if before@.contains_key(k) {
                            let j = choose|j: int| 0 <= j < old_entries.len() && #[trigger] old_entries[j].0@ == k;
                            assert(self.entries@[j] == old_entries[j]);
                        }
                        if k == key@ {
                            assert(self.entries@[n].0@ == k);
                        }
                    }
                    assert forall|k: Seq<char>| #![auto] self@.contains_key(k) implies self@[k] == expected[k] by {
                        self.lemma_view_keys(k);
                        let j = choose|j: int| 0 <= j < self.entries@.len() && #[trigger] self.entries@[j].0@ == k;
                        self.lemma_view_entry(j);
                        if j < n {
                            assert(old_entries[j] == self.entries@[j]);
                            before.lemma_view_entry(j);
                        }
                    }
                    assert(self@ =~= expected);
                }
                Ok(None)
            },
        }
    }

    /// Record that the operation for `key` completed successfully with the given response.
    pub fn complete(&mut self, key: &str, response_json: String)
        requires
            old(self).wf(),
        ensures
            final(self).wf(),
            final(self)@ == spec_complete(old(self)@, key@, response_json@),
    {
        let ghost before = *self;
        let ghost old_entries = self.entries@;
        let ghost json = response_json@;
        match self.find(key) {
            Some(i) => {
                self.entries.set(i, (key.to_owned(), IdempotencyStatus::Completed(response_json)));
                proof {
                    assert forall|a: int, b: int| 0 <= a < b < self.entries@.len() implies #[trigger] self.entries@[a].0@
                        != #[trigger] self.entries@[b].0@ by {
                        assert(self.entries@[a].0@ == old_entries[a].0@);
                        assert(self.entries@[b].0@ == old_entries[b].0@);
                    }
                    let expected = before@.insert(key@, Some(json));
                    assert forall|k: Seq<char>| #![auto] self@.contains_key(k) == expected.contains_key(k) by {
                        before.lemma_view_keys(k);
                        self.lemma_view_keys(k);
                        if self@.contains_key(k) {
                            let j = choose|j: int| 0 <= j < self.entries@.len() && #[trigger] self.entries@[j].0@ == k;
                            assert(old_entries[j].0@ == k);
                        }
                        if before@.contains_key(k) {
                            let j = choose|j: int| 0 <= j < old_entries.len() && #[trigger] old_entries[j].0@ == k;
                            assert(self.entries@[j].0@ == k);
                        }
                    }
                    assert forall|k: Seq<char>| #![auto] self@.contains_key(k) implies self@[k] == expected[k] by {
                        self.lemma_view_keys(k);
                        let j = choose|j: int| 0 <= j < self.entries@.len() && #[trigger] self.entries@[j].0@ == k;
                        self.lemma_view_entry(j);
                        if j != i {
                            assert(old_entries[j] == self.entries@[j]);
                            before.lemma_view_entry(j);
                        }
                    }
                    assert(self@ =~= expected);
                }
            },
            None => {
                self.entries.push((key.to_owned(), IdempotencyStatus::Completed(response_json)));
                proof {
                    let n = old_entries.len() as int;
                    assert forall|a: int, b: int| 0 <= a < b < self.entries@.len() implies #[trigger] self.entries@[a].0@
                        != #[trigger] self.entries@[b].0@ by {
                        if b == n {
                            before.lemma_view_keys(key@);
                            assert(old_entries[a] == self.entries@[a]);
                        } else {
                            assert(old_entries[a] == self.entries@[a]);
                            assert(old_entries[b] == self.entries@[b]);
                        }
                    }
                    let expected = before@.insert(key@, Some(json));
                    assert forall|k: Seq<char>| #![auto] self@.contains_key(k) == expected.contains_key(k) by {
                        before.lemma_view_keys(k);
                        self.lemma_view_keys(k);
                        if self@.contains_key(k) && k != key@ {
                            let j = choose|j: int| 0 <= j < self.entries@.len() && #[trigger] self.entries@[j].0@ == k;
                            assert(j < n);
                            assert(old_entries[j] == self.entries@[j]);
                        }
                        if before@.contains_key(k) {
                            let j = choose|j: int| 0 <= j < old_entries.len() && #[trigger] old_entries[j].0@ == k;
                            assert(self.entries@[j] == old_entries[j]);
                        }
                        if k == key@ {
                            assert(self.entries@[n].0@ == k);
                        }
                    }
                    assert forall|k: Seq<char>| #![auto] self@.contains_key(k) implies self@[k] == expected[k] by {
                        self.lemma_view_keys(k);
                        let j = choose|j: int| 0 <= j < self.entries@.len() && #[trigger] self.entries@[j].0@ == k;
                        self.lemma_view_entry(j);
                        if j < n {
                            assert(old_entries[j] == self.entries@[j]);
                            before.lemma_view_entry(j);
                        }
                    }
                    assert(self@ =~= expected);
                }
            },
        }
    }

    /// Remove an in-flight key if the operation failed so the client can
    /// retry; a completed key keeps its response.
    pub fn release_on_failure(&mut self, key: &str)
        requires
            old(self).wf(),
        ensures
            final(self).wf(),
            final(self)@ == spec_release(old(self)@, key@),
    {
        let ghost before = *self;
        let ghost old_entries = self.entries@;
        if let Some(i) = self.find(key) {
            let in_flight = match &self.entries[i].1 {
                IdempotencyStatus::InProgress => true,
                IdempotencyStatus::Completed(_) => false,
            };
            if in_flight {
                let _ = self.entries.remove(i);
                proof {
                    assert forall|a: int, b: int| 0 <= a < b < self.entries@.len() implies #[trigger] self.entries@[a].0@
                        != #[trigger] self.entries@[b].0@ by {
                        let a0 = if a < i { a } else { a + 1 };
                        let b0 = if b < i { b } else { b + 1 };
                        assert(self.entries@[a] == old_entries[a0]);
                        assert(self.entries@[b] == old_entries[b0]);
                    }
                    let expected = before@.remove(key@);
                    assert forall|k: Seq<char>| #![auto] self@.contains_key(k) == expected.contains_key(k) by {
                        before.lemma_view_keys(k);
                        self.lemma_view_keys(k);
                        if self@.contains_key(k) {
                            let j = choose|j: int| 0 <= j < self.entries@.len() && #[trigger] self.entries@[j].0@ == k;
                            let j0 = if j < i { j } else { j + 1 };
                            assert(self.entries@[j] == old_entries[j0]);
                        }
                        if before@.contains_key(k) && k != key@ {
                            let j = choose|j: int| 0 <= j < old_entries.len() && #[trigger] old_entries[j].0@ == k;
                            assert(j != i);
                            let j1 = if j < i { j } else { j - 1 };
                            assert(self.entries@[j1] == old_entries[j]);
                        }
                    }
                    assert forall|k: Seq<char>| #![auto] self@.contains_key(k) implies self@[k] == expected[k] by {
                        self.lemma_view_keys(k);
                        let j = choose|j: int| 0 <= j < self.entries@.len() && #[trigger] self.entries@[j].0@ == k;
                        self.lemma_view_entry(j);
                        let j0 = if j < i { j } else { j + 1 };
                        assert(self.entries@[j] == old_entries[j0]);
                        before.lemma_view_entry(j0);
                    }
                    assert(self@ =~= expected);
                }
            }
        }
    }
}

/// A key whose operation is in flight rejects a second request under it: a
/// fresh acquisition followed by another one is answered `InFlight`.
pub proof fn law_in_flight_key_rejects(m: Map<Seq<char>, Option<Seq<char>>>, key: Seq<char>)
    requires
        spec_acquire(m, key).0 is Fresh,
    ensures
        spec_acquire(spec_acquire(m, key).1, key).0 is InFlight,
        spec_acquire(spec_acquire(m, key).1, key).1 == spec_acquire(m, key).1,
{
}

/// A completed key replays its response and leaves the store unchanged.
pub proof fn law_completed_key_replays(m: Map<Seq<char>, Option<Seq<char>>>, key: Seq<char>, response: Seq<char>)
    ensures
        spec_acquire(spec_complete(m, key, response), key).0 == Acquire::Replay(response),
        spec_acquire(spec_complete(m, key, response), key).1 == spec_complete(m, key, response),
{
}

/// Releasing a freshly acquired key after a failure frees it again: the
/// store is as it was, and the next request under the key is fresh.
pub proof fn law_release_frees_key(m: Map<Seq<char>, Option<Seq<char>>>, key: Seq<char>)
    requires
        spec_acquire(m, key).0 is Fresh,
    ensures
        spec_release(spec_acquire(m, key).1, key) == m,
        spec_acquire(spec_release(spec_acquire(m, key).1, key), key).0 is Fresh,
{
    assert(m.insert(key, None).remove(key) =~= m);
}

/// Releasing never drops a completed response.
pub proof fn law_release_keeps_completed(m: Map<Seq<char>, Option<Seq<char>>>, key: Seq<char>)
    requires
        m.contains_key(key),
        m[key] is Some,
    ensures
        spec_release(m, key) == m,
{
}

} // verus!
