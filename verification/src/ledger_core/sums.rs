//! Sums of integer-valued functions over finite sets of keys, used to state
//! the ledger's conservation laws.

use vstd::prelude::*;

verus! {

/// The sum of `f` over the finite set `s`.
pub open spec fn set_sum(s: Set<u128>, f: spec_fn(u128) -> int) -> int
    decreases s.len(),
{
    if !s.finite() || s.len() == 0 {
        0
    } else {
        let k = s.choose();
        proof {
            lemma_nonempty_choose(s);
        }
        f(k) + set_sum(s.remove(k), f)
    }
}

/// The sum of `f` over a sequence of keys.
pub open spec fn seq_sum(keys: Seq<u128>, f: spec_fn(u128) -> int) -> int
    decreases keys.len(),
{
    if keys.len() == 0 {
        0
    } else {
        seq_sum(keys.drop_last(), f) + f(keys.last())
    }
}

/// A finite set with at least one element contains the element `choose` picks,
/// and losing it shrinks the set by one.
pub proof fn lemma_nonempty_choose(s: Set<u128>)
    requires
        s.finite(),
        s.len() > 0,
    ensures
        s.contains(s.choose()),
        s.remove(s.choose()).len() == s.len() - 1,
{
    if !s.contains(s.choose()) {
        assert(s =~= Set::<u128>::empty()) by {
            assert forall|x: u128| !s.contains(x) by {
                if s.contains(x) {
                    assert(s.contains(s.choose()));
                }
            }
        }
        assert(false);
    }
}

/// Taking one element out of a set takes its term out of the sum.
pub proof fn lemma_set_sum_remove(s: Set<u128>, k: u128, f: spec_fn(u128) -> int)
    requires
        s.finite(),
        s.contains(k),
    ensures
        set_sum(s, f) == f(k) + set_sum(s.remove(k), f),
    decreases s.len(),
{
    vstd::set_lib::lemma_set_empty_equivalency_len(s);
    assert(s.len() > 0);
    lemma_nonempty_choose(s);
    let c = s.choose();
    if c != k {
        lemma_set_sum_remove(s.remove(c), k, f);
        lemma_set_sum_remove(s.remove(k), c, f);
        assert(s.remove(c).remove(k) =~= s.remove(k).remove(c));
    }
}

/// Adding a new element adds its term to the sum.
pub proof fn lemma_set_sum_insert(s: Set<u128>, k: u128, f: spec_fn(u128) -> int)
    requires
        s.finite(),
        !s.contains(k),
    ensures
        set_sum(s.insert(k), f) == f(k) + set_sum(s, f),
{
    lemma_set_sum_remove(s.insert(k), k, f);
    assert(s.insert(k).remove(k) =~= s);
}

/// Functions that agree on a set have the same sum over it.
pub proof fn lemma_set_sum_congr(s: Set<u128>, f: spec_fn(u128) -> int, g: spec_fn(u128) -> int)
    requires
        s.finite(),
        forall|x: u128| s.contains(x) ==> f(x) == g(x),
    ensures
        set_sum(s, f) == set_sum(s, g),
    decreases s.len(),
{
    if s.len() > 0 {
        lemma_nonempty_choose(s);
        let c = s.choose();
        lemma_set_sum_congr(s.remove(c), f, g);
    }
}

/// Changing the term of one element changes the sum by the difference.
pub proof fn lemma_set_sum_update(s: Set<u128>, k: u128, f: spec_fn(u128) -> int, g: spec_fn(u128) -> int)
    requires
        s.finite(),
        s.contains(k),
        forall|x: u128| s.contains(x) && x != k ==> f(x) == g(x),
    ensures
        set_sum(s, g) == set_sum(s, f) - f(k) + g(k),
{
    lemma_set_sum_remove(s, k, f);
    lemma_set_sum_remove(s, k, g);
    lemma_set_sum_congr(s.remove(k), f, g);
}

/// Adding a new element whose function agrees elsewhere adds its term.
pub proof fn lemma_set_sum_insert_new(s: Set<u128>, k: u128, f: spec_fn(u128) -> int, g: spec_fn(u128) -> int)
    requires
        s.finite(),
        !s.contains(k),
        forall|x: u128| s.contains(x) ==> f(x) == g(x),
    ensures
        set_sum(s.insert(k), g) == set_sum(s, f) + g(k),
{
    lemma_set_sum_insert(s, k, g);
    lemma_set_sum_congr(s, f, g);
}

/// A sum of non-negative terms is at least each term.
pub proof fn lemma_set_sum_ge_term(s: Set<u128>, k: u128, f: spec_fn(u128) -> int)
    requires
        s.finite(),
        s.contains(k),
        forall|x: u128| s.contains(x) ==> f(x) >= 0,
    ensures
        set_sum(s, f) >= f(k),
{
    lemma_set_sum_remove(s, k, f);
    lemma_set_sum_nonneg(s.remove(k), f);
}

/// A sum of non-negative terms is non-negative.
pub proof fn lemma_set_sum_nonneg(s: Set<u128>, f: spec_fn(u128) -> int)
    requires
        s.finite(),
        forall|x: u128| s.contains(x) ==> f(x) >= 0,
    ensures
        set_sum(s, f) >= 0,
    decreases s.len(),
{
    if s.len() > 0 {
        lemma_nonempty_choose(s);
        lemma_set_sum_nonneg(s.remove(s.choose()), f);
    }
}

/// Summing along a sequence of distinct keys is summing over its set of keys.
pub proof fn lemma_seq_sum_set_sum(keys: Seq<u128>, f: spec_fn(u128) -> int)
    requires
        keys.no_duplicates(),
    ensures
        seq_sum(keys, f) == set_sum(keys.to_set(), f),
        keys.to_set().finite(),
    decreases keys.len(),
{
    broadcast use vstd::seq_lib::group_seq_properties;
    if keys.len() == 0 {
        assert(keys.to_set() =~= Set::<u128>::empty());
    } else {
        let init = keys.drop_last();
        let x = keys.last();
        lemma_seq_sum_set_sum(init, f);
        assert(keys.to_set() =~= init.to_set().insert(x)) by {
            assert forall|y: u128| keys.to_set().contains(y) <==> init.to_set().insert(x).contains(y) by {
                if keys.to_set().contains(y) {
                    let i = choose|i: int| 0 <= i < keys.len() && keys[i] == y;
                    if i < keys.len() - 1 {
                        assert(init[i] == y);
                    }
                }
                if init.to_set().contains(y) {
                    let i = choose|i: int| 0 <= i < init.len() && init[i] == y;
                    assert(keys[i] == y);
                }
                if y == x {
                    assert(keys[keys.len() - 1] == y);
                }
            }
        }
        assert(!init.to_set().contains(x)) by {
            if init.to_set().contains(x) {
                let i = choose|i: int| 0 <= i < init.len() && init[i] == x;
                assert(keys[i] == keys[keys.len() - 1]);
            }
        }
        lemma_set_sum_insert(init.to_set(), x, f);
    }
}

/// A prefix sum of non-negative terms is at most the whole sum.
pub proof fn lemma_seq_sum_prefix_le(keys: Seq<u128>, n: int, f: spec_fn(u128) -> int)
    requires
        0 <= n <= keys.len(),
        forall|i: int| 0 <= i < keys.len() ==> f(#[trigger] keys[i]) >= 0,
    ensures
        seq_sum(keys.take(n), f) <= seq_sum(keys, f),
    decreases keys.len() - n,
{
    if n < keys.len() {
        lemma_seq_sum_prefix_le(keys, n + 1, f);
        assert(keys.take(n + 1).drop_last() =~= keys.take(n));
        assert(f(keys[n]) >= 0);
    } else {
        assert(keys.take(n) =~= keys);
    }
}

/// Summing one more key of a sequence.
pub proof fn lemma_seq_sum_take_step(keys: Seq<u128>, n: int, f: spec_fn(u128) -> int)
    requires
        0 <= n < keys.len(),
    ensures
        seq_sum(keys.take(n + 1), f) == seq_sum(keys.take(n), f) + f(keys[n]),
{
    assert(keys.take(n + 1).drop_last() =~= keys.take(n));
}

} // verus!
