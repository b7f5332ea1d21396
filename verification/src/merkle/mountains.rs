//! The shape of a Merkle Mountain Range: which perfect trees (mountains) a
//! number of leaves forms, the hash of each tree, and inclusion paths.

use vstd::arithmetic::power2::{lemma_pow2_pos, lemma_pow2_unfold, pow2};
use vstd::prelude::*;

use crate::merkle::hash::node_hash_of;

verus! {

/// The heights of the mountains that `n` leaves form, tallest first: one
/// mountain of height `k` for each bit `k` set in `n`.
pub open spec fn heights(n: nat) -> Seq<nat>
    decreases n,
{
    if n == 0 {
        Seq::empty()
    } else {
        let upper = heights(n / 2).map_values(|h: nat| h + 1);
        if n % 2 == 1 {
            upper.push(0)
        } else {
            upper
        }
    }
}

/// Every height raised by `c`.
pub open spec fn raise(hs: Seq<nat>, c: nat) -> Seq<nat> {
    hs.map_values(|h: nat| h + c)
}

/// The number of leaves in mountains of the given heights.
pub open spec fn total(hs: Seq<nat>) -> nat
    decreases hs.len(),
{
    if hs.len() == 0 {
        0
    } else {
        total(hs.drop_last()) + pow2(hs.last())
    }
}

/// The index of the first leaf of mountain `j`.
pub open spec fn start(hs: Seq<nat>, j: int) -> nat {
    total(hs.take(j))
}

/// The number of set bits of `n`.
pub open spec fn popcount(n: nat) -> nat
    decreases n,
{
    if n == 0 {
        0
    } else {
        popcount(n / 2) + n % 2
    }
}

/// The number of binary digits of `n`.
pub open spec fn bitlen(n: nat) -> nat
    decreases n,
{
    if n == 0 {
        0
    } else {
        1 + bitlen(n / 2)
    }
}

/// Bit `h` of `x`.
pub open spec fn bit(x: nat, h: nat) -> bool {
    (x / pow2(h)) % 2 == 1
}

/// The hash of the perfect tree of height `h` over the leaves from `s` on.
pub open spec fn tree(leaves: Seq<Seq<u8>>, s: nat, h: nat) -> Seq<u8>
    decreases h,
{
    if h == 0 {
        leaves[s as int]
    } else {
        node_hash_of(tree(leaves, s, (h - 1) as nat), tree(leaves, s + pow2((h - 1) as nat), (h - 1) as nat))
    }
}

/// The hashes of the mountain peaks over `leaves`, tallest first.
pub open spec fn peak_hashes(leaves: Seq<Seq<u8>>) -> Seq<Seq<u8>> {
    let hs = heights(leaves.len());
    Seq::new(hs.len(), |j: int| tree(leaves, start(hs, j), hs[j]))
}

/// The sibling hashes from leaf `s + loc` up to the top of the tree of
/// height `h` over the leaves from `s` on, lowest first.
pub open spec fn path(leaves: Seq<Seq<u8>>, s: nat, h: nat, loc: nat) -> Seq<Seq<u8>>
    decreases h,
{
    if h == 0 {
        Seq::empty()
    } else {
        let half = pow2((h - 1) as nat);
        if loc < half {
            path(leaves, s, (h - 1) as nat, loc).push(tree(leaves, s + half, (h - 1) as nat))
        } else {
            path(leaves, s + half, (h - 1) as nat, (loc - half) as nat).push(tree(leaves, s, (h - 1) as nat))
        }
    }
}

/// Climbing from a leaf hash through sibling hashes: at height `h` the
/// sibling goes on the left when bit `h` of `loc` is set.
pub open spec fn fold_path(leaf: Seq<u8>, sibs: Seq<Seq<u8>>, loc: nat) -> Seq<u8>
    decreases sibs.len(),
{
    if sibs.len() == 0 {
        leaf
    } else {
        let cur = fold_path(leaf, sibs.drop_last(), loc);
        if bit(loc, (sibs.len() - 1) as nat) {
            node_hash_of(sibs.last(), cur)
        } else {
            node_hash_of(cur, sibs.last())
        }
    }
}

/// Whether leaf `i` lies in mountain `j`.
pub open spec fn in_mountain(hs: Seq<nat>, j: int, i: nat) -> bool {
    0 <= j < hs.len() && start(hs, j) <= i < start(hs, j) + pow2(hs[j])
}

/// The mountain that leaf `i` lies in.
pub open spec fn mountain_of(hs: Seq<nat>, i: nat) -> int {
    choose|j: int| in_mountain(hs, j, i)
}

/// Heights of an even count are those of its half, raised by one.
pub proof fn lemma_heights_even(q: nat)
    requires
        q % 2 == 0,
    ensures
        heights(q) == raise(heights(q / 2), 1),
{
    if q == 0 {
        assert(raise(heights(0), 1) =~= Seq::<nat>::empty());
    }
}

/// Heights of an odd count are those of its half, raised by one, then a
/// single leaf.
pub proof fn lemma_heights_odd(q: nat)
    requires
        q % 2 == 1,
    ensures
        heights(q) == raise(heights(q / 2), 1).push(0),
{
}

/// Adding a leaf to an even count adds a mountain of height zero.
pub proof fn lemma_heights_succ_even(q: nat)
    requires
        q % 2 == 0,
    ensures
        heights(q + 1) == heights(q).push(0),
{
    lemma_heights_even(q);
    lemma_heights_odd(q + 1);
    assert((q + 1) / 2 == q / 2);
}

/// Raising twice raises by the sum.
pub proof fn lemma_raise_raise(hs: Seq<nat>, a: nat, b: nat)
    ensures
        raise(raise(hs, a), b) == raise(hs, a + b),
{
    assert(raise(raise(hs, a), b) =~= raise(hs, a + b));
}

/// Raising by zero changes nothing.
pub proof fn lemma_raise_zero(hs: Seq<nat>)
    ensures
        raise(hs, 0) == hs,
{
    assert(raise(hs, 0) =~= hs);
}

/// Scaling a count by `2^c` raises its heights by `c`.
pub proof fn lemma_heights_scale(x: nat, c: nat)
    ensures
        heights(x * pow2(c)) == raise(heights(x), c),
    decreases c,
{
    if c == 0 {
        assert(pow2(0) == 1) by {
            vstd::arithmetic::power2::lemma2_to64();
        }
        lemma_raise_zero(heights(x));
    } else {
        lemma_pow2_unfold(c);
        let y = x * pow2((c - 1) as nat);
        lemma_heights_scale(x, (c - 1) as nat);
        assert(x * pow2(c) == 2 * y) by (nonlinear_arith)
            requires
                pow2(c) == 2 * pow2((c - 1) as nat),
                y == x * pow2((c - 1) as nat),
        ;
        lemma_heights_even(2 * y);
        assert((2 * y) / 2 == y);
        lemma_raise_raise(heights(x), (c - 1) as nat, 1);
    }
}

/// A non-empty count has mountains, and its last mountain is a single
/// leaf exactly when the count is odd.
pub proof fn lemma_heights_last(q: nat)
    requires
        q > 0,
    ensures
        heights(q).len() > 0,
        (heights(q).last() == 0) == (q % 2 == 1),
    decreases q,
{
    if q % 2 == 1 {
        lemma_heights_odd(q);
    } else {
        lemma_heights_even(q);
        lemma_heights_last(q / 2);
    }
}

/// The number of mountains is the number of set bits.
pub proof fn lemma_heights_len(n: nat)
    ensures
        heights(n).len() == popcount(n),
    decreases n,
{
    if n > 0 {
        lemma_heights_len(n / 2);
    }
}

/// The leaves of raised mountains: each raise by one doubles them.
pub proof fn lemma_total_raise(hs: Seq<nat>, c: nat)
    ensures
        total(raise(hs, c)) == pow2(c) * total(hs),
    decreases hs.len(),
{
    if hs.len() == 0 {
    } else {
        lemma_total_raise(hs.drop_last(), c);
        assert(raise(hs, c).drop_last() =~= raise(hs.drop_last(), c));
        assert(raise(hs, c).last() == hs.last() + c);
        vstd::arithmetic::power2::lemma_pow2_adds(hs.last(), c);
        let t = total(hs.drop_last());
        let p = pow2(hs.last());
        let q = pow2(c);
        assert(total(raise(hs, c)) == q * t + p * q);
        assert(q * (t + p) == q * t + p * q) by (nonlinear_arith);
    }
}

/// Appending a mountain adds its leaves.
pub proof fn lemma_total_push(hs: Seq<nat>, h: nat)
    ensures
        total(hs.push(h)) == total(hs) + pow2(h),
{
    assert(hs.push(h).drop_last() =~= hs);
}

/// The mountains of `n` leaves hold `n` leaves.
pub proof fn lemma_total_heights(n: nat)
    ensures
        total(heights(n)) == n,
    decreases n,
{
    if n > 0 {
        lemma_total_heights(n / 2);
        lemma_total_raise(heights(n / 2), 1);
        assert(pow2(1) == 2) by {
            vstd::arithmetic::power2::lemma2_to64();
        }
        if n % 2 == 1 {
            lemma_total_push(raise(heights(n / 2), 1), 0);
            assert(pow2(0) == 1) by {
                vstd::arithmetic::power2::lemma2_to64();
            }
        }
    }
}

/// The tallest mountain of `n > 0` leaves is the largest power of two not
/// above `n`, and the rest are the mountains of what remains.
pub proof fn lemma_heights_top(n: nat)
    requires
        n > 0,
    ensures
        heights(n).len() > 0,
        heights(n)[0] + 1 == bitlen(n),
        pow2(heights(n)[0]) <= n < 2 * pow2(heights(n)[0]),
        heights((n - pow2(heights(n)[0])) as nat) == heights(n).drop_first(),
    decreases n,
{
    assert(pow2(0) == 1 && pow2(1) == 2) by {
        vstd::arithmetic::power2::lemma2_to64();
    }
    if n == 1 {
        assert(heights(1) =~= seq![0nat]) by {
            lemma_heights_odd(1);
            assert(raise(heights(0), 1) =~= Seq::<nat>::empty());
        }
        assert(heights(1).drop_first() =~= Seq::<nat>::empty());
        assert(bitlen(0) == 0);
    } else {
        let m = n / 2;
        lemma_heights_top(m);
        let a = heights(m)[0];
        let rest = heights(m).drop_first();
        lemma_pow2_unfold(a + 1);
        assert(pow2(a + 1) == 2 * pow2(a));
        let r = (n - pow2(a + 1)) as nat;
        assert(r == 2 * (m - pow2(a)) + n % 2);
        assert(r / 2 == m - pow2(a));
        assert(r % 2 == n % 2);
        if n % 2 == 1 {
            lemma_heights_odd(n);
            lemma_heights_odd(r);
            assert(heights(n)[0] == a + 1);
            assert(raise(heights(m), 1).push(0).drop_first() =~= raise(rest, 1).push(0));
        } else {
            lemma_heights_even(n);
            lemma_heights_even(r);
            assert(heights(n)[0] == a + 1);
            assert(raise(heights(m), 1).drop_first() =~= raise(rest, 1));
        }
    }
}

/// The first leaf of the mountain after `j` follows mountain `j`'s leaves.
pub proof fn lemma_start_next(hs: Seq<nat>, j: int)
    requires
        0 <= j < hs.len(),
    ensures
        start(hs, j + 1) == start(hs, j) + pow2(hs[j]),
{
    assert(hs.take(j + 1).drop_last() =~= hs.take(j));
}

/// Mountains lie in order: a later mountain starts past an earlier one's end.
pub proof fn lemma_start_mono(hs: Seq<nat>, j: int, k: int)
    requires
        0 <= j < k <= hs.len(),
    ensures
        start(hs, j) + pow2(hs[j]) <= start(hs, k),
    decreases k - j,
{
    lemma_start_next(hs, j);
    if j + 1 < k {
        lemma_start_mono(hs, j + 1, k);
    }
}

/// Each leaf of `n` lies in exactly one mountain of `n`.
pub proof fn lemma_mountain_of(n: nat, i: nat)
    requires
        i < n,
    ensures
        in_mountain(heights(n), mountain_of(heights(n), i), i),
        forall|j: int| #[trigger] in_mountain(heights(n), j, i) ==> j == mountain_of(heights(n), i),
{
    let hs = heights(n);
    lemma_total_heights(n);
    assert(hs.take(hs.len() as int) =~= hs);
    assert(hs.take(0) =~= Seq::<nat>::empty());
    lemma_some_mountain(hs, i, 0);
    let j = mountain_of(hs, i);
    assert forall|k: int| #[trigger] in_mountain(hs, k, i) implies k == j by {
        if k < j {
            lemma_start_mono(hs, k, j);
        }
        if j < k {
            lemma_start_mono(hs, j, k);
        }
    }
}

/// A leaf between the start of mountain `j` and the end of the last
/// mountain lies in some mountain from `j` on.
proof fn lemma_some_mountain(hs: Seq<nat>, i: nat, j: int)
    requires
        0 <= j <= hs.len(),
        start(hs, j) <= i < start(hs, hs.len() as int),
    ensures
        exists|k: int| in_mountain(hs, k, i),
    decreases hs.len() - j,
{
    if j == hs.len() {
    } else {
        lemma_start_next(hs, j);
        if i < start(hs, j) + pow2(hs[j]) {
            assert(in_mountain(hs, j, i));
        } else {
            lemma_some_mountain(hs, i, j + 1);
        }
    }
}

/// A tree over leaves that exist does not change when leaves are added.
pub proof fn lemma_tree_push(leaves: Seq<Seq<u8>>, x: Seq<u8>, s: nat, h: nat)
    requires
        s + pow2(h) <= leaves.len(),
    ensures
        tree(leaves.push(x), s, h) == tree(leaves, s, h),
    decreases h,
{
    lemma_pow2_pos(h);
    if h > 0 {
        lemma_pow2_unfold(h);
        lemma_tree_push(leaves, x, s, (h - 1) as nat);
        lemma_tree_push(leaves, x, s + pow2((h - 1) as nat), (h - 1) as nat);
    }
}

/// Bits below `h` of two numbers agree when they agree modulo `2^h`.
proof fn lemma_bit_mod(x: nat, y: nat, h: nat, k: nat)
    requires
        k < h,
        x % pow2(h) == y % pow2(h),
    ensures
        bit(x, k) == bit(y, k),
{
    let d = (h - k) as nat;
    vstd::arithmetic::power2::lemma_pow2_adds(k, d);
    lemma_pow2_pos(k);
    lemma_pow2_pos(d);
    lemma_pow2_unfold(d);
    let a = pow2(k);
    let b = pow2(d);
    assert(pow2(h) == a * b) by {
        assert(k + d == h);
    }
    vstd::arithmetic::div_mod::lemma_mod_breakdown(x as int, a as int, b as int);
    vstd::arithmetic::div_mod::lemma_mod_breakdown(y as int, a as int, b as int);
    let u = (x / a) % b;
    let v = (y / a) % b;
    let r = x % a;
    let t = y % a;
    assert(u == v) by (nonlinear_arith)
        requires
            a * u + r == a * v + t,
            0 <= r < a,
            0 <= t < a,
            0 <= u,
            0 <= v,
    ;
    assert(b == 2 * pow2((d - 1) as nat));
    vstd::arithmetic::div_mod::lemma_mod_mod((x / a) as int, 2, pow2((d - 1) as nat) as int);
    vstd::arithmetic::div_mod::lemma_mod_mod((y / a) as int, 2, pow2((d - 1) as nat) as int);
    lemma_pow2_pos((d - 1) as nat);
}

/// The quotient of a number between `m` and `2m` by `m` is one.
proof fn lemma_div_once(x: nat, m: nat)
    requires
        0 < m <= x < 2 * m,
    ensures
        x / m == 1,
        x % m == x - m,
{
    vstd::arithmetic::div_mod::lemma_fundamental_div_mod(x as int, m as int);
    let q = x / m;
    let r = x % m;
    assert(q == 1 && r == x - m) by (nonlinear_arith)
        requires
            x == m * q + r,
            0 <= r < m,
            m <= x < 2 * m,
            0 <= q,
    ;
}

/// Climbing a leaf's path rebuilds the tree over its leaves.
pub proof fn lemma_fold_path(leaves: Seq<Seq<u8>>, s: nat, h: nat, loc: nat, big: nat)
    requires
        s + pow2(h) <= leaves.len(),
        loc < pow2(h),
        big % pow2(h) == loc,
    ensures
        path(leaves, s, h, loc).len() == h,
        fold_path(leaves[(s + loc) as int], path(leaves, s, h, loc), big) == tree(leaves, s, h),
    decreases h,
{
    if h == 0 {
        assert(pow2(0) == 1) by {
            vstd::arithmetic::power2::lemma2_to64();
        }
    } else {
        let half = pow2((h - 1) as nat);
        lemma_pow2_unfold(h);
        lemma_pow2_pos((h - 1) as nat);
        assert(pow2(h) == half * 2);
        let p = path(leaves, s, h, loc);
        let leaf = leaves[(s + loc) as int];
        vstd::arithmetic::div_mod::lemma_mod_mod(big as int, half as int, 2);
        vstd::arithmetic::div_mod::lemma_small_mod(loc, pow2(h));
        lemma_bit_mod(big, loc, h, (h - 1) as nat);
        if loc < half {
            vstd::arithmetic::div_mod::lemma_small_mod(loc, half);
            lemma_fold_path(leaves, s, (h - 1) as nat, loc, big);
            assert(p.drop_last() == path(leaves, s, (h - 1) as nat, loc));
            vstd::arithmetic::div_mod::lemma_basic_div(loc as int, half as int);
            assert(!bit(loc, (h - 1) as nat));
            assert(fold_path(leaf, p, big) == node_hash_of(
                fold_path(leaf, p.drop_last(), big),
                p.last(),
            ));
        } else {
            let l2 = (loc - half) as nat;
            lemma_div_once(loc, half);
            lemma_fold_path(leaves, s + half, (h - 1) as nat, l2, big);
            assert(p.drop_last() == path(leaves, s + half, (h - 1) as nat, l2));
            assert(s + half + l2 == s + loc);
            assert(bit(loc, (h - 1) as nat));
            assert(fold_path(leaf, p, big) == node_hash_of(
                p.last(),
                fold_path(leaf, p.drop_last(), big),
            ));
        }
    }
}

} // verus!
