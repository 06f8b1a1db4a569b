//! A stable sort over row positions.
//!
//! Tables are never reordered in place: a sort yields the positions of the rows
//! in the order in which they are to be drawn.

use vstd::multiset::Multiset;
use vstd::prelude::*;

verus! {

/// A way to rank rows by their position in a table.
pub trait Ranking {
    /// The positions that can be ranked.
    spec fn ranks(&self, i: usize) -> bool;

    /// The row at `a` may stand before the row at `b`.
    spec fn le(&self, a: usize, b: usize) -> bool;

    /// Any two rows are ranked, and the ranks are consistent.
    proof fn lawful(&self, a: usize, b: usize, c: usize)
        requires
            self.ranks(a),
            self.ranks(b),
            self.ranks(c),
        ensures
            self.le(a, b) || self.le(b, a),
            self.le(a, b) && self.le(b, c) ==> self.le(a, c),
    ;

    /// Whether the row at `a` may stand before the row at `b`.
    fn may_precede(&self, a: usize, b: usize) -> (r: bool)
        requires
            self.ranks(a),
            self.ranks(b),
        ensures
            r == self.le(a, b),
    ;
}

/// Positions in ascending order, none twice.
pub open spec fn ascending(s: Seq<usize>) -> bool {
    forall|i: int, j: int| 0 <= i < j < s.len() ==> s[i] < s[j]
}

/// Positions in rank order; rows of equal rank keep the order of their
/// positions.
pub open spec fn ranked<R: Ranking>(r: &R, s: Seq<usize>) -> bool {
    forall|i: int, j: int| #![trigger s[i], s[j]]
        0 <= i < j < s.len() ==> r.le(s[i], s[j]) && (r.le(s[j], s[i]) ==> s[i] < s[j])
}

/// The same positions, in another order.
pub open spec fn rearranged(s: Seq<usize>, t: Seq<usize>) -> bool {
    s.to_multiset() == t.to_multiset()
}

pub proof fn lemma_rearranged_members(s: Seq<usize>, t: Seq<usize>, i: int)
    requires
        rearranged(s, t),
        0 <= i < s.len(),
    ensures
        t.contains(s[i]),
{
    broadcast use vstd::seq_lib::group_to_multiset_ensures;

    assert(s.to_multiset().count(s[i]) > 0) by {
        assert(s.contains(s[i]));
    }
    assert(t.to_multiset().count(s[i]) > 0);
}

/// Merges two ranked runs; every position of the left run lies before every
/// position of the right one.
fn merge<R: Ranking>(r: &R, left: &Vec<usize>, right: &Vec<usize>) -> (out: Vec<usize>)
    requires
        forall|i: int| 0 <= i < left.len() ==> r.ranks(#[trigger] left@[i]),
        forall|i: int| 0 <= i < right.len() ==> r.ranks(#[trigger] right@[i]),
        forall|i: int, j: int| #![trigger left@[i], right@[j]]
            0 <= i < left.len() && 0 <= j < right.len() ==> left@[i] < right@[j],
        ranked(r, left@),
        ranked(r, right@),
    ensures
        ranked(r, out@),
        rearranged(out@, left@ + right@),
{
    let mut out: Vec<usize> = Vec::new();
    let mut i: usize = 0;
    let mut j: usize = 0;
    proof {
        broadcast use vstd::seq_lib::group_to_multiset_ensures;

        assert(left@.skip(0) + right@.skip(0) =~= left@ + right@);
        assert(out@.to_multiset().add((left@.skip(0) + right@.skip(0)).to_multiset())
            =~= (left@ + right@).to_multiset());
    }
    while i < left.len() || j < right.len()
        invariant
            i <= left.len(),
            j <= right.len(),
            forall|k: int| 0 <= k < left.len() ==> r.ranks(#[trigger] left@[k]),
            forall|k: int| 0 <= k < right.len() ==> r.ranks(#[trigger] right@[k]),
            forall|a: int, b: int| #![trigger left@[a], right@[b]]
                0 <= a < left.len() && 0 <= b < right.len() ==> left@[a] < right@[b],
            ranked(r, left@),
            ranked(r, right@),
            ranked(r, out@),
            forall|k: int| 0 <= k < out.len() ==> r.ranks(#[trigger] out@[k]),
            forall|k: int, a: int| #![trigger out@[k], left@[a]]
                0 <= k < out.len() && i <= a < left.len() ==> r.le(out@[k], left@[a]) && (r.le(
                    left@[a],
                    out@[k],
                ) ==> out@[k] < left@[a]),
            forall|k: int, b: int| #![trigger out@[k], right@[b]]
                0 <= k < out.len() && j <= b < right.len() ==> r.le(out@[k], right@[b]) && (r.le(
                    right@[b],
                    out@[k],
                ) ==> out@[k] < right@[b]),
            out@.to_multiset().add(
                (left@.skip(i as int) + right@.skip(j as int)).to_multiset(),
            ) == (left@ + right@).to_multiset(),
        decreases left.len() - i + right.len() - j,
    {
        let take_left = if i == left.len() {
            false
        } else if j == right.len() {
            true
        } else {
            r.may_precede(left[i], right[j])
        };
        let ghost rest = left@.skip(i as int) + right@.skip(j as int);
        let ghost old_out = out@;
        if take_left {
            let x = left[i];
            proof {
                assert forall|b: int| j <= b < right.len() implies r.le(x, #[trigger] right@[b])
                    && x < right@[b] by {
                    r.lawful(x, right@[j as int], right@[b]);
                    if j < b {
                        assert(r.le(right@[j as int], right@[b]));
                    } else {
                        r.lawful(right@[b], right@[b], right@[b]);
                    }
                }
                let next = left@.skip(i as int + 1) + right@.skip(j as int);
                assert(rest =~= seq![x] + next);
                lemma_step(old_out, x, next);
            }
            out.push(x);
            i += 1;
        } else {
            let x = right[j];
            proof {
                assert forall|a: int| i <= a < left.len() implies r.le(x, #[trigger] left@[a])
                    && !r.le(left@[a], x) by {
                    r.lawful(x, left@[i as int], left@[a]);
                    r.lawful(left@[i as int], left@[a], x);
                    if i < a {
                        assert(r.le(left@[i as int], left@[a]));
                    }
                }
                let next = left@.skip(i as int) + right@.skip(j as int + 1);
                vstd::seq_lib::lemma_multiset_commutative(
                    left@.skip(i as int),
                    right@.skip(j as int),
                );
                vstd::seq_lib::lemma_multiset_commutative(
                    left@.skip(i as int),
                    right@.skip(j as int + 1),
                );
                assert(right@.skip(j as int) =~= seq![x] + right@.skip(j as int + 1));
                vstd::seq_lib::lemma_multiset_commutative(seq![x], right@.skip(j as int + 1));
                vstd::seq_lib::lemma_multiset_commutative(seq![x], next);
                assert((seq![x] + next).to_multiset() =~= rest.to_multiset());
                lemma_step(old_out, x, next);
            }
            out.push(x);
            j += 1;
        }
    }
    proof {
        broadcast use vstd::seq_lib::group_to_multiset_ensures;

        let rest = left@.skip(i as int) + right@.skip(j as int);
        assert(rest =~= Seq::empty());
        assert(rest.to_multiset() =~= Multiset::empty());
        assert(out@.to_multiset() =~= out@.to_multiset().add(rest.to_multiset()));
    }
    out
}

proof fn lemma_step(out: Seq<usize>, x: usize, next: Seq<usize>)
    ensures
        out.push(x).to_multiset().add(next.to_multiset()) == out.to_multiset().add(
            (seq![x] + next).to_multiset(),
        ),
{
    broadcast use vstd::seq_lib::group_to_multiset_ensures;

    vstd::seq_lib::lemma_multiset_commutative(seq![x], next);
    assert(seq![x] =~= Seq::<usize>::empty().push(x));
    assert(seq![x].to_multiset() =~= Multiset::singleton(x));
    assert(out.push(x).to_multiset() =~= out.to_multiset().insert(x));
    assert(out.push(x).to_multiset().add(next.to_multiset()) =~= out.to_multiset().add(
        (seq![x] + next).to_multiset(),
    ));
}

/// The positions of `rows[from..to]`, ranked.
fn sort_run<R: Ranking>(r: &R, rows: &Vec<usize>, from: usize, to: usize) -> (out: Vec<usize>)
    requires
        from <= to <= rows.len(),
        ascending(rows@),
        forall|i: int| 0 <= i < rows.len() ==> r.ranks(#[trigger] rows@[i]),
    ensures
        ranked(r, out@),
        rearranged(out@, rows@.subrange(from as int, to as int)),
    decreases to - from,
{
    if to - from <= 1 {
        let mut out: Vec<usize> = Vec::new();
        if from < to {
            out.push(rows[from]);
        }
        proof {
            assert(out@ =~= rows@.subrange(from as int, to as int));
        }
        out
    } else {
        let mid = from + (to - from) / 2;
        let left = sort_run(r, rows, from, mid);
        let right = sort_run(r, rows, mid, to);
        proof {
            let l = rows@.subrange(from as int, mid as int);
            let h = rows@.subrange(mid as int, to as int);
            assert forall|i: int| 0 <= i < left.len() implies r.ranks(#[trigger] left@[i]) && (
            exists|k: int| from <= k < mid && left@[i] == rows@[k]) by {
                lemma_rearranged_members(left@, l, i);
                let k = choose|k: int| 0 <= k < l.len() && l[k] == left@[i];
                assert(left@[i] == rows@[from + k]);
            }
            assert forall|i: int| 0 <= i < right.len() implies r.ranks(#[trigger] right@[i]) && (
            exists|k: int| mid <= k < to && right@[i] == rows@[k]) by {
                lemma_rearranged_members(right@, h, i);
                let k = choose|k: int| 0 <= k < h.len() && h[k] == right@[i];
                assert(right@[i] == rows@[mid + k]);
            }
            vstd::seq_lib::lemma_multiset_commutative(l, h);
            vstd::seq_lib::lemma_multiset_commutative(left@, right@);
            assert(l + h =~= rows@.subrange(from as int, to as int));
        }
        merge(r, &left, &right)
    }
}

/// The positions in rank order, rows of equal rank in the order of their
/// positions.
pub fn sort_rows<R: Ranking>(r: &R, rows: &Vec<usize>) -> (out: Vec<usize>)
    requires
        ascending(rows@),
        forall|i: int| 0 <= i < rows.len() ==> r.ranks(#[trigger] rows@[i]),
    ensures
        ranked(r, out@),
        rearranged(out@, rows@),
{
    proof {
        assert(rows@.subrange(0, rows.len() as int) =~= rows@);
    }
    sort_run(r, rows, 0, rows.len())
}

/// There is one order only: lists of the same positions in which what stands
/// earlier precedes what stands later are the same list, whatever precedes what,
/// as long as no two positions precede each other.
pub proof fn order_is_unique(
    precedes: spec_fn(usize, usize) -> bool,
    s: Seq<usize>,
    t: Seq<usize>,
)
    requires
        rearranged(s, t),
        forall|a: usize, b: usize| precedes(a, b) ==> !#[trigger] precedes(b, a),
        forall|i: int, j: int| #![trigger s[i], s[j]]
            0 <= i < j < s.len() ==> precedes(s[i], s[j]),
        forall|i: int, j: int| #![trigger t[i], t[j]]
            0 <= i < j < t.len() ==> precedes(t[i], t[j]),
    ensures
        s == t,
    decreases s.len(),
{
    broadcast use vstd::seq_lib::group_to_multiset_ensures;

    assert(s.to_multiset().len() == s.len());
    assert(t.to_multiset().len() == t.len());
    if s.len() == 0 {
        assert(s =~= t);
    } else {
        lemma_rearranged_members(s, t, 0);
        lemma_rearranged_members(t, s, 0);
        let k = choose|k: int| 0 <= k < t.len() && t[k] == s[0];
        let m = choose|m: int| 0 <= m < s.len() && s[m] == t[0];
        if k > 0 {
            assert(precedes(t[0], t[k]));
            if m > 0 {
                assert(precedes(s[0], s[m]));
            }
        }
        assert(s[0] == t[0]);
        let (u, v) = (s.drop_first(), t.drop_first());
        assert(s.remove(0) =~= u);
        assert(t.remove(0) =~= v);
        assert(u.to_multiset() == s.to_multiset().remove(s[0]));
        assert(v.to_multiset() == t.to_multiset().remove(t[0]));
        assert forall|i: int, j: int| #![trigger u[i], u[j]] 0 <= i < j < u.len() implies precedes(
            u[i],
            u[j],
        ) by {
            assert(precedes(s[i + 1], s[j + 1]));
        }
        assert forall|i: int, j: int| #![trigger v[i], v[j]] 0 <= i < j < v.len() implies precedes(
            v[i],
            v[j],
        ) by {
            assert(precedes(t[i + 1], t[j + 1]));
        }
        order_is_unique(precedes, u, v);
        assert(s =~= seq![s[0]] + u);
        assert(t =~= seq![t[0]] + v);
    }
}

/// The positions from back to front.
pub fn reversed(rows: &Vec<usize>) -> (r: Vec<usize>)
    ensures
        r@ == rows@.reverse(),
        rearranged(r@, rows@),
{
    let mut out: Vec<usize> = Vec::new();
    let n = rows.len();
    proof {
        broadcast use vstd::seq_lib::group_to_multiset_ensures;

        assert(rows@.take(n as int) =~= rows@);
        assert(out@.to_multiset().add(rows@.to_multiset()) =~= rows@.to_multiset());
    }
    for k in 0..n
        invariant
            n == rows@.len(),
            out@.len() == k,
            forall|i: int| 0 <= i < k ==> out@[i] == rows@[n - 1 - i],
            out@.to_multiset().add(rows@.take(n - k).to_multiset()) == rows@.to_multiset(),
    {
        let ghost before = out@;
        let x = rows[n - 1 - k];
        out.push(x);
        proof {
            broadcast use vstd::seq_lib::group_to_multiset_ensures;

            let rest = rows@.take(n - k - 1);
            assert(rows@.take(n - k) =~= rest.push(x));
            assert(out@ =~= before.push(x));
            assert(out@.to_multiset().add(rest.to_multiset()) =~= before.to_multiset().add(
                rest.push(x).to_multiset(),
            ));
        }
    }
    proof {
        broadcast use vstd::seq_lib::group_to_multiset_ensures;

        let none = Seq::<usize>::empty();
        assert(rows@.take(n - n) =~= none);
        assert(none.to_multiset() =~= Multiset::empty());
        assert(out@.to_multiset().add(none.to_multiset()) =~= out@.to_multiset());
        assert(out@ =~= rows@.reverse());
    }
    out
}

/// In rank order no row stands before one that it may not precede, and rows of equal
/// rank keep the order in which they came.
pub proof fn equal_ranks_keep_their_order<R: Ranking>(r: &R, s: Seq<usize>, i: int, j: int)
    requires
        ranked(r, s),
        0 <= i < j < s.len(),
    ensures
        r.le(s[i], s[j]),
        r.le(s[j], s[i]) ==> s[i] < s[j],
{
}

/// Rearranging loses no position and adds none.
pub proof fn rearranging_keeps_the_rows(s: Seq<usize>, t: Seq<usize>, v: usize)
    requires
        rearranged(s, t),
    ensures
        s.len() == t.len(),
        s.contains(v) <==> t.contains(v),
{
    broadcast use vstd::seq_lib::group_to_multiset_ensures;

    assert(s.to_multiset().len() == t.to_multiset().len());
    if s.contains(v) {
        let i = choose|i: int| 0 <= i < s.len() && s[i] == v;
        lemma_rearranged_members(s, t, i);
    }
    if t.contains(v) {
        let i = choose|i: int| 0 <= i < t.len() && t[i] == v;
        lemma_rearranged_members(t, s, i);
    }
}

} // verus!
