//! Picking and counting the rows of a table.

use crate::order::ascending;
use vstd::prelude::*;

verus! {

/// A test that a row passes or fails.
pub trait RowTest<T> {
    /// The row passes.
    spec fn holds(&self, row: T) -> bool;

    /// Whether the row passes.
    fn test(&self, row: &T) -> (r: bool)
        ensures
            r == self.holds(*row),
    ;
}

/// How many rows satisfy `p`.
pub open spec fn tally<T>(rows: Seq<T>, p: spec_fn(T) -> bool) -> nat
    decreases rows.len(),
{
    if rows.len() == 0 {
        0
    } else {
        tally(rows.drop_last(), p) + if p(rows.last()) {
            1nat
        } else {
            0nat
        }
    }
}

/// `sel` holds exactly the positions of the rows that satisfy `p`, in table
/// order, none twice.
pub open spec fn selects<T>(rows: Seq<T>, p: spec_fn(T) -> bool, sel: Seq<usize>) -> bool {
    &&& ascending(sel)
    &&& forall|k: int| 0 <= k < sel.len() ==> (#[trigger] sel[k]) < rows.len() && p(
        rows[sel[k] as int],
    )
    &&& forall|i: int| #![trigger rows[i]]
        0 <= i < rows.len() && p(rows[i]) ==> sel.contains(i as usize)
}

/// The positions of the rows that pass, in table order.
pub fn positions<T, P: RowTest<T>>(rows: &[T], p: &P) -> (r: Vec<usize>)
    ensures
        selects(rows@, |t: T| p.holds(t), r@),
        r@.len() == tally(rows@, |t: T| p.holds(t)),
{
    let mut out: Vec<usize> = Vec::new();
    let ghost q = |t: T| p.holds(t);
    for i in 0..rows.len()
        invariant
            q == (|t: T| p.holds(t)),
            ascending(out@),
            forall|k: int|
                0 <= k < out.len() ==> (#[trigger] out@[k]) < i && q(rows@[out@[k] as int]),
            forall|j: int| #![trigger rows@[j]]
                0 <= j < i && q(rows@[j]) ==> out@.contains(j as usize),
            out@.len() == tally(rows@.take(i as int), q),
    {
        let ghost before = out@;
        let hit = p.test(&rows[i]);
        if hit {
            out.push(i);
        }
        proof {
            assert(rows@.take(i as int + 1).drop_last() =~= rows@.take(i as int));
            assert forall|j: int| #![trigger rows@[j]] 0 <= j < i + 1 && q(
                rows@[j],
            ) implies out@.contains(j as usize) by {
                if j < i {
                    let w = choose|w: int| 0 <= w < before.len() && before[w] == j as usize;
                    assert(out@[w] == j as usize);
                } else {
                    assert(out@[out@.len() - 1] == j as usize);
                }
            }
        }
    }
    proof {
        assert(rows@.take(rows@.len() as int) =~= rows@);
    }
    out
}

/// How many rows pass.
pub fn count_rows<T, P: RowTest<T>>(rows: &[T], p: &P) -> (r: usize)
    ensures
        r == tally(rows@, |t: T| p.holds(t)),
{
    positions(rows, p).len()
}

/// Two selections of the same rows are the same list of positions.
pub proof fn selection_is_unique<T>(
    rows: Seq<T>,
    p: spec_fn(T) -> bool,
    s: Seq<usize>,
    t: Seq<usize>,
)
    requires
        selects(rows, p, s),
        selects(rows, p, t),
        rows.len() <= usize::MAX,
    ensures
        s == t,
{
    assert forall|i: int| 0 <= i < s.len() && i < t.len() implies s[i] == t[i] by {
        lemma_same_at(rows, p, s, t, i);
    }
    lemma_no_longer(rows, p, s, t);
    lemma_no_longer(rows, p, t, s);
    assert(s =~= t);
}

proof fn lemma_no_longer<T>(rows: Seq<T>, p: spec_fn(T) -> bool, s: Seq<usize>, t: Seq<usize>)
    requires
        selects(rows, p, s),
        selects(rows, p, t),
        rows.len() <= usize::MAX,
        forall|i: int| 0 <= i < s.len() && i < t.len() ==> s[i] == t[i],
    ensures
        t.len() <= s.len(),
{
    if s.len() < t.len() {
        let x = t[s.len() as int];
        assert(p(rows[x as int]));
        assert(s.contains(x));
        let k = choose|k: int| 0 <= k < s.len() && s[k] == x;
        assert(t[k] == x);
    }
}

proof fn lemma_same_at<T>(
    rows: Seq<T>,
    p: spec_fn(T) -> bool,
    s: Seq<usize>,
    t: Seq<usize>,
    i: int,
)
    requires
        selects(rows, p, s),
        selects(rows, p, t),
        rows.len() <= usize::MAX,
        0 <= i < s.len(),
        i < t.len(),
    ensures
        s[i] == t[i],
    decreases i,
{
    assert forall|k: int| 0 <= k < i implies s[k] == t[k] by {
        lemma_same_at(rows, p, s, t, k);
    }
    assert(p(rows[s[i] as int]));
    assert(p(rows[t[i] as int]));
    assert(t.contains(s[i]));
    assert(s.contains(t[i]));
    let a = choose|a: int| 0 <= a < t.len() && t[a] == s[i];
    let b = choose|b: int| 0 <= b < s.len() && s[b] == t[i];
    if a < i {
        assert(s[a] == s[i]);
    }
    if b < i {
        assert(t[b] == t[i]);
    }
}

/// A selection is as long as the number of rows that satisfy its condition.
pub proof fn selection_size<T>(rows: Seq<T>, p: spec_fn(T) -> bool, sel: Seq<usize>)
    requires
        selects(rows, p, sel),
        rows.len() <= usize::MAX,
    ensures
        sel.len() == tally(rows, p),
    decreases rows.len(),
{
    if rows.len() == 0 {
        if sel.len() > 0 {
            assert(sel[0] < rows.len());
        }
    } else {
        let n = rows.len() - 1;
        let init = rows.drop_last();
        if p(rows.last()) {
            assert(p(rows[n]));
            assert(sel.contains(n as usize));
            let w = choose|w: int| 0 <= w < sel.len() && sel[w] == n as usize;
            if w < sel.len() - 1 {
                assert(sel[w] < sel[sel.len() - 1]);
                assert(sel[sel.len() - 1] < rows.len());
            }
            let short = sel.drop_last();
            assert forall|k: int| 0 <= k < short.len() implies (#[trigger] short[k]) < init.len()
                && p(init[short[k] as int]) by {
                assert(sel[k] < sel[sel.len() - 1]);
            }
            assert forall|i: int| #![trigger init[i]] 0 <= i < init.len() && p(
                init[i],
            ) implies short.contains(i as usize) by {
                assert(p(rows[i]));
                let v = choose|v: int| 0 <= v < sel.len() && sel[v] == i as usize;
                assert(short[v] == i as usize);
            }
            selection_size(init, p, short);
        } else {
            assert forall|k: int| 0 <= k < sel.len() implies (#[trigger] sel[k]) < init.len() && p(
                init[sel[k] as int],
            ) by {
                if sel[k] == n {
                    assert(p(rows[n]));
                }
            }
            assert forall|i: int| #![trigger init[i]] 0 <= i < init.len() && p(
                init[i],
            ) implies sel.contains(i as usize) by {
                assert(p(rows[i]));
            }
            selection_size(init, p, sel);
        }
    }
}

/// A selection holds a position exactly if the row there satisfies the condition,
/// and its positions ascend.
pub proof fn a_selection_is_exact<T>(
    rows: Seq<T>,
    p: spec_fn(T) -> bool,
    sel: Seq<usize>,
    i: usize,
    j: int,
    k: int,
)
    requires
        selects(rows, p, sel),
    ensures
        sel.contains(i) <==> i < rows.len() && p(rows[i as int]),
        0 <= j < k < sel.len() ==> sel[j] < sel[k],
{
    if sel.contains(i) {
        let w = choose|w: int| 0 <= w < sel.len() && sel[w] == i;
        assert(sel[w] == i);
    }
    if i < rows.len() && p(rows[i as int]) {
        assert(sel.contains(i));
    }
}

/// Rows are counted one by one: a row counts once if it satisfies the condition and
/// not at all otherwise, and the counts of two tables add up.
pub proof fn rows_are_counted_one_by_one<T>(row: T, a: Seq<T>, b: Seq<T>, p: spec_fn(T) -> bool)
    ensures
        tally(seq![row], p) == if p(row) {
            1nat
        } else {
            0nat
        },
        tally(Seq::empty(), p) == 0,
        tally(a + b, p) == tally(a, p) + tally(b, p),
    decreases b.len(),
{
    reveal_with_fuel(tally, 2);
    assert(seq![row].drop_last() =~= Seq::<T>::empty());
    assert(seq![row].last() == row);
    if b.len() == 0 {
        assert(a + b =~= a);
    } else {
        rows_are_counted_one_by_one(row, a, b.drop_last(), p);
        assert((a + b).drop_last() =~= a + b.drop_last());
        assert((a + b).last() == b.last());
    }
}

} // verus!
