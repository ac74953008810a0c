//! Kickers: the ranks a hand holds beside those that make its category.
//!
//! The kickers of a hand are a multiset. Two hands of one category and equal
//! defining ranks are told apart by their kickers from the highest down.

use itertools::Itertools;
use std::cmp::Ordering;
use vstd::prelude::*;
use vstd::relations::{sorted_by, total_ordering};
use vstd::seq_lib::{
    lemma_sorted_unique, to_multiset_build, to_multiset_contains, to_multiset_len,
};

use crate::card::Rank;
use crate::order::opposite;

verus! {

/// The relation "at least as high as" on ranks.
pub open spec fn at_least() -> spec_fn(Rank, Rank) -> bool {
    |a: Rank, b: Rank| a.value() >= b.value()
}

/// The ranks of `xs` from the highest to the lowest.
pub open spec fn descending(xs: Seq<Rank>) -> Seq<Rank> {
    xs.sort_by(at_least())
}

/// The order of two rank sequences, decided at the first position where
/// they differ; `Equal` where no position tells them apart.
pub open spec fn first_difference(a: Seq<Rank>, b: Seq<Rank>) -> Ordering
    recommends
        a.len() == b.len(),
    decreases a.len(),
{
    if a.len() == 0 || b.len() == 0 {
        Ordering::Equal
    } else if a.first().order(b.first()) == Ordering::Equal {
        first_difference(a.drop_first(), b.drop_first())
    } else {
        a.first().order(b.first())
    }
}

/// The order of two kicker multisets of one size: each is laid out from its
/// highest rank down, and the first position that differs decides.
pub open spec fn kicker_order(xs: Seq<Rank>, ys: Seq<Rank>) -> Ordering
    recommends
        xs.len() == ys.len(),
{
    first_difference(descending(xs), descending(ys))
}

/// "At least as high as" orders the ranks totally.
pub proof fn lemma_at_least_is_total()
    ensures
        total_ordering(at_least()),
{
    let r = at_least();
    assert(forall|x: Rank, y: Rank| #[trigger] r(x, y) && #[trigger] r(y, x) ==> x == y);
}

/// Laying a sequence out in descending order keeps its ranks, each as often
/// as before, and leaves no rank in front of a higher one.
pub proof fn lemma_descending(xs: Seq<Rank>)
    ensures
        descending(xs).len() == xs.len(),
        descending(xs).to_multiset() == xs.to_multiset(),
        sorted_by(descending(xs), at_least()),
{
    xs.lemma_sort_by_ensures(at_least());
    to_multiset_len(xs);
    to_multiset_len(descending(xs));
}

/// There is one descending layout of a multiset of ranks.
pub proof fn lemma_descending_is_unique(xs: Seq<Rank>, s: Seq<Rank>)
    requires
        s.to_multiset() == xs.to_multiset(),
        sorted_by(s, at_least()),
    ensures
        s == descending(xs),
{
    lemma_descending(xs);
    lemma_sorted_unique(s, descending(xs), at_least());
}

/// The descending layout does not depend on the order in which the ranks
/// were given.
pub proof fn lemma_descending_ignores_order(xs: Seq<Rank>, ys: Seq<Rank>)
    requires
        xs.to_multiset() == ys.to_multiset(),
    ensures
        descending(xs) == descending(ys),
{
    lemma_descending(xs);
    lemma_descending_is_unique(ys, descending(xs));
}

/// Seen from the other side, the first difference reads the other way.
pub proof fn lemma_first_difference_mirror(a: Seq<Rank>, b: Seq<Rank>)
    ensures
        first_difference(b, a) == opposite(first_difference(a, b)),
    decreases a.len(),
{
    if a.len() != 0 && b.len() != 0 {
        lemma_first_difference_mirror(a.drop_first(), b.drop_first());
    }
}

/// Two sequences of one length have no first difference exactly when they
/// are the same sequence.
pub proof fn lemma_first_difference_equal(a: Seq<Rank>, b: Seq<Rank>)
    requires
        a.len() == b.len(),
    ensures
        first_difference(a, b) == Ordering::Equal <==> a == b,
    decreases a.len(),
{
    if a.len() == 0 {
        assert(a =~= b);
    } else {
        lemma_first_difference_equal(a.drop_first(), b.drop_first());
        if a.first() == b.first() && a.drop_first() == b.drop_first() {
            assert(a =~= seq![a.first()] + a.drop_first());
            assert(b =~= seq![b.first()] + b.drop_first());
        }
    }
}

/// Among sequences of one length the first difference is transitive, and a
/// strict step anywhere makes the whole strict.
pub proof fn lemma_first_difference_transitive(a: Seq<Rank>, b: Seq<Rank>, c: Seq<Rank>)
    requires
        a.len() == b.len(),
        b.len() == c.len(),
        first_difference(a, b) != Ordering::Greater,
        first_difference(b, c) != Ordering::Greater,
    ensures
        first_difference(a, c) != Ordering::Greater,
        first_difference(a, b) == Ordering::Less || first_difference(b, c) == Ordering::Less
            ==> first_difference(a, c) == Ordering::Less,
    decreases a.len(),
{
    if a.len() != 0 {
        if a.first().order(b.first()) == Ordering::Equal && b.first().order(c.first())
            == Ordering::Equal {
            lemma_first_difference_transitive(a.drop_first(), b.drop_first(), c.drop_first());
        }
    }
}

/// A kicker multiset ties with itself.
pub proof fn lemma_kicker_order_reflexive(xs: Seq<Rank>)
    ensures
        kicker_order(xs, xs) == Ordering::Equal,
{
    lemma_first_difference_equal(descending(xs), descending(xs));
}

/// Seen from the other side, the kicker order reads the other way.
pub proof fn lemma_kicker_order_mirror(xs: Seq<Rank>, ys: Seq<Rank>)
    ensures
        kicker_order(ys, xs) == opposite(kicker_order(xs, ys)),
{
    lemma_first_difference_mirror(descending(xs), descending(ys));
}

/// Kickers of one size tie exactly when they are the same multiset.
pub proof fn lemma_kicker_order_equal(xs: Seq<Rank>, ys: Seq<Rank>)
    requires
        xs.len() == ys.len(),
    ensures
        kicker_order(xs, ys) == Ordering::Equal <==> xs.to_multiset() == ys.to_multiset(),
{
    lemma_descending(xs);
    lemma_descending(ys);
    lemma_first_difference_equal(descending(xs), descending(ys));
    if xs.to_multiset() == ys.to_multiset() {
        lemma_descending_ignores_order(xs, ys);
    }
}

/// Among kickers of one size the order is transitive, and a strict step
/// anywhere makes the whole strict.
pub proof fn lemma_kicker_order_transitive(xs: Seq<Rank>, ys: Seq<Rank>, zs: Seq<Rank>)
    requires
        xs.len() == ys.len(),
        ys.len() == zs.len(),
        kicker_order(xs, ys) != Ordering::Greater,
        kicker_order(ys, zs) != Ordering::Greater,
    ensures
        kicker_order(xs, zs) != Ordering::Greater,
        kicker_order(xs, ys) == Ordering::Less || kicker_order(ys, zs) == Ordering::Less
            ==> kicker_order(xs, zs) == Ordering::Less,
{
    lemma_descending(xs);
    lemma_descending(ys);
    lemma_descending(zs);
    lemma_first_difference_transitive(descending(xs), descending(ys), descending(zs));
}

/// The kicker order does not depend on the order in which either side
/// holds its ranks.
pub proof fn lemma_kicker_order_ignores_order(
    xs: Seq<Rank>,
    xs_permuted: Seq<Rank>,
    ys: Seq<Rank>,
)
    requires
        xs.to_multiset() == xs_permuted.to_multiset(),
    ensures
        kicker_order(xs_permuted, ys) == kicker_order(xs, ys),
        kicker_order(ys, xs_permuted) == kicker_order(ys, xs),
{
    lemma_descending_ignores_order(xs, xs_permuted);
}

/// A rank occurs in a sequence as often as its value occurs among the
/// values of the sequence.
proof fn lemma_count_by_value(xs: Seq<Rank>, values: Seq<u8>, r: Rank)
    requires
        values.len() == xs.len(),
        forall|i: int| 0 <= i < xs.len() ==> values[i] == xs[i].value(),
    ensures
        xs.to_multiset().count(r) == values.to_multiset().count(r.value()),
    decreases xs.len(),
{
    broadcast use vstd::multiset::group_multiset_axioms;

    if xs.len() == 0 {
        assert(xs.to_multiset().len() == 0) by {
            to_multiset_len(xs);
        }
        assert(values.to_multiset().len() == 0) by {
            to_multiset_len(values);
        }
    } else {
        let head = xs.drop_last();
        let head_values = values.drop_last();
        lemma_count_by_value(head, head_values, r);
        assert(xs =~= head.push(xs.last()));
        assert(values =~= head_values.push(values.last()));
        to_multiset_build(head, xs.last());
        to_multiset_build(head_values, values.last());
    }
}

/// Sorts a copy of `values` with `Itertools::sorted`. Taken on trust from
/// that function: the result holds each value as often as `values` does,
/// and in it no value stands before a smaller one.
#[verifier::external_body]
fn sorted_ascending(values: &Vec<u8>) -> (out: Vec<u8>)
    ensures
        out@.to_multiset() == values@.to_multiset(),
        forall|i: int, j: int| 0 <= i <= j < out@.len() ==> out@[i] <= out@[j],
{
    values.iter().copied().sorted().collect()
}

/// The value of each rank of `xs`, in the order of `xs`.
fn rank_values(xs: &[Rank]) -> (values: Vec<u8>)
    ensures
        values@.len() == xs@.len(),
        forall|i: int| 0 <= i < xs@.len() ==> values@[i] == xs@[i].value(),
{
    let mut values: Vec<u8> = Vec::new();
    let mut i: usize = 0;
    while i < xs.len()
        invariant
            i <= xs@.len(),
            values@.len() == i,
            forall|k: int| 0 <= k < i ==> values@[k] == xs@[k].value(),
        decreases xs@.len() - i,
    {
        values.push(xs[i].value());
        i += 1;
    }
    values
}

/// The values of the ranks of `xs` in ascending order: the descending
/// layout of `xs` read from its end.
fn ascending_values(xs: &[Rank]) -> (out: Vec<u8>)
    ensures
        out@.len() == xs@.len(),
        forall|i: int|
            0 <= i < out@.len() ==> out@[out@.len() - 1 - i] == (#[trigger] descending(
                xs@,
            )[i]).value(),
{
    let values = rank_values(xs);
    let out = sorted_ascending(&values);
    proof {
        let n = out@.len();
        to_multiset_len(out@);
        to_multiset_len(values@);
        let backwards = out@.reverse();
        let ranks = Seq::new(n, |i: int| Rank::with_value(backwards[i]));
        assert forall|i: int| 0 <= i < n implies backwards[i] == (#[trigger] ranks[i]).value() by {
            to_multiset_contains(out@, backwards[i]);
            to_multiset_contains(values@, backwards[i]);
        }
        assert forall|r: Rank| ranks.to_multiset().count(r) == xs@.to_multiset().count(r) by {
            lemma_count_by_value(ranks, backwards, r);
            lemma_count_by_value(xs@, values@, r);
            out@.lemma_reverse_to_multiset();
        }
        assert(ranks.to_multiset() =~= xs@.to_multiset());
        assert(sorted_by(ranks, at_least()));
        lemma_descending_is_unique(xs@, ranks);
    }
    out
}

/// Compares two kicker arrays of one length as multisets: each is sorted,
/// and the two are compared from the highest rank down until one position
/// differs. The order in which either array holds its ranks has no part in
/// the result, and only the same multiset on both sides gives `Equal`.
pub fn compare_extra(xs: &[Rank], ys: &[Rank]) -> (ord: Ordering)
    requires
        xs@.len() == ys@.len(),
    ensures
        ord == kicker_order(xs@, ys@),
        ord == Ordering::Equal <==> xs@.to_multiset() == ys@.to_multiset(),
{
    let a = ascending_values(xs);
    let b = ascending_values(ys);
    let n: usize = a.len();
    let ghost da = descending(xs@);
    let ghost db = descending(ys@);
    proof {
        lemma_descending(xs@);
        lemma_descending(ys@);
        lemma_kicker_order_equal(xs@, ys@);
        assert(da.skip(0) =~= da);
        assert(db.skip(0) =~= db);
    }
    let mut i: usize = n;
    while i > 0
        invariant
            i <= n,
            da == descending(xs@),
            db == descending(ys@),
            kicker_order(xs@, ys@) == Ordering::Equal <==> xs@.to_multiset() == ys@.to_multiset(),
            a@.len() == n,
            b@.len() == n,
            da.len() == n,
            db.len() == n,
            forall|k: int| 0 <= k < n ==> a@[n - 1 - k] == (#[trigger] da[k]).value(),
            forall|k: int| 0 <= k < n ==> b@[n - 1 - k] == (#[trigger] db[k]).value(),
            first_difference(da, db) == first_difference(da.skip(n - i), db.skip(n - i)),
        decreases i,
    {
        i -= 1;
        let x: u8 = a[i];
        let y: u8 = b[i];
        proof {
            let p = n - 1 - i;
            assert(da.skip(p).drop_first() =~= da.skip(p + 1));
            assert(db.skip(p).drop_first() =~= db.skip(p + 1));
        }
        if x < y {
            return Ordering::Less;
        }
        if x > y {
            return Ordering::Greater;
        }
    }
    Ordering::Equal
}

} // verus!
