//! The laws of the order on hands: it is total, it agrees with the
//! precedence of the categories, and it does not see the order of kickers.

use std::cmp::Ordering;
use vstd::prelude::*;

use crate::card::Rank;
use crate::combination::Combination;
use crate::kickers::{
    kicker_order, lemma_kicker_order_ignores_order, lemma_kicker_order_mirror,
    lemma_kicker_order_reflexive, lemma_kicker_order_transitive,
};
use crate::order::opposite;

verus! {

/// Every hand ties with itself.
pub proof fn lemma_order_reflexive(x: Combination)
    ensures
        x.order(x) == Ordering::Equal,
{
    match x {
        Combination::Pair { extra, .. } => lemma_kicker_order_reflexive(extra@),
        Combination::TwoPairs { extra, .. } => lemma_kicker_order_reflexive(extra@),
        Combination::ThreeOfAKind { extra, .. } => lemma_kicker_order_reflexive(extra@),
        Combination::FourOfAKind { extra, .. } => lemma_kicker_order_reflexive(extra@),
        _ => {},
    }
}

/// Where `x` is below `y`, `y` is above `x`, and the other way round; a tie
/// is a tie from both sides.
pub proof fn lemma_order_antisymmetric(x: Combination, y: Combination)
    ensures
        y.order(x) == opposite(x.order(y)),
        x.order(y) == Ordering::Less <==> y.order(x) == Ordering::Greater,
        x.order(y) == Ordering::Greater <==> y.order(x) == Ordering::Less,
        x.order(y) == Ordering::Equal <==> y.order(x) == Ordering::Equal,
{
    match (x, y) {
        (Combination::Pair { extra: xs, .. }, Combination::Pair { extra: ys, .. }) => {
            lemma_kicker_order_mirror(xs@, ys@)
        },
        (Combination::TwoPairs { extra: xs, .. }, Combination::TwoPairs { extra: ys, .. }) => {
            lemma_kicker_order_mirror(xs@, ys@)
        },
        (
            Combination::ThreeOfAKind { extra: xs, .. },
            Combination::ThreeOfAKind { extra: ys, .. },
        ) => lemma_kicker_order_mirror(xs@, ys@),
        (
            Combination::FourOfAKind { extra: xs, .. },
            Combination::FourOfAKind { extra: ys, .. },
        ) => lemma_kicker_order_mirror(xs@, ys@),
        _ => {},
    }
}

/// Where the kickers on both steps are in order, they are in order across.
proof fn lemma_kickers_chain(xs: Seq<Rank>, ys: Seq<Rank>, zs: Seq<Rank>)
    requires
        xs.len() == ys.len(),
        ys.len() == zs.len(),
    ensures
        kicker_order(xs, ys) != Ordering::Greater && kicker_order(ys, zs) != Ordering::Greater ==> {
            &&& kicker_order(xs, zs) != Ordering::Greater
            &&& (kicker_order(xs, ys) == Ordering::Less || kicker_order(ys, zs) == Ordering::Less
                ==> kicker_order(xs, zs) == Ordering::Less)
        },
{
    if kicker_order(xs, ys) != Ordering::Greater && kicker_order(ys, zs) != Ordering::Greater {
        lemma_kicker_order_transitive(xs, ys, zs);
    }
}

/// Where `x` is not above `y` and `y` is not above `z`, `x` is not above
/// `z`; and where one of the two steps is strict, `x` is below `z`.
pub proof fn lemma_order_transitive(x: Combination, y: Combination, z: Combination)
    requires
        x.order(y) != Ordering::Greater,
        y.order(z) != Ordering::Greater,
    ensures
        x.order(z) != Ordering::Greater,
        x.order(y) == Ordering::Less || y.order(z) == Ordering::Less ==> x.order(z)
            == Ordering::Less,
{
    match (x, y, z) {
        (
            Combination::Pair { extra: xs, .. },
            Combination::Pair { extra: ys, .. },
            Combination::Pair { extra: zs, .. },
        ) => lemma_kickers_chain(xs@, ys@, zs@),
        (
            Combination::TwoPairs { extra: xs, .. },
            Combination::TwoPairs { extra: ys, .. },
            Combination::TwoPairs { extra: zs, .. },
        ) => lemma_kickers_chain(xs@, ys@, zs@),
        (
            Combination::ThreeOfAKind { extra: xs, .. },
            Combination::ThreeOfAKind { extra: ys, .. },
            Combination::ThreeOfAKind { extra: zs, .. },
        ) => lemma_kickers_chain(xs@, ys@, zs@),
        (
            Combination::FourOfAKind { extra: xs, .. },
            Combination::FourOfAKind { extra: ys, .. },
            Combination::FourOfAKind { extra: zs, .. },
        ) => lemma_kickers_chain(xs@, ys@, zs@),
        _ => {},
    }
}

/// Two hands that tie compare alike with every third hand.
pub proof fn lemma_ties_compare_alike(x: Combination, y: Combination, z: Combination)
    requires
        x.order(y) == Ordering::Equal,
    ensures
        x.order(z) == y.order(z),
        z.order(x) == z.order(y),
{
    lemma_order_antisymmetric(x, y);
    lemma_order_antisymmetric(x, z);
    lemma_order_antisymmetric(y, z);
    if y.order(z) != Ordering::Greater {
        lemma_order_transitive(x, y, z);
    }
    if x.order(z) != Ordering::Greater {
        lemma_order_transitive(y, x, z);
    }
}

/// Hands of two categories are ordered as the categories are, whatever
/// ranks they hold.
pub proof fn lemma_category_decides(x: Combination, y: Combination)
    requires
        x.category() != y.category(),
    ensures
        x.category() < y.category() ==> x.order(y) == Ordering::Less,
        x.category() > y.category() ==> x.order(y) == Ordering::Greater,
{
}

/// The wheel is the weakest straight and the weakest straight flush: it is
/// below each one tagged with another rank, from either side.
pub proof fn lemma_wheel_is_lowest(rank: Rank)
    requires
        rank != Rank::Ace,
    ensures
        (Combination::Straight { rank: Rank::Ace }).order(Combination::Straight { rank })
            == Ordering::Less,
        (Combination::Straight { rank }).order(Combination::Straight { rank: Rank::Ace })
            == Ordering::Greater,
        (Combination::StraightFlush { rank: Rank::Ace }).order(
            Combination::StraightFlush { rank },
        ) == Ordering::Less,
        (Combination::StraightFlush { rank }).order(
            Combination::StraightFlush { rank: Rank::Ace },
        ) == Ordering::Greater,
{
}

/// A hand and the same hand with its kickers in another order tie, and
/// compare alike with every third hand, from either side.
pub proof fn lemma_kicker_order_is_ignored(x: Combination, permuted: Combination, z: Combination)
    requires
        x.permutes_kickers(permuted),
    ensures
        x.order(permuted) == Ordering::Equal,
        permuted.order(z) == x.order(z),
        z.order(permuted) == z.order(x),
{
    lemma_order_reflexive(x);
    match (x, permuted) {
        (Combination::Pair { extra: xs, .. }, Combination::Pair { extra: ys, .. }) => {
            lemma_kicker_order_ignores_order(xs@, ys@, xs@)
        },
        (Combination::TwoPairs { extra: xs, .. }, Combination::TwoPairs { extra: ys, .. }) => {
            lemma_kicker_order_ignores_order(xs@, ys@, xs@)
        },
        (
            Combination::ThreeOfAKind { extra: xs, .. },
            Combination::ThreeOfAKind { extra: ys, .. },
        ) => lemma_kicker_order_ignores_order(xs@, ys@, xs@),
        (
            Combination::FourOfAKind { extra: xs, .. },
            Combination::FourOfAKind { extra: ys, .. },
        ) => lemma_kicker_order_ignores_order(xs@, ys@, xs@),
        _ => {},
    }
    lemma_ties_compare_alike(x, permuted, z);
}

} // verus!
