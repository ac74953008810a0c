//! Classified hands and their order.

use std::cmp::Ordering;
use vstd::prelude::*;
use vstd::std_specs::cmp::{PartialEqSpecImpl, PartialOrdSpecImpl};

use crate::card::Rank;
use crate::kickers::{compare_extra, kicker_order};
use crate::order::{break_tie, value_order};

verus! {

/// The category of a five-card hand, with the ranks that decide between two
/// hands of that category. The variants are declared from the weakest
/// category to the strongest.
///
/// The kickers in `extra` are a multiset: the order in which the array
/// holds them has no meaning. A `Straight` or `StraightFlush` tagged `Ace`
/// is the wheel (ace to five), the weakest of its category.
///
/// `==` and `<` go by [`Combination::order`], so two values that differ
/// only in the order of their kickers are equal.
#[derive(Clone, Copy, Debug)]
#[allow(inconsistent_fields)]
pub enum Combination {
    HighCard { rank: Rank },
    Pair { rank: Rank, extra: [Rank; 3] },
    TwoPairs { low: Rank, high: Rank, extra: [Rank; 1] },
    ThreeOfAKind { rank: Rank, extra: [Rank; 2] },
    Straight { rank: Rank },
    Flush { rank: Rank },
    FullHouse { two: Rank, three: Rank },
    FourOfAKind { rank: Rank, extra: [Rank; 1] },
    StraightFlush { rank: Rank },
}

/// The order of two straights by the rank they are tagged with: the wheel,
/// tagged `Ace`, is below every other straight and equal to itself alone;
/// two other straights compare as their ranks do.
pub open spec fn straight_order(a: Rank, b: Rank) -> Ordering {
    if a == Rank::Ace && b == Rank::Ace {
        Ordering::Equal
    } else if a == Rank::Ace {
        Ordering::Less
    } else if b == Rank::Ace {
        Ordering::Greater
    } else {
        a.order(b)
    }
}

impl Combination {
    /// The place of the category in the precedence: 0 for a high card, up
    /// to 8 for a straight flush.
    pub open spec fn spec_category(self) -> u8 {
        match self {
            Combination::HighCard { .. } => 0,
            Combination::Pair { .. } => 1,
            Combination::TwoPairs { .. } => 2,
            Combination::ThreeOfAKind { .. } => 3,
            Combination::Straight { .. } => 4,
            Combination::Flush { .. } => 5,
            Combination::FullHouse { .. } => 6,
            Combination::FourOfAKind { .. } => 7,
            Combination::StraightFlush { .. } => 8,
        }
    }

    /// `other` is `self` with its kickers in some other order, or `self`
    /// itself.
    pub open spec fn permutes_kickers(self, other: Combination) -> bool {
        match (self, other) {
            (
                Combination::Pair { rank: a, extra: xs },
                Combination::Pair { rank: b, extra: ys },
            ) => a == b && xs@.to_multiset() == ys@.to_multiset(),
            (
                Combination::TwoPairs { low: low_a, high: high_a, extra: xs },
                Combination::TwoPairs { low: low_b, high: high_b, extra: ys },
            ) => low_a == low_b && high_a == high_b && xs@.to_multiset() == ys@.to_multiset(),
            (
                Combination::ThreeOfAKind { rank: a, extra: xs },
                Combination::ThreeOfAKind { rank: b, extra: ys },
            ) => a == b && xs@.to_multiset() == ys@.to_multiset(),
            (
                Combination::FourOfAKind { rank: a, extra: xs },
                Combination::FourOfAKind { rank: b, extra: ys },
            ) => a == b && xs@.to_multiset() == ys@.to_multiset(),
            _ => self == other,
        }
    }

    /// The order of two hands. Hands of one category are told apart by the
    /// ranks of that category, the more telling first, and then by their
    /// kickers; hands of two categories by the precedence of the
    /// categories alone.
    pub open spec fn order(self, other: Combination) -> Ordering {
        match (self, other) {
            (Combination::HighCard { rank: a }, Combination::HighCard { rank: b }) => a.order(b),
            (
                Combination::Pair { rank: a, extra: xs },
                Combination::Pair { rank: b, extra: ys },
            ) => break_tie(a.order(b), kicker_order(xs@, ys@)),
            (
                Combination::TwoPairs { low: low_a, high: high_a, extra: xs },
                Combination::TwoPairs { low: low_b, high: high_b, extra: ys },
            ) => break_tie(
                high_a.order(high_b),
                break_tie(low_a.order(low_b), kicker_order(xs@, ys@)),
            ),
            (
                Combination::ThreeOfAKind { rank: a, extra: xs },
                Combination::ThreeOfAKind { rank: b, extra: ys },
            ) => break_tie(a.order(b), kicker_order(xs@, ys@)),
            (Combination::Straight { rank: a }, Combination::Straight { rank: b }) => straight_order(
                a,
                b,
            ),
            (Combination::Flush { rank: a }, Combination::Flush { rank: b }) => a.order(b),
            (
                Combination::FullHouse { two: two_a, three: three_a },
                Combination::FullHouse { two: two_b, three: three_b },
            ) => break_tie(three_a.order(three_b), two_a.order(two_b)),
            (
                Combination::FourOfAKind { rank: a, extra: xs },
                Combination::FourOfAKind { rank: b, extra: ys },
            ) => break_tie(a.order(b), kicker_order(xs@, ys@)),
            (
                Combination::StraightFlush { rank: a },
                Combination::StraightFlush { rank: b },
            ) => straight_order(a, b),
            _ => value_order(self.category(), other.category()),
        }
    }

    /// The place of the category in the precedence: 0 for a high card, up
    /// to 8 for a straight flush.
    #[verifier::when_used_as_spec(spec_category)]
    pub fn category(self) -> (c: u8)
        ensures
            c == self.category(),
            c <= 8,
    {
        match self {
            Combination::HighCard { .. } => 0,
            Combination::Pair { .. } => 1,
            Combination::TwoPairs { .. } => 2,
            Combination::ThreeOfAKind { .. } => 3,
            Combination::Straight { .. } => 4,
            Combination::Flush { .. } => 5,
            Combination::FullHouse { .. } => 6,
            Combination::FourOfAKind { .. } => 7,
            Combination::StraightFlush { .. } => 8,
        }
    }

    /// Compares two hands: `Less` where `self` is the weaker.
    pub fn cmp(&self, other: &Combination) -> (ord: Ordering)
        ensures
            ord == self.order(*other),
            self.category() < other.category() ==> ord == Ordering::Less,
            self.category() > other.category() ==> ord == Ordering::Greater,
    {
        self.partial_cmp(other).unwrap()
    }
}

/// Compares two straights by their tags, with the wheel below the others.
fn compare_straights(a: &Rank, b: &Rank) -> (ord: Option<Ordering>)
    ensures
        ord == Some(straight_order(*a, *b)),
{
    match a {
        Rank::Ace => match b {
            Rank::Ace => Some(Ordering::Equal),
            _ => Some(Ordering::Less),
        },
        _ => match b {
            Rank::Ace => Some(Ordering::Greater),
            _ => a.partial_cmp(b),
        },
    }
}

impl PartialOrd for Combination {
    /// Compares two hands; the result is never `None`.
    fn partial_cmp(&self, other: &Combination) -> (ord: Option<Ordering>)
        ensures
            ord == Some(self.order(*other)),
    {
        match (self, other) {
            (Combination::HighCard { rank: a }, Combination::HighCard { rank: b }) => {
                a.partial_cmp(b)
            },
            (
                Combination::Pair { rank: a, extra: xs },
                Combination::Pair { rank: b, extra: ys },
            ) => match a.partial_cmp(b) {
                Some(Ordering::Equal) => Some(compare_extra(xs, ys)),
                ord => ord,
            },
            (
                Combination::TwoPairs { low: low_a, high: high_a, extra: xs },
                Combination::TwoPairs { low: low_b, high: high_b, extra: ys },
            ) => match high_a.partial_cmp(high_b) {
                Some(Ordering::Equal) => match low_a.partial_cmp(low_b) {
                    Some(Ordering::Equal) => Some(compare_extra(xs, ys)),
                    ord => ord,
                },
                ord => ord,
            },
            (
                Combination::ThreeOfAKind { rank: a, extra: xs },
                Combination::ThreeOfAKind { rank: b, extra: ys },
            ) => match a.partial_cmp(b) {
                Some(Ordering::Equal) => Some(compare_extra(xs, ys)),
                ord => ord,
            },
            (Combination::Straight { rank: a }, Combination::Straight { rank: b }) => {
                compare_straights(a, b)
            },
            (Combination::Flush { rank: a }, Combination::Flush { rank: b }) => a.partial_cmp(b),
            (
                Combination::FullHouse { two: two_a, three: three_a },
                Combination::FullHouse { two: two_b, three: three_b },
            ) => match three_a.partial_cmp(three_b) {
                Some(Ordering::Equal) => two_a.partial_cmp(two_b),
                ord => ord,
            },
            (
                Combination::FourOfAKind { rank: a, extra: xs },
                Combination::FourOfAKind { rank: b, extra: ys },
            ) => match a.partial_cmp(b) {
                Some(Ordering::Equal) => Some(compare_extra(xs, ys)),
                ord => ord,
            },
            (
                Combination::StraightFlush { rank: a },
                Combination::StraightFlush { rank: b },
            ) => compare_straights(a, b),
            _ => {
                if self.category() < other.category() {
                    Some(Ordering::Less)
                } else {
                    Some(Ordering::Greater)
                }
            },
        }
    }
}

impl PartialOrdSpecImpl for Combination {
    open spec fn obeys_partial_cmp_spec() -> bool {
        true
    }

    open spec fn partial_cmp_spec(&self, other: &Combination) -> Option<Ordering> {
        Some(self.order(*other))
    }
}

impl PartialEq for Combination {
    /// Whether two hands tie.
    fn eq(&self, other: &Combination) -> (same: bool)
        ensures
            same <==> self.order(*other) == Ordering::Equal,
    {
        match self.partial_cmp(other) {
            Some(Ordering::Equal) => true,
            _ => false,
        }
    }
}

impl PartialEqSpecImpl for Combination {
    open spec fn obeys_eq_spec() -> bool {
        true
    }

    open spec fn eq_spec(&self, other: &Combination) -> bool {
        self.order(*other) == Ordering::Equal
    }
}

impl Eq for Combination {

}

} // verus!
