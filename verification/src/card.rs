//! Card ranks and their order, ace high.

use std::cmp::Ordering;
use vstd::prelude::*;
use vstd::std_specs::cmp::PartialOrdSpecImpl;

use crate::order::value_order;

verus! {

/// The face value of a card. The variants are declared from the lowest to
/// the highest, so the derived `Ord` agrees with [`Rank::value`].
#[derive(Clone, Copy, Debug, PartialEq, Eq, Structural, Hash, Ord)]
pub enum Rank {
    Two,
    Three,
    Four,
    Five,
    Six,
    Seven,
    Eight,
    Nine,
    Ten,
    Jack,
    Queen,
    King,
    Ace,
}

impl Rank {
    /// The number printed on the card, with the court cards and the ace
    /// counted on from ten: 2 for `Two` up to 14 for `Ace`.
    pub open spec fn spec_value(self) -> u8 {
        match self {
            Rank::Two => 2,
            Rank::Three => 3,
            Rank::Four => 4,
            Rank::Five => 5,
            Rank::Six => 6,
            Rank::Seven => 7,
            Rank::Eight => 8,
            Rank::Nine => 9,
            Rank::Ten => 10,
            Rank::Jack => 11,
            Rank::Queen => 12,
            Rank::King => 13,
            Rank::Ace => 14,
        }
    }

    /// The rank whose value is `v`; `Two` where there is none.
    pub open spec fn with_value(v: u8) -> Rank {
        if v == 3 {
            Rank::Three
        } else if v == 4 {
            Rank::Four
        } else if v == 5 {
            Rank::Five
        } else if v == 6 {
            Rank::Six
        } else if v == 7 {
            Rank::Seven
        } else if v == 8 {
            Rank::Eight
        } else if v == 9 {
            Rank::Nine
        } else if v == 10 {
            Rank::Ten
        } else if v == 11 {
            Rank::Jack
        } else if v == 12 {
            Rank::Queen
        } else if v == 13 {
            Rank::King
        } else if v == 14 {
            Rank::Ace
        } else {
            Rank::Two
        }
    }

    /// The order of two ranks: that of their values, so the ace is high.
    pub open spec fn order(self, other: Rank) -> Ordering {
        value_order(self.value(), other.value())
    }

    /// The value of the rank, from 2 for `Two` to 14 for `Ace`.
    #[verifier::when_used_as_spec(spec_value)]
    pub fn value(self) -> (v: u8)
        ensures
            v == self.value(),
            2 <= v <= 14,
    {
        match self {
            Rank::Two => 2,
            Rank::Three => 3,
            Rank::Four => 4,
            Rank::Five => 5,
            Rank::Six => 6,
            Rank::Seven => 7,
            Rank::Eight => 8,
            Rank::Nine => 9,
            Rank::Ten => 10,
            Rank::Jack => 11,
            Rank::Queen => 12,
            Rank::King => 13,
            Rank::Ace => 14,
        }
    }
}

impl PartialOrd for Rank {
    /// Compares two ranks by their values; the result is never `None`.
    fn partial_cmp(&self, other: &Rank) -> (ord: Option<Ordering>)
        ensures
            ord == Some(self.order(*other)),
    {
        let a: u8 = self.value();
        let b: u8 = other.value();
        if a < b {
            Some(Ordering::Less)
        } else if a > b {
            Some(Ordering::Greater)
        } else {
            Some(Ordering::Equal)
        }
    }
}

impl PartialOrdSpecImpl for Rank {
    open spec fn obeys_partial_cmp_spec() -> bool {
        true
    }

    open spec fn partial_cmp_spec(&self, other: &Rank) -> Option<Ordering> {
        Some(self.order(*other))
    }
}

} // verus!
