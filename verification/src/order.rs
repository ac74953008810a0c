//! Three-way comparison in specifications.

use std::cmp::Ordering;
use vstd::prelude::*;

verus! {

/// The three-way comparison of two small numbers.
pub open spec fn value_order(a: u8, b: u8) -> Ordering {
    if a < b {
        Ordering::Less
    } else if a > b {
        Ordering::Greater
    } else {
        Ordering::Equal
    }
}

/// The same comparison seen from the other side: `Less` for `Greater` and
/// `Greater` for `Less`.
pub open spec fn opposite(ord: Ordering) -> Ordering {
    match ord {
        Ordering::Less => Ordering::Greater,
        Ordering::Equal => Ordering::Equal,
        Ordering::Greater => Ordering::Less,
    }
}

/// `first` where it decides, `second` where `first` is a tie.
pub open spec fn break_tie(first: Ordering, second: Ordering) -> Ordering {
    if first == Ordering::Equal {
        second
    } else {
        first
    }
}

} // verus!
