//! A total order over classified five-card poker hands.
//!
//! A [`Combination`](combination::Combination) names the category of a hand
//! (high card up to straight flush) together with the ranks that break ties
//! inside that category. The order is by category first, then by the ranks
//! that define the category, then by the kickers taken as a multiset.

pub mod card;
pub mod combination;
pub mod kickers;
pub mod laws;
pub mod order;

pub use card::Rank;
pub use combination::Combination;
pub use kickers::compare_extra;
