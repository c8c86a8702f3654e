//! The player record as decoded from the upstream statistics API.
//!
//! Every field is held as a plain value; fractional quantities that the
//! wire may carry as floating point (ratings of the continuous variants,
//! deviations, top-rating summaries) are kept in tenths of a point, which
//! is the precision the output documents show.

use vstd::prelude::*;

verus! {

/// A small label attached to a player.
pub struct Tag {
    pub tag: String,
    pub style: String,
}

/// The strongest opponent defeated with a character.
pub struct TopDefeated {
    pub timestamp: String,
    pub id: u64,
    pub name: String,
    pub char_short: String,
    /// Opponent rating in tenths of a point.
    pub value: i64,
}

/// The best rating ever reached with a character.
pub struct TopRating {
    pub timestamp: String,
    /// Rating in tenths of a point.
    pub value: i64,
}

/// One per-character rating entry of a player.
pub struct Rating {
    /// The raw numeric rating as received: integer rating points in the
    /// graded variant, tenths of a point in the continuous variants.
    pub rating: i64,
    /// Uncertainty measure in tenths of a point; zero where the wire shape
    /// carries none.
    pub deviation: i64,
    /// The lookup key: an abbreviated character identifier.
    pub char_short: String,
    /// The character's full display name.
    pub character: String,
    pub match_count: u32,
    pub top_char: u32,
    pub top_defeated: TopDefeated,
    pub top_rating: TopRating,
}

/// A player record.
pub struct Player {
    pub id: u64,
    pub name: String,
    /// Rating entries in the order received; lookup takes the first match.
    pub ratings: Vec<Rating>,
    pub platform: String,
    pub top_global: u32,
    pub tags: Vec<Tag>,
}

} // verus!
