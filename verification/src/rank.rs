//! Rating-to-rank-tier classification.
//!
//! A rating is mapped to the first entry of a fixed descending threshold
//! table that it reaches. The top "Vanquisher" tier is entered by values
//! that carry an additive display offset; the offset is handled at render
//! time, not here.

use vstd::prelude::*;

verus! {

/// The classified rank tier of a rating value.
pub struct RankInfo {
    pub name: String,
}

/// Tier index of a rating: 0 is the catch-all "Placement" tier (which also
/// absorbs every negative value), 19 the top "Vanquisher" tier.
pub open spec fn rank_tier(r: int) -> int {
    if r >= 45000 {
        19
    } else if r >= 40800 {
        18
    } else if r >= 36000 {
        17
    } else if r >= 32400 {
        16
    } else if r >= 28400 {
        15
    } else if r >= 24400 {
        14
    } else if r >= 20400 {
        13
    } else if r >= 18000 {
        12
    } else if r >= 15600 {
        11
    } else if r >= 13200 {
        10
    } else if r >= 11000 {
        9
    } else if r >= 8800 {
        8
    } else if r >= 6600 {
        7
    } else if r >= 5400 {
        6
    } else if r >= 4200 {
        5
    } else if r >= 3000 {
        4
    } else if r >= 2000 {
        3
    } else if r >= 1000 {
        2
    } else if r >= 1 {
        1
    } else {
        0
    }
}

/// The display label of a tier index.
pub open spec fn tier_label(t: int) -> Seq<char> {
    if t == 19 {
        "Vanquisher"@
    } else if t == 18 {
        "Diamond 3"@
    } else if t == 17 {
        "Diamond 2"@
    } else if t == 16 {
        "Diamond 1"@
    } else if t == 15 {
        "Platinum 3"@
    } else if t == 14 {
        "Platinum 2"@
    } else if t == 13 {
        "Platinum 1"@
    } else if t == 12 {
        "Gold 3"@
    } else if t == 11 {
        "Gold 2"@
    } else if t == 10 {
        "Gold 1"@
    } else if t == 9 {
        "Silver 3"@
    } else if t == 8 {
        "Silver 2"@
    } else if t == 7 {
        "Silver 1"@
    } else if t == 6 {
        "Bronze 3"@
    } else if t == 5 {
        "Bronze 2"@
    } else if t == 4 {
        "Bronze 1"@
    } else if t == 3 {
        "Iron 3"@
    } else if t == 2 {
        "Iron 2"@
    } else if t == 1 {
        "Iron 1"@
    } else {
        "Placement"@
    }
}

/// The rank label of a rating value: the label of its tier.
pub open spec fn rank_label(r: int) -> Seq<char> {
    tier_label(rank_tier(r))
}

/// Classify a rating value into its rank tier.
pub fn get_rank_from_rating(rating: i64) -> (r: RankInfo)
    ensures
        r.name@ == rank_label(rating as int),
{
    let name: &str = if rating >= 45000 {
        "Vanquisher"
    } else if rating >= 40800 {
        "Diamond 3"
    } else if rating >= 36000 {
        "Diamond 2"
    } else if rating >= 32400 {
        "Diamond 1"
    } else if rating >= 28400 {
        "Platinum 3"
    } else if rating >= 24400 {
        "Platinum 2"
    } else if rating >= 20400 {
        "Platinum 1"
    } else if rating >= 18000 {
        "Gold 3"
    } else if rating >= 15600 {
        "Gold 2"
    } else if rating >= 13200 {
        "Gold 1"
    } else if rating >= 11000 {
        "Silver 3"
    } else if rating >= 8800 {
        "Silver 2"
    } else if rating >= 6600 {
        "Silver 1"
    } else if rating >= 5400 {
        "Bronze 3"
    } else if rating >= 4200 {
        "Bronze 2"
    } else if rating >= 3000 {
        "Bronze 1"
    } else if rating >= 2000 {
        "Iron 3"
    } else if rating >= 1000 {
        "Iron 2"
    } else if rating >= 1 {
        "Iron 1"
    } else {
        "Placement"
    };
    RankInfo { name: name.to_owned() }
}

/// The threshold table is exhaustive and total: every rating value falls in
/// exactly one of the twenty tiers; every value at or above the top
/// threshold is "Vanquisher", and values in [0, 1) are "Placement".
pub proof fn lemma_classify_total(r: int)
    ensures
        0 <= rank_tier(r) <= 19,
        rank_label(r) == tier_label(rank_tier(r)),
        r >= 45000 ==> rank_label(r) == "Vanquisher"@,
        0 <= r < 1 ==> rank_label(r) == "Placement"@,
{
}

/// Classification is monotonic: a rating at least as high never lands in a
/// lower tier.
pub proof fn lemma_classify_monotonic(r1: int, r2: int)
    requires
        r1 >= r2,
    ensures
        rank_tier(r1) >= rank_tier(r2),
{
}

} // verus!
