//! Selection of the rating entry for a requested character.

use vstd::prelude::*;
use crate::model::{Player, Rating};

verus! {

/// Index of the first rating entry whose character short-code equals
/// `code`, or -1 if no entry matches.
pub open spec fn first_match(ratings: Seq<Rating>, code: Seq<char>) -> int
    decreases ratings.len(),
{
    if ratings.len() == 0 {
        -1
    } else if ratings[0].char_short@ == code {
        0
    } else {
        let k = first_match(ratings.drop_first(), code);
        if k == -1 {
            -1
        } else {
            k + 1
        }
    }
}

/// `first_match` picks exactly the first matching index: it is -1 precisely
/// when no entry carries the requested short-code, and otherwise it is in
/// range, its entry matches, and no earlier entry does.
pub proof fn lemma_first_match_spec(ratings: Seq<Rating>, code: Seq<char>)
    ensures
        (first_match(ratings, code) == -1) <==> (forall|j: int|
            0 <= j < ratings.len() ==> ratings[j].char_short@ != code),
        first_match(ratings, code) != -1 ==> {
            let k = first_match(ratings, code);
            &&& 0 <= k < ratings.len()
            &&& ratings[k].char_short@ == code
            &&& forall|j: int| 0 <= j < k ==> ratings[j].char_short@ != code
        },
    decreases ratings.len(),
{
    if ratings.len() == 0 {
    } else if ratings[0].char_short@ == code {
    } else {
        let tail = ratings.drop_first();
        lemma_first_match_spec(tail, code);
        assert(forall|j: int| 1 <= j < ratings.len() ==> ratings[j] == tail[j - 1]);
        let k = first_match(tail, code);
        if k == -1 {
            assert(forall|j: int| 0 <= j < ratings.len() ==> ratings[j].char_short@ != code);
        } else {
            assert(ratings[k + 1].char_short@ == code);
            assert(forall|j: int| 0 <= j < k + 1 ==> ratings[j].char_short@ != code);
        }
    }
}

/// Find the first rating entry whose short-code equals `char_id` exactly
/// (case-sensitive). Returns `None` when no entry matches; it never falls
/// back to a default entry.
pub fn select<'a>(player: &'a Player, char_id: &String) -> (r: Option<&'a Rating>)
    ensures
        match r {
            Some(entry) => {
                &&& first_match(player.ratings@, char_id@) >= 0
                &&& *entry == player.ratings@[first_match(player.ratings@, char_id@)]
            },
            None => first_match(player.ratings@, char_id@) == -1,
        },
{
    let n: usize = player.ratings.len();
    let mut i: usize = 0;
    while i < n
        invariant
            n == player.ratings@.len(),
            0 <= i <= n,
            forall|j: int| 0 <= j < i ==> player.ratings@[j].char_short@ != char_id@,
        decreases n - i,
    {
        if player.ratings[i].char_short == *char_id {
            proof {
                lemma_first_match_spec(player.ratings@, char_id@);
            }
            return Some(&player.ratings[i]);
        }
        i += 1;
    }
    proof {
        lemma_first_match_spec(player.ratings@, char_id@);
    }
    None
}

} // verus!
