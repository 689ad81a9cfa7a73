//! The rating ledger: one rating byte per account, defaulting to zero, and
//! the non-linear blend that folds a new score into it.

use std::collections::HashMap;
use vstd::prelude::*;

verus! {

/// The rating of account `account` in the map `m`: an account that was never
/// rated has rating `0`.
pub open spec fn rating_of(m: Map<u64, u8>, account: u64) -> u8 {
    if m.contains_key(account) {
        m[account]
    } else {
        0
    }
}

/// The blend of a prior rating with a fresh score. The first score an account
/// earns becomes its rating outright; afterwards history is weighted five to
/// one against the latest score, with truncating integer division.
pub open spec fn blended_rating(prior: u8, score: u8) -> u8 {
    if prior == 0 {
        score
    } else {
        ((prior as int * 5 + score as int) / 6) as u8
    }
}

/// Owns the rating of every account that has ever been rated.
pub struct RatingLedger {
    pub ratings: HashMap<u64, u8>,
}

impl View for RatingLedger {
    type V = Map<u64, u8>;

    open spec fn view(&self) -> Map<u64, u8> {
        self.ratings@
    }
}

impl RatingLedger {
    /// An empty ledger: every account rates `0`.
    pub fn new() -> (ledger: RatingLedger)
        ensures
            ledger@ == Map::<u64, u8>::empty(),
    {
        RatingLedger { ratings: HashMap::new() }
    }

    /// The rating of `account`, `0` if it was never rated.
    pub fn get_user_rating(&self, account: u64) -> (rating: u8)
        ensures
            rating == rating_of(self@, account),
    {
        match self.ratings.get(&account) {
            Some(r) => *r,
            None => 0,
        }
    }

    /// Folds `current_score` into the rating of `user` by the blending rule.
    pub fn update_rating(&mut self, user: u64, current_score: u8)
        ensures
            final(self)@ == old(self)@.insert(
                user,
                blended_rating(rating_of(old(self)@, user), current_score),
            ),
    {
        let prior = self.get_user_rating(user);
        let total: u16 = if prior == 0 {
            1
        } else {
            6
        };
        let blended: u16 = (prior as u16 * 5 + current_score as u16) / total;
        assert(blended <= 255);
        self.ratings.insert(user, blended as u8);
    }
}

} // verus!
