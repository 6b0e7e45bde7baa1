//! The three record kinds the engine operates on, their invariants, and the
//! error taxonomy.

use vstd::prelude::*;

verus! {

/// Lowest star value a vote may carry.
pub const MIN_RATING: u8 = 1;

/// Highest star value a vote may carry.
pub const MAX_RATING: u8 = 5;

/// Longest review text accepted, counted in characters.
pub const MAX_REVIEW_LEN: usize = 500;

/// A caller identity: 256 bits held as four 64-bit words.  The engine never
/// interprets it; it is a key component, stored verbatim.  The all-zero
/// identity is the null identity, which the persistence layer hands out for
/// records that were never written.
#[derive(Clone, Copy, PartialEq, Eq, Structural, Hash, Debug)]
pub struct UserId {
    pub w0: u64,
    pub w1: u64,
    pub w2: u64,
    pub w3: u64,
}

impl UserId {
    /// The null identity: all four words zero.
    pub open spec fn spec_null() -> UserId {
        UserId { w0: 0, w1: 0, w2: 0, w3: 0 }
    }

    pub fn null() -> (r: UserId)
        ensures
            r == UserId::spec_null(),
    {
        UserId { w0: 0, w1: 0, w2: 0, w3: 0 }
    }

    pub open spec fn spec_is_null(self) -> bool {
        self == UserId::spec_null()
    }

    pub fn is_null(&self) -> (r: bool)
        ensures
            r == self.spec_is_null(),
    {
        self.w0 == 0 && self.w1 == 0 && self.w2 == 0 && self.w3 == 0
    }
}

/// Per-project aggregate: one record per project, holding the running totals
/// over all users' currently-active votes.
///
/// The average star rating is not a field: it is the derived quotient
/// `total_rating / total_votes` (zero while there are no votes), left to
/// readers to compute, so it can never drift from the totals that define it.
///
/// A `project_id` of zero is the sentinel for "this record does not logically
/// exist yet": both the explicit initializer and the submit path materialize
/// a zeroed aggregate when they meet it.
#[derive(Clone, Copy, PartialEq, Eq, Structural, Debug)]
pub struct ProjectRating {
    pub project_id: u64,
    /// Sum of all currently-active star values across all users.
    pub total_rating: u64,
    /// Number of distinct users who have ever cast a vote; updating a vote
    /// leaves it unchanged.
    pub total_votes: u64,
    /// Number of distinct users with an active text review.
    pub review_count: u64,
}

/// One user's current vote for one project.
#[derive(Clone, Copy, PartialEq, Eq, Structural, Debug)]
pub struct UserRating {
    pub user: UserId,
    pub project_id: u64,
    /// Star value; in `MIN_RATING..=MAX_RATING` once `has_rated` is set.
    pub rating: u8,
    /// Distinguishes "never voted" from a vote whose fields happen to look
    /// like defaults.
    pub has_rated: bool,
    /// Time of the last vote or vote update.
    pub timestamp: i64,
}

/// One user's current free-text review for one project.  There is no presence
/// flag: the review exists exactly when `review_text` is non-empty and `user`
/// is not the null identity (see [`review_present`]).
#[derive(Clone, PartialEq, Eq, Debug)]
pub struct TextReview {
    pub user: UserId,
    pub project_id: u64,
    /// At most `MAX_REVIEW_LEN` characters; overwritten whole on each
    /// submission that carries text.
    pub review_text: String,
    pub timestamp: i64,
}

/// Why a submission was rejected.  Every error is raised before any record is
/// changed; the engine never commits a partial update.
#[derive(Clone, Copy, PartialEq, Eq, Structural, Debug)]
pub enum RatingError {
    /// The star value lies outside `MIN_RATING..=MAX_RATING`.
    InvalidRating,
    /// A checked increment or decrement would leave the unsigned 64-bit range.
    ArithmeticError,
    /// The review text exceeds `MAX_REVIEW_LEN` characters.
    ReviewTooLong,
}

/// A star value is a whole number of stars from `MIN_RATING` to `MAX_RATING`.
pub open spec fn rating_valid(rating: u8) -> bool {
    MIN_RATING <= rating && rating <= MAX_RATING
}

/// Vote invariant: once a vote has been recorded, the stored stars are in
/// range.
pub open spec fn user_vote_wf(ur: UserRating) -> bool {
    ur.has_rated ==> rating_valid(ur.rating)
}

/// Review invariant: the stored text never exceeds the character bound.
pub open spec fn review_wf(tr: TextReview) -> bool {
    tr.review_text@.len() <= MAX_REVIEW_LEN
}

/// A review logically exists when its text is non-empty and its author is not
/// the null identity.  This sentinel pair, not a separate flag, is the
/// existence marker the engine consults before deciding whether a submission
/// creates a review or overwrites one.
pub open spec fn review_present(tr: TextReview) -> bool {
    !tr.user.spec_is_null() && tr.review_text@.len() > 0
}

} // verus!
