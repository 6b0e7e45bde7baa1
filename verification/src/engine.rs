//! The rating engine: the transition functions over the records, each proved
//! against a specification-level model of the same transition.

use vstd::prelude::*;

use crate::records::MAX_RATING;
use crate::records::MAX_REVIEW_LEN;
use crate::records::MIN_RATING;
use crate::records::ProjectRating;
use crate::records::RatingError;
use crate::records::TextReview;
use crate::records::UserId;
use crate::records::UserRating;
use crate::records::rating_valid;
use crate::records::review_present;

verus! {

/// The records a submit call works on: the project aggregate, the caller's
/// vote and review for that project, and the caller's identity.
pub struct SubmitRating {
    pub project_rating: ProjectRating,
    pub user_rating: UserRating,
    pub text_review: TextReview,
    pub user: UserId,
}

/// The records an initialize call works on: the project aggregate, and the
/// identity of the caller paying for its creation.
pub struct InitializeProjectRating {
    pub project_rating: ProjectRating,
    pub user: UserId,
}

/// The record a read of a project's aggregate works on.
pub struct GetProjectRating {
    pub project_rating: ProjectRating,
}

/// The record a read of a user's vote works on.
pub struct GetUserRating {
    pub user_rating: UserRating,
}

/// The aggregate after lazy materialization: an aggregate whose `project_id`
/// is the zero sentinel does not logically exist yet and becomes a zeroed
/// record for `project_id`; an existing aggregate is left as it is.
pub open spec fn spec_materialize(pr: ProjectRating, project_id: u64) -> ProjectRating {
    if pr.project_id == 0 {
        ProjectRating { project_id: project_id, total_rating: 0, total_votes: 0, review_count: 0 }
    } else {
        pr
    }
}

/// Whether the submission's review text, if any, fits the character bound.
pub open spec fn text_len_ok(review_text: Option<String>) -> bool {
    match review_text {
        Some(t) => t@.len() <= MAX_REVIEW_LEN,
        None => true,
    }
}

/// The sum of stars after the caller's vote is applied: on an update the old
/// stars leave the sum and the new ones enter it; on a first vote the new
/// stars are simply added.  Computed over unbounded integers;
/// [`vote_overflows`] says when the result leaves the 64-bit range.
pub open spec fn spec_new_total_rating(pr: ProjectRating, ur: UserRating, rating: u8) -> int {
    if ur.has_rated {
        pr.total_rating - ur.rating + rating
    } else {
        pr.total_rating + rating
    }
}

/// The voter count after the caller's vote is applied: unchanged on an
/// update, one more on a first vote.
pub open spec fn spec_new_total_votes(pr: ProjectRating, ur: UserRating) -> int {
    if ur.has_rated {
        pr.total_votes as int
    } else {
        pr.total_votes + 1
    }
}

/// When applying the vote fails the checked arithmetic.  On an update, the
/// old stars are subtracted before the new ones are added, so a sum smaller
/// than the recorded old stars already fails; on a first vote, the sum and
/// the voter count each must stay within 64 bits.
pub open spec fn vote_overflows(pr: ProjectRating, ur: UserRating, rating: u8) -> bool {
    if ur.has_rated {
        pr.total_rating < ur.rating || pr.total_rating - ur.rating + rating > u64::MAX
    } else {
        pr.total_rating + rating > u64::MAX || pr.total_votes + 1 > u64::MAX
    }
}

/// The complete submit transition: the next state of the three records, or
/// the error that rejects the submission.
///
/// Validation comes first: stars out of range, then over-long text.  Then the
/// aggregate is lazily materialized, the vote applied with checked
/// arithmetic, and, when text was supplied, the review overwritten — with the
/// review counter raised only when no review logically existed before.  Any
/// failure rejects the whole submission; the caller of the transition commits
/// either all of the next state or none of it.
pub open spec fn spec_submit(
    pre: SubmitRating,
    project_id: u64,
    rating: u8,
    review_text: Option<String>,
    now: i64,
) -> Result<SubmitRating, RatingError> {
    if !rating_valid(rating) {
        Err(RatingError::InvalidRating)
    } else if !text_len_ok(review_text) {
        Err(RatingError::ReviewTooLong)
    } else {
        let pr0 = spec_materialize(pre.project_rating, project_id);
        if vote_overflows(pr0, pre.user_rating, rating) {
            Err(RatingError::ArithmeticError)
        } else {
            let pr1 = ProjectRating {
                project_id: pr0.project_id,
                total_rating: spec_new_total_rating(pr0, pre.user_rating, rating) as u64,
                total_votes: spec_new_total_votes(pr0, pre.user_rating) as u64,
                review_count: pr0.review_count,
            };
            let ur1 = UserRating {
                user: pre.user,
                project_id: pr0.project_id,
                rating: rating,
                has_rated: true,
                timestamp: now,
            };
            match review_text {
                None => Ok(
                    SubmitRating {
                        project_rating: pr1,
                        user_rating: ur1,
                        text_review: pre.text_review,
                        user: pre.user,
                    },
                ),
                Some(t) => {
                    if !review_present(pre.text_review) && pr1.review_count == u64::MAX {
                        Err(RatingError::ArithmeticError)
                    } else {
                        let new_count = if review_present(pre.text_review) {
                            pr1.review_count
                        } else {
                            (pr1.review_count + 1) as u64
                        };
                        Ok(
                            SubmitRating {
                                project_rating: ProjectRating {
                                    project_id: pr1.project_id,
                                    total_rating: pr1.total_rating,
                                    total_votes: pr1.total_votes,
                                    review_count: new_count,
                                },
                                user_rating: ur1,
                                text_review: TextReview {
                                    user: pre.user,
                                    project_id: pr0.project_id,
                                    review_text: t,
                                    timestamp: now,
                                },
                                user: pre.user,
                            },
                        )
                    }
                },
            }
        }
    }
}

/// What a call of [`submit_rating`] guarantees: the records move to exactly
/// the state the transition model gives and the call reports success, or the
/// transition rejects the submission, the call reports that error, and every
/// record is exactly as it was — no partial update is ever committed.
pub open spec fn submit_ensures(
    pre: SubmitRating,
    post: SubmitRating,
    r: Result<(), RatingError>,
    project_id: u64,
    rating: u8,
    review_text: Option<String>,
    now: i64,
) -> bool {
    match spec_submit(pre, project_id, rating, review_text, now) {
        Ok(next) => r == Ok::<(), RatingError>(()) && post == next,
        Err(e) => r == Err::<(), RatingError>(e) && post == pre,
    }
}

/// Applies one submission — a validated star value with optional review text
/// — to the caller's records for `project_id`, at time `now`.
///
/// Implements [`spec_submit`]: all new record values are computed and checked
/// before any record is written, so an error leaves all three records
/// untouched.
pub fn submit_rating(
    accounts: &mut SubmitRating,
    project_id: u64,
    rating: u8,
    review_text: Option<String>,
    now: i64,
) -> (r: Result<(), RatingError>)
    ensures
        submit_ensures(
            *old(accounts),
            *final(accounts),
            r,
            project_id,
            rating,
            review_text,
            now,
        ),
{
    if rating < MIN_RATING || rating > MAX_RATING {
        return Err(RatingError::InvalidRating);
    }
    if let Some(t) = &review_text {
        if t.as_str().unicode_len() > MAX_REVIEW_LEN {
            return Err(RatingError::ReviewTooLong);
        }
    }
    let pr0 = if accounts.project_rating.project_id == 0 {
        ProjectRating { project_id: project_id, total_rating: 0, total_votes: 0, review_count: 0 }
    } else {
        accounts.project_rating
    };
    let new_total_rating: u64;
    let new_total_votes: u64;
    if accounts.user_rating.has_rated {
        let old_stars: u64 = accounts.user_rating.rating as u64;
        if pr0.total_rating < old_stars {
            return Err(RatingError::ArithmeticError);
        }
        let reduced: u64 = pr0.total_rating - old_stars;
        if reduced > u64::MAX - (rating as u64) {
            return Err(RatingError::ArithmeticError);
        }
        new_total_rating = reduced + (rating as u64);
        new_total_votes = pr0.total_votes;
    } else {
        if pr0.total_rating > u64::MAX - (rating as u64) {
            return Err(RatingError::ArithmeticError);
        }
        new_total_rating = pr0.total_rating + (rating as u64);
        if pr0.total_votes == u64::MAX {
            return Err(RatingError::ArithmeticError);
        }
        new_total_votes = pr0.total_votes + 1;
    }
    let mut new_review_count: u64 = pr0.review_count;
    let new_vote = UserRating {
        user: accounts.user,
        project_id: pr0.project_id,
        rating: rating,
        has_rated: true,
        timestamp: now,
    };
    match review_text {
        None => {
            accounts.project_rating = ProjectRating {
                project_id: pr0.project_id,
                total_rating: new_total_rating,
                total_votes: new_total_votes,
                review_count: new_review_count,
            };
            accounts.user_rating = new_vote;
            Ok(())
        },
        Some(t) => {
            let is_new_review = accounts.text_review.user.is_null()
                || accounts.text_review.review_text.as_str().is_empty();
            if is_new_review {
                if new_review_count == u64::MAX {
                    return Err(RatingError::ArithmeticError);
                }
                new_review_count = new_review_count + 1;
            }
            accounts.project_rating = ProjectRating {
                project_id: pr0.project_id,
                total_rating: new_total_rating,
                total_votes: new_total_votes,
                review_count: new_review_count,
            };
            accounts.user_rating = new_vote;
            accounts.text_review = TextReview {
                user: accounts.user,
                project_id: pr0.project_id,
                review_text: t,
                timestamp: now,
            };
            Ok(())
        },
    }
}

/// Creates the aggregate with all totals zeroed if and only if it does not
/// already logically exist; idempotent, and without effect on any other
/// record.  Always succeeds.
pub fn initialize_project_rating(
    accounts: &mut InitializeProjectRating,
    project_id: u64,
) -> (r: Result<(), RatingError>)
    ensures
        r == Ok::<(), RatingError>(()),
        final(accounts).project_rating == spec_materialize(old(accounts).project_rating, project_id),
        final(accounts).user == old(accounts).user,
{
    if accounts.project_rating.project_id == 0 {
        accounts.project_rating = ProjectRating {
            project_id: project_id,
            total_rating: 0,
            total_votes: 0,
            review_count: 0,
        };
    }
    Ok(())
}

/// Returns the project aggregate as stored; absence shows as the default
/// (zero-sentinel) record the persistence layer hands out, not as an error.
pub fn get_project_rating(accounts: &GetProjectRating) -> (r: ProjectRating)
    ensures
        r == accounts.project_rating,
{
    accounts.project_rating
}

/// Returns the user's vote record as stored; the identity and project
/// arguments only address the record, as its key.  Absence shows as the
/// default record, not as an error.
pub fn get_user_rating(
    accounts: &GetUserRating,
    _user: UserId,
    _project_id: u64,
) -> (r: UserRating)
    ensures
        r == accounts.user_rating,
{
    accounts.user_rating
}

} // verus!
