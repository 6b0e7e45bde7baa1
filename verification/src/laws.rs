//! Laws of the engine: properties that hold of the transition model for every
//! input, each proved here once and for all.
//!
//! The exec functions in [`crate::engine`] promise that their result and the
//! records' next state equal the transition model's verdict, and that any
//! rejection leaves every record unchanged; the lemmas here pin down what the
//! model's verdict is, so together they carry each property to the running
//! code.

use vstd::prelude::*;

use crate::engine::SubmitRating;
use crate::engine::spec_materialize;
use crate::engine::spec_submit;
use crate::engine::text_len_ok;
use crate::engine::vote_overflows;
use crate::records::ProjectRating;
use crate::records::RatingError;
use crate::records::UserRating;
use crate::records::rating_valid;
use crate::records::review_wf;
use crate::records::user_vote_wf;

verus! {

/// Initialization is idempotent: materializing an aggregate a second time for
/// the same project changes nothing.
pub proof fn lemma_initialize_idempotent(pr: ProjectRating, project_id: u64)
    ensures
        spec_materialize(spec_materialize(pr, project_id), project_id) == spec_materialize(
            pr,
            project_id,
        ),
{
}

/// A submission whose star value lies outside the valid range is rejected as
/// `InvalidRating`, whatever the records, the text or the clock hold; by
/// `submit_rating`'s contract the rejection leaves every record unchanged.
pub proof fn lemma_invalid_rating_rejected(
    pre: SubmitRating,
    project_id: u64,
    rating: u8,
    review_text: Option<String>,
    now: i64,
)
    requires
        !rating_valid(rating),
    ensures
        spec_submit(pre, project_id, rating, review_text, now) == Err::<
            SubmitRating,
            RatingError,
        >(RatingError::InvalidRating),
{
}

/// A submission with a valid star value but review text beyond the character
/// bound is rejected as `ReviewTooLong`, whatever the records or the clock
/// hold; by `submit_rating`'s contract the rejection leaves every record
/// unchanged.
pub proof fn lemma_long_review_rejected(
    pre: SubmitRating,
    project_id: u64,
    rating: u8,
    review_text: Option<String>,
    now: i64,
)
    requires
        rating_valid(rating),
        !text_len_ok(review_text),
    ensures
        spec_submit(pre, project_id, rating, review_text, now) == Err::<
            SubmitRating,
            RatingError,
        >(RatingError::ReviewTooLong),
{
}

/// A submission that passes validation but whose checked vote arithmetic
/// would leave the unsigned 64-bit range — an update subtracting more stars
/// than the sum holds, a sum or a voter count already at the maximum — is
/// rejected as `ArithmeticError`; by `submit_rating`'s contract the rejection
/// leaves every record unchanged, so no partial update is ever committed.
pub proof fn lemma_vote_overflow_rejected(
    pre: SubmitRating,
    project_id: u64,
    rating: u8,
    review_text: Option<String>,
    now: i64,
)
    requires
        rating_valid(rating),
        text_len_ok(review_text),
        vote_overflows(spec_materialize(pre.project_rating, project_id), pre.user_rating, rating),
    ensures
        spec_submit(pre, project_id, rating, review_text, now) == Err::<
            SubmitRating,
            RatingError,
        >(RatingError::ArithmeticError),
{
}

/// The aggregate invariant: every counted vote contributes at least one and
/// at most five stars to the sum.
pub open spec fn aggregate_wf(pr: ProjectRating) -> bool {
    pr.total_rating <= pr.total_votes * 5
}

/// The aggregate and one caller's own vote record agree: the aggregate is
/// well formed, and whenever the caller has an active vote, its stars are
/// part of the sum, the caller is among the counted voters, and the rest of
/// the sum is covered by the other voters' range.
pub open spec fn vote_consistent(pr: ProjectRating, ur: UserRating) -> bool {
    &&& aggregate_wf(pr)
    &&& ur.has_rated ==> {
        &&& ur.rating <= pr.total_rating
        &&& pr.total_votes >= 1
        &&& pr.total_rating - ur.rating <= (pr.total_votes - 1) * 5
    }
}

/// Every accepted submission keeps the aggregate consistent with the
/// caller's vote record — in particular `total_rating <= total_votes * 5`
/// still holds afterwards.
pub proof fn lemma_submit_preserves_consistency(
    pre: SubmitRating,
    project_id: u64,
    rating: u8,
    review_text: Option<String>,
    now: i64,
)
    requires
        vote_consistent(spec_materialize(pre.project_rating, project_id), pre.user_rating),
    ensures
        spec_submit(pre, project_id, rating, review_text, now) matches Ok(post)
            ==> vote_consistent(post.project_rating, post.user_rating),
{
}

/// Every accepted submission leaves a well-formed vote record: the caller has
/// then voted, with stars in the valid range.
pub proof fn lemma_submit_vote_wf(
    pre: SubmitRating,
    project_id: u64,
    rating: u8,
    review_text: Option<String>,
    now: i64,
)
    ensures
        spec_submit(pre, project_id, rating, review_text, now) matches Ok(post) ==> (user_vote_wf(
            post.user_rating,
        ) && post.user_rating.has_rated),
{
}

/// Every accepted submission leaves a well-formed review record: whether the
/// text was kept or overwritten, it stays within the character bound.
pub proof fn lemma_submit_preserves_review_bound(
    pre: SubmitRating,
    project_id: u64,
    rating: u8,
    review_text: Option<String>,
    now: i64,
)
    requires
        review_wf(pre.text_review),
    ensures
        spec_submit(pre, project_id, rating, review_text, now) matches Ok(post) ==> review_wf(
            post.text_review,
        ),
{
}

} // verus!
