//! Per-project star-rating aggregation with idempotent per-user upsert votes
//! and optional bounded text reviews.
//!
//! The crate is the rating engine alone: pure transition functions over three
//! record kinds (a per-project aggregate, a per-(user, project) vote, and a
//! per-(user, project) review), with validation, checked arithmetic, and
//! all-or-nothing update semantics.  Persistence of the records, the clock,
//! and caller authorization belong to the surrounding application: the engine
//! works on borrowed records and holds no state of its own across calls.

pub mod engine;
pub mod laws;
pub mod records;

pub use engine::GetProjectRating;
pub use engine::GetUserRating;
pub use engine::InitializeProjectRating;
pub use engine::SubmitRating;
pub use engine::get_project_rating;
pub use engine::get_user_rating;
pub use engine::initialize_project_rating;
pub use engine::submit_rating;
pub use records::ProjectRating;
pub use records::RatingError;
pub use records::TextReview;
pub use records::UserId;
pub use records::UserRating;
