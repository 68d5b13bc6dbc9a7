//! Matches of volunteers to tasks.
use vstd::prelude::*;
use crate::clock::Timestamp;

verus! {

/// A volunteer matched to a task.
#[derive(Debug, Clone, PartialEq, Eq)]
pub struct Match {
    pub match_id: String,
    pub task_id: String,
    pub volunteer_id: String,
    /// `pending`, `accepted`, `declined` or `completed`.
    pub status: String,
    pub matched_at: Timestamp,
}

/// A request to match a volunteer to a task.
#[derive(Debug, Clone, PartialEq, Eq)]
pub struct MatchVolunteerRequest {
    pub volunteer_id: String,
}

/// The reply to a match request.
#[derive(Debug, Clone, PartialEq, Eq)]
pub struct MatchResponse {
    pub match_id: String,
    pub status: String,
    pub matched_at: Timestamp,
    /// Present when the match already existed.
    pub note: Option<String>,
}

} // verus!
