//! Tasks and the requests and replies about them.
use vstd::prelude::*;
use crate::clock::Timestamp;

verus! {

/// A task that needs volunteers.
#[derive(Debug, Clone, PartialEq, Eq)]
pub struct Task {
    pub task_id: String,
    pub incident_id: String,
    pub title: String,
    pub required_skills: Vec<String>,
    pub location_id: String,
    pub volunteers_needed: i64,
    pub volunteers_matched: i64,
    /// `low`, `medium`, `high` or `critical`.
    pub urgency: String,
    /// `open`, `partially_filled`, `filled`, `completed` or `cancelled`.
    pub status: String,
    pub created_at: Timestamp,
}

/// A request to create a task.
#[derive(Debug, Clone, PartialEq, Eq)]
pub struct CreateTaskRequest {
    pub incident_id: String,
    pub title: String,
    pub required_skills: Vec<String>,
    pub location_id: String,
    pub volunteers_needed: i64,
    /// `low`, `medium`, `high` or `critical`.
    pub urgency: String,
}

/// A task as listed by a search.
#[derive(Debug, Clone, PartialEq, Eq)]
pub struct TaskSummary {
    pub task_id: String,
    pub title: String,
    pub urgency: String,
    pub volunteers_needed: i64,
    pub status: String,
}

/// The filters of a task search.
#[derive(Debug, Clone, PartialEq, Eq)]
pub struct SearchTasksQuery {
    pub location_id: Option<String>,
    /// One skill that the listed tasks must require.
    pub required_skills: Option<String>,
    /// Defaults to `open`.
    pub status: Option<String>,
}

} // verus!
