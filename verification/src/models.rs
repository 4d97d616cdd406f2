//! The full row shapes of the study-tracking tables. Only the account table
//! carries invariants; these rows are fetched whole, scoped to an identifier,
//! and handed on unchanged by the read endpoints.

use vstd::prelude::*;

verus! {

/// A subject a user studies.
#[derive(Debug, Clone)]
pub struct Subject {
    pub id: String,
    pub user_id: String,
    pub name: String,
    pub description: Option<String>,
    pub created_at: String,
}

/// A task belonging to a subject.
#[derive(Debug, Clone)]
pub struct Task {
    pub id: String,
    pub subject_id: String,
    pub title: String,
    pub description: Option<String>,
    pub deadline: Option<String>,
    pub difficulty_level: Option<i32>,
    pub created_at: String,
}

/// A scheduled study session for a task.
#[derive(Debug, Clone)]
pub struct StudySession {
    pub id: String,
    pub task_id: String,
    pub scheduled_at: String,
    pub duration: i32,
    pub completed: bool,
    pub created_at: String,
}

/// A progress record of a user within a subject.
#[derive(Debug, Clone)]
pub struct Progress {
    pub id: String,
    pub user_id: String,
    pub subject_id: String,
    pub completed_tasks: i32,
    pub total_tasks: i32,
    pub created_at: String,
}

} // verus!
