//! The projected rows the read endpoints fetch, the response shapes they
//! serve, and the conversions between the two. The conversions are the whole
//! compute part of those endpoints: every field is carried over unchanged,
//! and the account profile never carries the password hash.

use vstd::prelude::*;

use crate::store::User;

verus! {

/// The projected progress row of the progress endpoint.
#[derive(Debug, Clone)]
pub struct Progress {
    pub completed_tasks: i32,
    pub total_tasks: i32,
}

/// The body served by the progress endpoint.
#[derive(Debug, Clone)]
pub struct ProgressResponse {
    pub completed_tasks: i32,
    pub total_tasks: i32,
}

/// The projected subject row of the subjects endpoint.
#[derive(Debug, Clone)]
pub struct Subject {
    pub id: String,
    pub name: String,
    pub description: Option<String>,
}

/// The body served by the subjects endpoint, one per subject.
#[derive(Debug, Clone)]
pub struct SubjectResponse {
    pub id: String,
    pub name: String,
    pub description: Option<String>,
}

/// The body served by the profile endpoint: the account without its hash.
#[derive(Debug, Clone)]
pub struct ProfileResponse {
    pub id: String,
    pub username: String,
    pub email: String,
    pub created_at: String,
}

/// The projected task row of the tasks endpoint.
#[derive(Debug, Clone)]
pub struct Task {
    pub id: String,
    pub title: String,
    pub description: Option<String>,
    pub deadline: Option<String>,
    pub difficulty_level: Option<i32>,
}

/// The body served by the tasks endpoint, one per task.
#[derive(Debug, Clone)]
pub struct TaskResponse {
    pub id: String,
    pub title: String,
    pub description: Option<String>,
    pub deadline: Option<String>,
    pub difficulty_level: Option<i32>,
}

/// The projected session row of the study-sessions endpoint.
#[derive(Debug, Clone)]
pub struct StudySession {
    pub id: String,
    pub scheduled_at: String,
    pub duration: i32,
    pub completed: bool,
}

/// The body served by the study-sessions endpoint, one per session.
#[derive(Debug, Clone)]
pub struct StudySessionResponse {
    pub id: String,
    pub scheduled_at: String,
    pub duration: i32,
    pub completed: bool,
}

fn clone_opt_string(s: &Option<String>) -> (r: Option<String>)
    ensures
        r is Some <==> s is Some,
        r matches Some(x) ==> (s matches Some(y) && x@ == y@),
{
    match s {
        Some(x) => Some(x.clone()),
        None => None,
    }
}

/// A progress row becomes a response with both counters unchanged.
pub fn progress_to_response(row: Progress) -> (r: ProgressResponse)
    ensures
        r.completed_tasks == row.completed_tasks,
        r.total_tasks == row.total_tasks,
{
    ProgressResponse { completed_tasks: row.completed_tasks, total_tasks: row.total_tasks }
}

/// Each subject row becomes one response, in order, every field unchanged.
pub fn subjects_to_responses(rows: Vec<Subject>) -> (r: Vec<SubjectResponse>)
    ensures
        r@.len() == rows@.len(),
        forall|k: int|
            0 <= k < rows@.len() ==> (r@[k].id@ == rows@[k].id@ && r@[k].name@ == rows@[k].name@
                && r@[k].description.deep_view() == rows@[k].description.deep_view()),
{
    let n = rows.len();
    let mut out: Vec<SubjectResponse> = Vec::new();
    let mut i: usize = 0;
    while i < n
        invariant
            i <= n,
            n == rows@.len(),
            out@.len() == i,
            forall|k: int|
                0 <= k < i ==> (out@[k].id@ == rows@[k].id@ && out@[k].name@ == rows@[k].name@
                    && out@[k].description.deep_view() == rows@[k].description.deep_view()),
        decreases n - i,
    {
        let row = &rows[i];
        out.push(
            SubjectResponse {
                id: row.id.clone(),
                name: row.name.clone(),
                description: clone_opt_string(&row.description),
            },
        );
        i += 1;
    }
    out
}

/// An account becomes its profile: id, username, email and creation time are
/// carried over unchanged, and the password hash is left behind.
pub fn profile_of(user: &User) -> (r: ProfileResponse)
    ensures
        r.id@ == user.id@,
        r.username@ == user.username@,
        r.email@ == user.email@,
        r.created_at@ == user.created_at@,
{
    ProfileResponse {
        id: user.id.clone(),
        username: user.username.clone(),
        email: user.email.clone(),
        created_at: user.created_at.clone(),
    }
}

/// Each task row becomes one response, in order, every field unchanged.
pub fn tasks_to_responses(rows: Vec<Task>) -> (r: Vec<TaskResponse>)
    ensures
        r@.len() == rows@.len(),
        forall|k: int|
            0 <= k < rows@.len() ==> (r@[k].id@ == rows@[k].id@ && r@[k].title@ == rows@[k].title@
                && r@[k].description.deep_view() == rows@[k].description.deep_view()
                && r@[k].deadline.deep_view() == rows@[k].deadline.deep_view()
                && r@[k].difficulty_level == rows@[k].difficulty_level),
{
    let n = rows.len();
    let mut out: Vec<TaskResponse> = Vec::new();
    let mut i: usize = 0;
    while i < n
        invariant
            i <= n,
            n == rows@.len(),
            out@.len() == i,
            forall|k: int|
                0 <= k < i ==> (out@[k].id@ == rows@[k].id@ && out@[k].title@ == rows@[k].title@
                    && out@[k].description.deep_view() == rows@[k].description.deep_view()
                    && out@[k].deadline.deep_view() == rows@[k].deadline.deep_view()
                    && out@[k].difficulty_level == rows@[k].difficulty_level),
        decreases n - i,
    {
        let row = &rows[i];
        out.push(
            TaskResponse {
                id: row.id.clone(),
                title: row.title.clone(),
                description: clone_opt_string(&row.description),
                deadline: clone_opt_string(&row.deadline),
                difficulty_level: row.difficulty_level,
            },
        );
        i += 1;
    }
    out
}

/// Each session row becomes one response, in order, every field unchanged.
pub fn sessions_to_responses(rows: Vec<StudySession>) -> (r: Vec<StudySessionResponse>)
    ensures
        r@.len() == rows@.len(),
        forall|k: int|
            0 <= k < rows@.len() ==> (r@[k].id@ == rows@[k].id@ && r@[k].scheduled_at@
                == rows@[k].scheduled_at@ && r@[k].duration == rows@[k].duration
                && r@[k].completed == rows@[k].completed),
{
    let n = rows.len();
    let mut out: Vec<StudySessionResponse> = Vec::new();
    let mut i: usize = 0;
    while i < n
        invariant
            i <= n,
            n == rows@.len(),
            out@.len() == i,
            forall|k: int|
                0 <= k < i ==> (out@[k].id@ == rows@[k].id@ && out@[k].scheduled_at@
                    == rows@[k].scheduled_at@ && out@[k].duration == rows@[k].duration
                    && out@[k].completed == rows@[k].completed),
        decreases n - i,
    {
        let row = &rows[i];
        out.push(
            StudySessionResponse {
                id: row.id.clone(),
                scheduled_at: row.scheduled_at.clone(),
                duration: row.duration,
                completed: row.completed,
            },
        );
        i += 1;
    }
    out
}

} // verus!
