use study_auth::records::{
    progress_to_response, sessions_to_responses, subjects_to_responses, tasks_to_responses,
    Progress, StudySession, Subject, Task,
};
use study_auth::{AppError, User, UserStore};

fn user(id: &str, username: &str, email: &str) -> User {
    User {
        id: id.to_string(),
        username: username.to_string(),
        email: email.to_string(),
        password_hash: "irrelevant".to_string(),
        created_at: "2024-01-01T00:00:00+00:00".to_string(),
    }
}

#[test]
fn insert_enforces_uniqueness_of_each_key() {
    let mut store = UserStore::new();
    store.insert(user("id-1", "alice", "alice@x.com")).expect("fresh insert");
    assert_eq!(store.len(), 1);

    for dup in [
        user("id-1", "bob", "bob@x.com"),
        user("id-2", "alice", "bob@x.com"),
        user("id-2", "bob", "alice@x.com"),
    ] {
        let err = store.insert(dup).expect_err("a duplicate key must be rejected");
        assert!(matches!(err, AppError::DatabaseError(_)));
        assert_eq!(err.status_code(), 500);
        assert_eq!(err.public_message(), "Internal server error");
        assert_eq!(store.len(), 1);
    }

    store.insert(user("id-2", "bob", "bob@x.com")).expect("distinct keys must insert");
    assert_eq!(store.len(), 2);
}

#[test]
fn lookup_finds_exactly_the_named_account() {
    let mut store = UserStore::new();
    store.insert(user("id-1", "alice", "alice@x.com")).expect("fresh insert");
    store.insert(user("id-2", "bob", "bob@x.com")).expect("fresh insert");

    let found = store.find_by_username(&"bob".to_string()).expect("bob exists");
    assert_eq!(found.id, "id-2");
    assert_eq!(found.email, "bob@x.com");
    assert!(store.find_by_username(&"carol".to_string()).is_none());
    // Lookups are case-sensitive, exact matches.
    assert!(store.find_by_username(&"Alice".to_string()).is_none());
}

#[test]
fn progress_conversion_keeps_both_counters() {
    let r = progress_to_response(Progress { completed_tasks: 3, total_tasks: 9 });
    assert_eq!(r.completed_tasks, 3);
    assert_eq!(r.total_tasks, 9);
}

#[test]
fn subject_conversion_keeps_every_field_in_order() {
    let rows = vec![
        Subject { id: "s1".to_string(), name: "Algebra".to_string(), description: None },
        Subject {
            id: "s2".to_string(),
            name: "Logic".to_string(),
            description: Some("proofs".to_string()),
        },
    ];
    let out = subjects_to_responses(rows);
    assert_eq!(out.len(), 2);
    assert_eq!(out[0].id, "s1");
    assert_eq!(out[0].name, "Algebra");
    assert_eq!(out[0].description, None);
    assert_eq!(out[1].id, "s2");
    assert_eq!(out[1].description.as_deref(), Some("proofs"));
}

#[test]
fn task_conversion_keeps_every_field_in_order() {
    let rows = vec![Task {
        id: "t1".to_string(),
        title: "Read".to_string(),
        description: Some("chapter one".to_string()),
        deadline: None,
        difficulty_level: Some(2),
    }];
    let out = tasks_to_responses(rows);
    assert_eq!(out.len(), 1);
    assert_eq!(out[0].id, "t1");
    assert_eq!(out[0].title, "Read");
    assert_eq!(out[0].description.as_deref(), Some("chapter one"));
    assert_eq!(out[0].deadline, None);
    assert_eq!(out[0].difficulty_level, Some(2));
}

#[test]
fn session_conversion_keeps_every_field_in_order() {
    let rows = vec![StudySession {
        id: "x1".to_string(),
        scheduled_at: "2024-05-01T10:00:00+00:00".to_string(),
        duration: 45,
        completed: false,
    }];
    let out = sessions_to_responses(rows);
    assert_eq!(out.len(), 1);
    assert_eq!(out[0].id, "x1");
    assert_eq!(out[0].scheduled_at, "2024-05-01T10:00:00+00:00");
    assert_eq!(out[0].duration, 45);
    assert!(!out[0].completed);
}

#[test]
fn profile_never_carries_the_hash() {
    let u = user("id-9", "iris", "iris@x.com");
    let p = study_auth::records::profile_of(&u);
    assert_eq!(p.id, "id-9");
    assert_eq!(p.username, "iris");
    assert_eq!(p.email, "iris@x.com");
    assert_eq!(p.created_at, "2024-01-01T00:00:00+00:00");
}
