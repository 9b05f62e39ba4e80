//! The task store's rules and the `list_tasks` / `update_task` tools.

use synapse::storage::RedisError;
use synapse::task::{Task, TaskStatus, TaskType};
use synapse::tools::tasks::{
    invalid_status, task_store_unavailable, ListTasks, TaskStore, TaskToolError, UpdateStep,
    UpdateTask,
};
use synapse::tools::ToolErrorKind;

/// Creates a test task with the given id and status.
fn make_task(id: &str, status: TaskStatus) -> Task {
    Task {
        id: id.to_string(),
        title: format!("Task {id}"),
        description: "test task".to_string(),
        status,
        task_type: TaskType::Code,
        assigned_to: None,
        notes: None,
        created_at: 1_700_000_000,
        updated_at: 1_700_000_000,
    }
}

fn ids(tasks: &[Task]) -> Vec<&str> {
    tasks.iter().map(|t| t.id.as_str()).collect()
}

#[test]
fn list_tasks_tool_metadata() {
    assert_eq!(ListTasks::name(), "list_tasks");
    assert!(ListTasks::description().is_some());
}

#[test]
fn update_task_tool_metadata() {
    assert_eq!(UpdateTask::name(), "update_task");
    assert!(UpdateTask::description().is_some());
}

#[test]
fn task_keys_live_under_the_task_namespace() {
    assert_eq!(TaskStore::task_key("test-save-get"), "synapse:task:test-save-get");
    assert_eq!(TaskStore::task_key(""), "synapse:task:");
    assert_eq!(TaskStore::task_key_pattern(), "synapse:task:*");
}

#[test]
fn stored_task_returns_the_stored_json() {
    let found = TaskStore::stored_task("t-1", Some("{\"id\":\"t-1\"}".to_string()));
    assert_eq!(found.ok().as_deref(), Some("{\"id\":\"t-1\"}"));
}

#[test]
fn update_task_not_found() {
    let result = TaskStore::stored_task("nonexistent-task", None);
    assert!(
        matches!(&result, Err(TaskToolError::NotFound(id)) if id == "nonexistent-task"),
        "expected NotFound error"
    );
}

#[test]
fn update_task_valid_transition() {
    let task = make_task("test-update-valid", TaskStatus::Pending);
    let updated = TaskStore::apply_update(task, TaskStatus::InProgress, None, 1_700_000_100)
        .ok()
        .expect("update task");
    assert_eq!(updated.status, TaskStatus::InProgress);
    assert_eq!(updated.updated_at, 1_700_000_100);
    assert_eq!(updated.created_at, 1_700_000_000);
    assert_eq!(updated.id, "test-update-valid");
}

#[test]
fn update_task_invalid_transition() {
    let task = make_task("test-update-invalid", TaskStatus::Pending);
    let result = TaskStore::apply_update(task, TaskStatus::Done, None, 1_700_000_100);
    assert!(
        matches!(
            result,
            Err(TaskToolError::InvalidTransition { from: TaskStatus::Pending, to: TaskStatus::Done })
        ),
        "expected InvalidTransition error"
    );
}

#[test]
fn update_task_sets_notes() {
    let task = make_task("test-notes", TaskStatus::Pending);
    let updated = TaskStore::apply_update(
        task,
        TaskStatus::InProgress,
        Some("working on it".to_string()),
        1_700_000_100,
    )
    .ok()
    .expect("update task");
    assert_eq!(updated.notes.as_deref(), Some("working on it"));
}

#[test]
fn update_without_notes_keeps_previous_notes() {
    let mut task = make_task("test-keep-notes", TaskStatus::Pending);
    task.notes = Some("first".to_string());
    let updated = TaskStore::apply_update(task, TaskStatus::Blocked, None, 7).ok().expect("update");
    assert_eq!(updated.notes.as_deref(), Some("first"));
    assert_eq!(updated.updated_at, 7);
}

fn step(task: Task, status: TaskStatus, notes: Option<&str>) -> Task {
    TaskStore::apply_update(task, status, notes.map(|n| n.to_string()), 1_700_000_200)
        .ok()
        .expect("allowed transition")
}

#[test]
fn full_lifecycle_pending_to_done() {
    let task = make_task("test-lifecycle", TaskStatus::Pending);
    let t = step(task, TaskStatus::InProgress, None);
    assert_eq!(t.status, TaskStatus::InProgress);
    let t = step(t, TaskStatus::InReview, None);
    assert_eq!(t.status, TaskStatus::InReview);
    let t = step(t, TaskStatus::Done, None);
    assert_eq!(t.status, TaskStatus::Done);
    let err = TaskStore::apply_update(t, TaskStatus::Pending, None, 1_700_000_300);
    assert!(matches!(err, Err(TaskToolError::InvalidTransition { .. })));
}

#[test]
fn blocked_and_unblocked_lifecycle() {
    let task = make_task("test-blocked", TaskStatus::Pending);
    let t = step(task, TaskStatus::Blocked, Some("needs human input"));
    assert_eq!(t.status, TaskStatus::Blocked);
    assert_eq!(t.notes.as_deref(), Some("needs human input"));
    let t = step(t, TaskStatus::InProgress, None);
    assert_eq!(t.status, TaskStatus::InProgress);
    let t = step(t, TaskStatus::Done, None);
    assert_eq!(t.status, TaskStatus::Done);
}

#[test]
fn done_task_rejects_every_update() {
    for target in [
        TaskStatus::Pending,
        TaskStatus::InProgress,
        TaskStatus::InReview,
        TaskStatus::Done,
        TaskStatus::Blocked,
    ] {
        let task = make_task("test-done", TaskStatus::Done);
        let result = TaskStore::apply_update(task, target, Some("late".to_string()), 9);
        assert!(matches!(
            result,
            Err(TaskToolError::InvalidTransition { from: TaskStatus::Done, to }) if to == target
        ));
    }
}

#[test]
fn repeating_a_successful_update_is_rejected() {
    let task = make_task("test-repeat", TaskStatus::InReview);
    let t = step(task, TaskStatus::InProgress, None);
    let again = TaskStore::apply_update(t, TaskStatus::InProgress, None, 1);
    assert!(matches!(
        again,
        Err(TaskToolError::InvalidTransition {
            from: TaskStatus::InProgress,
            to: TaskStatus::InProgress
        })
    ));
}

#[test]
fn list_tasks_filters_by_status() {
    let t1 = make_task("test-list-s-1", TaskStatus::Pending);
    let mut t2 = make_task("test-list-s-2", TaskStatus::InProgress);
    t2.assigned_to = Some("agent-a".to_string());
    let records = vec![Some(t1.clone()), Some(t2.clone())];

    let pending = TaskStore::select_tasks(records, Some(&TaskStatus::Pending), None);
    assert!(pending.iter().any(|t| t.id == "test-list-s-1"));
    assert_eq!(ids(&pending), vec!["test-list-s-1"]);

    let records = vec![Some(t1), Some(t2)];
    let in_progress = TaskStore::select_tasks(records, Some(&TaskStatus::InProgress), None);
    assert!(in_progress.iter().any(|t| t.id == "test-list-s-2"));
    assert_eq!(ids(&in_progress), vec!["test-list-s-2"]);
}

#[test]
fn list_tasks_filters_by_assigned_to() {
    let mut t1 = make_task("test-list-a-1", TaskStatus::Pending);
    t1.assigned_to = Some("agent-x".to_string());
    let mut t2 = make_task("test-list-a-2", TaskStatus::Pending);
    t2.assigned_to = Some("agent-y".to_string());
    let t3 = make_task("test-list-a-3", TaskStatus::Pending);

    let filtered = TaskStore::select_tasks(vec![Some(t1), Some(t2), Some(t3)], None, Some("agent-x"));
    assert!(filtered.iter().any(|t| t.id == "test-list-a-1"));
    assert!(!filtered.iter().any(|t| t.id == "test-list-a-2"));
    assert_eq!(ids(&filtered), vec!["test-list-a-1"]);
}

#[test]
fn listing_skips_missing_records_and_keeps_order() {
    let a = make_task("a", TaskStatus::Pending);
    let b = make_task("b", TaskStatus::Done);
    let c = make_task("c", TaskStatus::Pending);
    let listed = TaskStore::select_tasks(vec![Some(a), None, Some(b), None, Some(c)], None, None);
    assert_eq!(ids(&listed), vec!["a", "b", "c"]);
}

#[test]
fn listing_combines_both_filters() {
    let mut a = make_task("a", TaskStatus::Pending);
    a.assigned_to = Some("gemini-cli".to_string());
    let mut b = make_task("b", TaskStatus::InProgress);
    b.assigned_to = Some("gemini-cli".to_string());
    let mut c = make_task("c", TaskStatus::Pending);
    c.assigned_to = Some("codex".to_string());
    let listed = TaskStore::select_tasks(
        vec![Some(a), Some(b), Some(c)],
        Some(&TaskStatus::Pending),
        Some("gemini-cli"),
    );
    assert_eq!(ids(&listed), vec!["a"]);
    assert!(TaskStore::select_tasks(vec![], None, None).is_empty());
}

#[test]
fn task_matches_checks_each_filter() {
    let mut t = make_task("m", TaskStatus::Blocked);
    assert!(TaskStore::task_matches(&t, None, None));
    assert!(TaskStore::task_matches(&t, Some(&TaskStatus::Blocked), None));
    assert!(!TaskStore::task_matches(&t, Some(&TaskStatus::Done), None));
    assert!(!TaskStore::task_matches(&t, None, Some("agent-x")));
    t.assigned_to = Some("agent-x".to_string());
    assert!(TaskStore::task_matches(&t, None, Some("agent-x")));
    assert!(!TaskStore::task_matches(&t, None, Some("agent-xy")));
}

#[test]
fn timestamps_come_from_elapsed_seconds() {
    assert_eq!(TaskStore::timestamp(Some(1_700_000_000)), 1_700_000_000);
    assert_eq!(TaskStore::timestamp(None), 0);
    assert_eq!(TaskStore::timestamp(Some(u64::MAX)), -1);
}

#[test]
fn error_messages_match_their_variants() {
    assert_eq!(TaskToolError::NotFound("t-9".to_string()).message(""), "task not found: t-9");
    assert_eq!(
        TaskToolError::InvalidTransition { from: TaskStatus::Pending, to: TaskStatus::Done }
            .message(""),
        "invalid state transition from Pending to Done"
    );
    assert_eq!(
        TaskToolError::Redis(RedisError::MissingUrl).message(""),
        "redis error: REDIS_URL environment variable not set"
    );
}

#[test]
fn update_failures_are_reported_by_kind() {
    let not_found = UpdateTask::update_failed(&TaskToolError::NotFound("t-1".to_string()), "");
    assert_eq!(not_found.kind, ToolErrorKind::InvalidParams);
    assert_eq!(not_found.message, "task not found: t-1");

    let invalid = UpdateTask::update_failed(&TaskToolError::InvalidTransition {
        from: TaskStatus::Done,
        to: TaskStatus::Pending,
    }, "");
    assert_eq!(invalid.kind, ToolErrorKind::InvalidParams);
    assert_eq!(invalid.message, "invalid state transition from Done to Pending");

    let storage = UpdateTask::update_failed(&TaskToolError::Redis(RedisError::MissingUrl), "");
    assert_eq!(storage.kind, ToolErrorKind::Internal);
    assert_eq!(
        storage.message,
        "update_task failed: redis error: REDIS_URL environment variable not set"
    );
}

#[test]
fn list_failures_are_internal() {
    let failure = ListTasks::list_failed(&TaskToolError::Redis(RedisError::MissingUrl), "");
    assert_eq!(failure.kind, ToolErrorKind::Internal);
    assert_eq!(
        failure.message,
        "list_tasks failed: redis error: REDIS_URL environment variable not set"
    );
    let missing = task_store_unavailable();
    assert_eq!(missing.kind, ToolErrorKind::Internal);
    assert_eq!(missing.message, "Redis connection not available for task store");
}

#[test]
fn invalid_status_is_a_parameter_error() {
    let e = serde_json::from_str::<u8>("\"finished\"").unwrap_err();
    let failure = invalid_status("finished", &e.to_string());
    assert_eq!(failure.kind, ToolErrorKind::InvalidParams);
    assert_eq!(failure.message, format!("invalid status value 'finished': {e}"));
    let inner = serde_json::from_str::<u8>("x").unwrap_err();
    let text = inner.to_string();
    let json = TaskToolError::Deserialize(inner);
    assert_eq!(json.message(&text), format!("failed to deserialize task: {text}"));
    assert_eq!(
        ListTasks::serialize_failed("key must be a string").message,
        "failed to serialize tasks: key must be a string"
    );
    assert_eq!(
        UpdateTask::serialize_failed("key must be a string").message,
        "failed to serialize task: key must be a string"
    );
}

#[test]
fn an_update_writes_the_changed_task_after_reading_it() {
    let read = Ok(make_task("t-1", TaskStatus::Pending));
    match TaskStore::update_read(read, TaskStatus::InProgress, Some("started".to_string()), 42) {
        UpdateStep::Save(task) => {
            assert_eq!(task.id, "t-1");
            assert_eq!(task.status, TaskStatus::InProgress);
            assert_eq!(task.notes.as_deref(), Some("started"));
            assert_eq!(task.updated_at, 42);
        }
        _ => panic!("expected the task to be written"),
    }
}

#[test]
fn an_update_ends_on_a_failed_read_or_a_rejected_change() {
    let missing = TaskStore::update_read(
        Err(TaskToolError::NotFound("t-9".to_string())),
        TaskStatus::Done,
        None,
        1,
    );
    assert!(matches!(missing, UpdateStep::Finish(Err(TaskToolError::NotFound(ref id))) if id == "t-9"));
    let done = TaskStore::update_read(Ok(make_task("t-2", TaskStatus::Done)), TaskStatus::Pending, None, 1);
    assert!(matches!(
        done,
        UpdateStep::Finish(Err(TaskToolError::InvalidTransition {
            from: TaskStatus::Done,
            to: TaskStatus::Pending
        }))
    ));
}

#[test]
fn a_failed_publication_is_reported_and_a_good_one_returns_the_task() {
    let published = TaskStore::update_published(make_task("t-3", TaskStatus::InReview), Ok(()));
    assert!(matches!(published, UpdateStep::Finish(Ok(ref t)) if t.id == "t-3"));
    let failed = TaskStore::update_published(
        make_task("t-3", TaskStatus::InReview),
        Err(TaskToolError::NotFound("t-3".to_string())),
    );
    assert!(matches!(failed, UpdateStep::Finish(Err(TaskToolError::NotFound(_)))));
}
