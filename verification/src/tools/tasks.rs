//! MCP tools for task management: `list_tasks` and `update_task`.
//!
//! Tasks are stored in Redis as JSON under the key prefix `synapse:task:<id>`.
//! On status changes, the `synapse.task.status_changed` NATS subject is
//! published to so that downstream consumers (gRPC server, TUI) can react in
//! real time.
//!
//! This module holds the store's rules: where a task lives, which stored
//! tasks a listing returns, and what an update does to a task. The Redis
//! reads and writes, the JSON encoding and the NATS publication are performed
//! by the runtime around the library.

use std::sync::Arc;

use vstd::prelude::*;

use crate::nats::{nats_error_message, NatsClient, NatsError};
use crate::storage::{redis_error_message, RedisError, RedisPool};
use crate::task::{status_label, valid_transition, Task, TaskStatus};
use crate::tools::{ToolErrorKind, ToolFailure};

verus! {

#[verifier::external_type_specification]
#[verifier::external_body]
pub struct ExJsonFailure(serde_json::Error);

// ── Keys ────────────────────────────────────────────────────────────────────

/// Redis key prefix for all tasks.
pub open spec fn task_key_prefix() -> Seq<char> {
    "synapse:task:"@
}

/// The Redis key under which the task with the given id is stored.
pub open spec fn task_key_of(id: Seq<char>) -> Seq<char> {
    task_key_prefix() + id
}

// ── Errors ──────────────────────────────────────────────────────────────────

/// Errors that can occur when working with task tools.
#[derive(Debug)]
pub enum TaskToolError {
    /// The requested task was not found in the store.
    NotFound(String),
    /// An invalid state transition was attempted.
    InvalidTransition {
        /// The current status of the task.
        from: TaskStatus,
        /// The requested target status.
        to: TaskStatus,
    },
    /// Failed to deserialize a task from Redis.
    Deserialize(serde_json::Error),
    /// A Redis operation failed.
    Redis(RedisError),
    /// A NATS publish operation failed.
    Nats(NatsError),
}

/// The human-readable message of a [`TaskToolError`].
pub open spec fn task_tool_error_message(e: TaskToolError, source: Seq<char>) -> Seq<char> {
    match e {
        TaskToolError::NotFound(id) => "task not found: "@ + id@,
        TaskToolError::InvalidTransition { from, to } => "invalid state transition from "@
            + status_label(from) + " to "@ + status_label(to),
        TaskToolError::Deserialize(_) => "failed to deserialize task: "@ + source,
        TaskToolError::Redis(r) => "redis error: "@ + redis_error_message(r, source),
        TaskToolError::Nats(n) => "nats error: "@ + nats_error_message(n, source),
    }
}

impl TaskToolError {
    /// Returns the human-readable message of this error; `source` is the
    /// displayed text of the outside error it carries, if any (the JSON,
    /// Redis client or `async_nats` error).
    pub fn message(&self, source: &str) -> (text: String)
        ensures
            text@ == task_tool_error_message(*self, source@),
    {
        match self {
            TaskToolError::NotFound(id) => {
                let mut text = String::from_str("task not found: ");
                text.append(id.as_str());
                text
            },
            TaskToolError::InvalidTransition { from, to } => {
                let mut text = String::from_str("invalid state transition from ");
                text.append(from.label());
                text.append(" to ");
                text.append(to.label());
                text
            },
            TaskToolError::Deserialize(_) => {
                let mut text = String::from_str("failed to deserialize task: ");
                text.append(source);
                text
            },
            TaskToolError::Redis(r) => {
                let mut text = String::from_str("redis error: ");
                text.append(r.message(source).as_str());
                text
            },
            TaskToolError::Nats(n) => {
                let mut text = String::from_str("nats error: ");
                text.append(n.message(source).as_str());
                text
            },
        }
    }
}

// ── Listing ─────────────────────────────────────────────────────────────────

/// Whether `task` passes the optional status and assigned-agent filters of a
/// listing. An absent filter lets every task through.
pub open spec fn passes_filters(
    task: Task,
    status: Option<TaskStatus>,
    assigned_to: Option<Seq<char>>,
) -> bool {
    &&& (status matches Some(s) ==> task.status == s)
    &&& (assigned_to matches Some(a) ==> (task.assigned_to matches Some(x) && x@ == a))
}

/// The status filter as a value.
pub open spec fn status_filter(status: Option<&TaskStatus>) -> Option<TaskStatus> {
    match status {
        Some(s) => Some(*s),
        None => None,
    }
}

/// The assigned-agent filter as a value.
pub open spec fn agent_filter(assigned_to: Option<&str>) -> Option<Seq<char>> {
    match assigned_to {
        Some(a) => Some(a@),
        None => None,
    }
}

/// The tasks a listing returns from the records read under the task keys, in
/// the order the records were read: records that held no task are skipped,
/// and the remaining tasks are kept when they pass the filters.
pub open spec fn listed_tasks(
    records: Seq<Option<Task>>,
    status: Option<TaskStatus>,
    assigned_to: Option<Seq<char>>,
) -> Seq<Task>
    decreases records.len(),
{
    if records.len() == 0 {
        Seq::empty()
    } else {
        let earlier = listed_tasks(records.drop_last(), status, assigned_to);
        match records.last() {
            Some(task) => if passes_filters(task, status, assigned_to) {
                earlier.push(task)
            } else {
                earlier
            },
            None => earlier,
        }
    }
}

// ── Updating ────────────────────────────────────────────────────────────────

/// The task after a status change: the new status, the new notes when some
/// are given (the old ones otherwise), and the update time; every other field
/// is kept.
pub open spec fn updated_task(
    task: Task,
    new_status: TaskStatus,
    notes: Option<String>,
    now: i64,
) -> Task {
    Task {
        status: new_status,
        notes: match notes {
            Some(n) => Some(n),
            None => task.notes,
        },
        updated_at: now,
        ..task
    }
}

/// The outcome of asking for a status change: the updated task when the
/// state machine allows the transition, `InvalidTransition` otherwise.
pub open spec fn update_outcome(
    task: Task,
    new_status: TaskStatus,
    notes: Option<String>,
    now: i64,
) -> Result<Task, TaskToolError> {
    if valid_transition(task.status, new_status) {
        Ok(updated_task(task, new_status, notes, now))
    } else {
        Err(TaskToolError::InvalidTransition { from: task.status, to: new_status })
    }
}

/// The timestamp recorded for an update, from the seconds elapsed since the
/// Unix epoch; a clock set before the epoch gives `0`.
pub open spec fn timestamp_of(elapsed_secs: Option<u64>) -> i64 {
    match elapsed_secs {
        Some(secs) => secs as i64,
        None => 0,
    }
}

/// What an update of a stored task does next. An update reads the task,
/// applies the change, writes the task back, then (when NATS is configured)
/// publishes it; each outside step's answer decides the next step.
pub enum UpdateStep {
    /// Store the carried task under its key.
    Save(Task),
    /// Publish the carried task on the status-changed subject.
    Publish(Task),
    /// The update is over, with this result.
    Finish(Result<Task, TaskToolError>),
}

/// The step after the task was read: the change is applied when the state
/// machine allows it and the updated task is written; a failed read or a
/// rejected change ends the update with its error.
pub open spec fn step_after_read(
    read: Result<Task, TaskToolError>,
    new_status: TaskStatus,
    notes: Option<String>,
    now: i64,
) -> UpdateStep {
    match read {
        Err(e) => UpdateStep::Finish(Err(e)),
        Ok(task) => match update_outcome(task, new_status, notes, now) {
            Ok(updated) => UpdateStep::Save(updated),
            Err(e) => UpdateStep::Finish(Err(e)),
        },
    }
}

/// The step after the updated task was written: publish it when the store
/// publishes status changes, else end with it; a failed write ends the
/// update with its error.
pub open spec fn step_after_save(
    publishes: bool,
    task: Task,
    saved: Result<(), TaskToolError>,
) -> UpdateStep {
    match saved {
        Err(e) => UpdateStep::Finish(Err(e)),
        Ok(()) => if publishes {
            UpdateStep::Publish(task)
        } else {
            UpdateStep::Finish(Ok(task))
        },
    }
}

/// The step after the updated task was published: end with it, or with the
/// publication's error. The write is not undone.
pub open spec fn step_after_publish(task: Task, published: Result<(), TaskToolError>) -> UpdateStep {
    match published {
        Err(e) => UpdateStep::Finish(Err(e)),
        Ok(()) => UpdateStep::Finish(Ok(task)),
    }
}

/// The result of a whole update, given the answers of the read, the write
/// and the publication (the later answers are not consulted when the update
/// ends before them).
pub open spec fn update_result(
    publishes: bool,
    read: Result<Task, TaskToolError>,
    new_status: TaskStatus,
    notes: Option<String>,
    now: i64,
    saved: Result<(), TaskToolError>,
    published: Result<(), TaskToolError>,
) -> Result<Task, TaskToolError> {
    match step_after_read(read, new_status, notes, now) {
        UpdateStep::Save(updated) => match step_after_save(publishes, updated, saved) {
            UpdateStep::Publish(sent) => match step_after_publish(sent, published) {
                UpdateStep::Finish(result) => result,
                _ => Ok(sent),
            },
            UpdateStep::Finish(result) => result,
            UpdateStep::Save(t) => Ok(t),
        },
        UpdateStep::Finish(result) => result,
        UpdateStep::Publish(t) => Ok(t),
    }
}

/// Shared state for task tools, holding Redis and NATS connections.
#[derive(Clone, Debug)]
pub struct TaskStore {
    redis: RedisPool,
    nats: Option<Arc<NatsClient>>,
}

impl TaskStore {
    /// The Redis pool the tasks are stored in.
    pub closed spec fn redis_pool(self) -> RedisPool {
        self.redis
    }

    /// The NATS client status changes are published on, if any.
    pub closed spec fn nats_client(self) -> Option<Arc<NatsClient>> {
        self.nats
    }

    /// Creates a new [`TaskStore`] with the given Redis pool and optional NATS
    /// client.
    ///
    /// When `nats` is `None`, status-change events will not be published.
    pub fn new(redis: RedisPool, nats: Option<Arc<NatsClient>>) -> (store: Self)
        ensures
            store.redis_pool() == redis,
            store.nats_client() == nats,
    {
        Self { redis, nats }
    }

    /// Returns the Redis pool the tasks are stored in.
    pub fn redis(&self) -> (redis: &RedisPool)
        ensures
            *redis == self.redis_pool(),
    {
        &self.redis
    }

    /// Returns the NATS client status changes are published on, if any.
    pub fn nats(&self) -> (nats: Option<&Arc<NatsClient>>)
        ensures
            match (nats, self.nats_client()) {
                (Some(n), Some(m)) => *n == m,
                (None, None) => true,
                _ => false,
            },
    {
        self.nats.as_ref()
    }

    /// Returns the Redis key for a given task id.
    pub fn task_key(id: &str) -> (key: String)
        ensures
            key@ == task_key_of(id@),
    {
        let mut key = String::from_str("synapse:task:");
        key.append(id);
        key
    }

    /// Returns the Redis `KEYS` pattern that matches every task key.
    pub fn task_key_pattern() -> (pattern: String)
        ensures
            pattern@ == task_key_prefix() + "*"@,
    {
        let mut pattern = String::from_str("synapse:task:");
        pattern.append("*");
        pattern
    }

    /// Resolves what Redis returned for the task with the given id: the stored
    /// JSON when there is some, [`TaskToolError::NotFound`] otherwise.
    pub fn stored_task(id: &str, stored: Option<String>) -> (found: Result<String, TaskToolError>)
        ensures
            match (stored, found) {
                (Some(json), Ok(text)) => text == json,
                (None, Err(TaskToolError::NotFound(missing))) => missing@ == id@,
                _ => false,
            },
    {
        match stored {
            Some(json) => Ok(json),
            None => Err(TaskToolError::NotFound(String::from_str(id))),
        }
    }

    /// Whether `task` passes the optional status and assigned-agent filters.
    pub fn task_matches(task: &Task, status: Option<&TaskStatus>, assigned_to: Option<&str>) -> (passes: bool)
        ensures
            passes == passes_filters(*task, status_filter(status), agent_filter(assigned_to)),
    {
        let status_match = match status {
            Some(s) => task.status == *s,
            None => true,
        };
        let agent_match = match assigned_to {
            Some(a) => match &task.assigned_to {
                Some(x) => *x == String::from_str(a),
                None => false,
            },
            None => true,
        };
        status_match && agent_match
    }

    /// Lists tasks from the records read under the task keys, optionally
    /// filtering by status and/or assigned agent.
    ///
    /// Records that held no task are skipped; the order of the records is
    /// kept.
    pub fn select_tasks(
        records: Vec<Option<Task>>,
        status: Option<&TaskStatus>,
        assigned_to: Option<&str>,
    ) -> (tasks: Vec<Task>)
        ensures
            tasks@ == listed_tasks(records@, status_filter(status), agent_filter(assigned_to)),
    {
        let ghost all = records@;
        let ghost st = status_filter(status);
        let ghost ag = agent_filter(assigned_to);
        let mut tasks: Vec<Task> = Vec::new();
        let mut source = records;
        let mut remaining: Vec<Option<Task>> = Vec::new();
        while source.len() > 0
            invariant
                source@.len() + remaining@.len() == all.len(),
                source@ == all.take(source@.len() as int),
                forall|i: int|
                    0 <= i < remaining@.len() ==> #[trigger] remaining@[i] == all[all.len() - 1
                        - i],
            decreases source@.len(),
        {
            let record = source.pop().unwrap();
            remaining.push(record);
        }
        assert(all.take(0) =~= Seq::<Option<Task>>::empty());
        while remaining.len() > 0
            invariant
                remaining@.len() <= all.len(),
                forall|i: int|
                    0 <= i < remaining@.len() ==> #[trigger] remaining@[i] == all[all.len() - 1
                        - i],
                tasks@ == listed_tasks(all.take(all.len() - remaining@.len()), st, ag),
                st == status_filter(status),
                ag == agent_filter(assigned_to),
            decreases remaining@.len(),
        {
            let ghost done = all.len() - remaining@.len();
            let record = remaining.pop().unwrap();
            assert(record == all[done]);
            assert(all.take(done + 1).drop_last() =~= all.take(done));
            assert(all.take(done + 1).last() == all[done]);
            if let Some(task) = record {
                if Self::task_matches(&task, status, assigned_to) {
                    tasks.push(task);
                }
            }
        }
        assert(all.take(all.len() as int) =~= all);
        tasks
    }

    /// Applies a status change (and optionally new notes) to `task` after
    /// validating the state transition, stamping it with `now`.
    ///
    /// # Errors
    ///
    /// Returns [`TaskToolError::InvalidTransition`] if the requested
    /// transition violates the state machine.
    pub fn apply_update(task: Task, new_status: TaskStatus, notes: Option<String>, now: i64) -> (outcome: Result<Task, TaskToolError>)
        ensures
            outcome == update_outcome(task, new_status, notes, now),
    {
        if !task.status.can_transition_to(&new_status) {
            return Err(TaskToolError::InvalidTransition { from: task.status, to: new_status });
        }
        let mut task = task;
        task.status = new_status;
        if let Some(n) = notes {
            task.notes = Some(n);
        }
        task.updated_at = now;
        Ok(task)
    }

    /// The timestamp recorded for an update, from the whole seconds elapsed
    /// since the Unix epoch (`None` when the clock reads earlier than the
    /// epoch, which gives `0`).
    pub fn timestamp(elapsed_secs: Option<u64>) -> (now: i64)
        ensures
            now == timestamp_of(elapsed_secs),
    {
        match elapsed_secs {
            Some(secs) => secs as i64,
            None => 0,
        }
    }

    /// The first step of an update, once the task has been read.
    pub fn update_read(
        read: Result<Task, TaskToolError>,
        new_status: TaskStatus,
        notes: Option<String>,
        now: i64,
    ) -> (step: UpdateStep)
        ensures
            step == step_after_read(read, new_status, notes, now),
    {
        match read {
            Err(e) => UpdateStep::Finish(Err(e)),
            Ok(task) => match Self::apply_update(task, new_status, notes, now) {
                Ok(updated) => UpdateStep::Save(updated),
                Err(e) => UpdateStep::Finish(Err(e)),
            },
        }
    }

    /// The step of an update after the updated task was written.
    pub fn update_saved(&self, task: Task, saved: Result<(), TaskToolError>) -> (step: UpdateStep)
        ensures
            step == step_after_save(self.nats_client() is Some, task, saved),
    {
        match saved {
            Err(e) => UpdateStep::Finish(Err(e)),
            Ok(()) => if self.nats.is_some() {
                UpdateStep::Publish(task)
            } else {
                UpdateStep::Finish(Ok(task))
            },
        }
    }

    /// The step of an update after the updated task was published.
    pub fn update_published(task: Task, published: Result<(), TaskToolError>) -> (step: UpdateStep)
        ensures
            step == step_after_publish(task, published),
    {
        match published {
            Err(e) => UpdateStep::Finish(Err(e)),
            Ok(()) => UpdateStep::Finish(Ok(task)),
        }
    }
}

// ── list_tasks MCP tool ─────────────────────────────────────────────────────

/// The message reported when a task tool runs without a task store.
pub open spec fn store_unavailable_message() -> Seq<char> {
    "Redis connection not available for task store"@
}

/// The failure reported when a task tool is invoked on a server that has no
/// task store (no Redis connection).
pub fn task_store_unavailable() -> (failure: ToolFailure)
    ensures
        failure.kind == ToolErrorKind::Internal,
        failure.message@ == store_unavailable_message(),
{
    ToolFailure {
        kind: ToolErrorKind::Internal,
        message: String::from_str("Redis connection not available for task store"),
    }
}

/// The failure reported when a status argument does not name a status;
/// `reason` is the displayed text of the JSON error that rejected it.
pub fn invalid_status(value: &str, reason: &str) -> (failure: ToolFailure)
    ensures
        failure.kind == ToolErrorKind::InvalidParams,
        failure.message@ == "invalid status value '"@ + value@ + "': "@ + reason@,
{
    let mut message = String::from_str("invalid status value '");
    message.append(value);
    message.append("': ");
    message.append(reason);
    ToolFailure { kind: ToolErrorKind::InvalidParams, message }
}

/// MCP tool that lists tasks from the Redis task store with optional filters.
pub struct ListTasks;

/// Input parameters for the `list_tasks` tool.
#[derive(Debug)]
pub struct ListTasksInput {
    /// Optional status filter (e.g. `"pending"`, `"in_progress"`).
    pub status: Option<String>,
    /// Optional agent ID filter -- only tasks assigned to this agent.
    pub assigned_to: Option<String>,
}

/// Output of the `list_tasks` tool.
#[derive(Debug)]
pub struct ListTasksOutput {
    /// The matching tasks serialized as a JSON array string.
    pub tasks: String,
}

impl ListTasks {
    /// The tool's name.
    pub fn name() -> (name: &'static str)
        ensures
            name@ == "list_tasks"@,
    {
        "list_tasks"
    }

    /// The tool's description.
    pub fn description() -> (description: Option<&'static str>)
        ensures
            description matches Some(d) && d@
                == "List tasks from the task store, optionally filtered by status and/or assigned agent."@,
    {
        Some("List tasks from the task store, optionally filtered by status and/or assigned agent.")
    }

    /// The failure reported when the store could not list the tasks;
    /// `source` is the displayed text of the outside error `e` carries.
    pub fn list_failed(e: &TaskToolError, source: &str) -> (failure: ToolFailure)
        ensures
            failure.kind == ToolErrorKind::Internal,
            failure.message@ == "list_tasks failed: "@ + task_tool_error_message(*e, source@),
    {
        ToolFailure::with_detail(
            ToolErrorKind::Internal,
            "list_tasks failed: ",
            e.message(source).as_str(),
        )
    }

    /// The failure reported when the listed tasks could not be encoded.
    ///
    /// `reason` is the displayed text of the JSON error.
    pub fn serialize_failed(reason: &str) -> (failure: ToolFailure)
        ensures
            failure.kind == ToolErrorKind::Internal,
            failure.message@ == "failed to serialize tasks: "@ + reason@,
    {
        ToolFailure::with_detail(ToolErrorKind::Internal, "failed to serialize tasks: ", reason)
    }
}

// ── update_task MCP tool ────────────────────────────────────────────────────

/// MCP tool that updates a task's status and optionally its notes.
pub struct UpdateTask;

/// Input parameters for the `update_task` tool.
#[derive(Debug)]
pub struct UpdateTaskInput {
    /// The task ID to update.
    pub id: String,
    /// The new status value (e.g. `"in_progress"`, `"done"`).
    pub status: String,
    /// Optional human-readable notes to attach to the task.
    pub notes: Option<String>,
}

/// Output of the `update_task` tool.
#[derive(Debug)]
pub struct UpdateTaskOutput {
    /// The updated task serialized as a JSON string.
    pub task: String,
}

/// How an `update_task` failure is reported: an unknown task or a forbidden
/// transition is the caller's mistake (`invalid_params`, with the error's
/// message); anything else is an internal error.
pub open spec fn update_failure(e: TaskToolError, source: Seq<char>) -> (ToolErrorKind, Seq<char>) {
    match e {
        TaskToolError::NotFound(_) => (
            ToolErrorKind::InvalidParams,
            task_tool_error_message(e, source),
        ),
        TaskToolError::InvalidTransition { .. } => (
            ToolErrorKind::InvalidParams,
            task_tool_error_message(e, source),
        ),
        _ => (ToolErrorKind::Internal, "update_task failed: "@ + task_tool_error_message(e, source)),
    }
}

impl UpdateTask {
    /// The tool's name.
    pub fn name() -> (name: &'static str)
        ensures
            name@ == "update_task"@,
    {
        "update_task"
    }

    /// The tool's description.
    pub fn description() -> (description: Option<&'static str>)
        ensures
            description matches Some(d) && d@
                == "Update a task's status (and optionally its notes). Validates the state machine transition before applying."@,
    {
        Some(
            "Update a task's status (and optionally its notes). Validates the state machine transition before applying.",
        )
    }

    /// The failure reported when the store rejected or could not carry out
    /// the update; `source` is the displayed text of the outside error `e`
    /// carries, if any.
    pub fn update_failed(e: &TaskToolError, source: &str) -> (failure: ToolFailure)
        ensures
            (failure.kind, failure.message@) == update_failure(*e, source@),
    {
        match e {
            TaskToolError::NotFound(_) | TaskToolError::InvalidTransition { .. } => ToolFailure {
                kind: ToolErrorKind::InvalidParams,
                message: e.message(source),
            },
            _ => ToolFailure::with_detail(
                ToolErrorKind::Internal,
                "update_task failed: ",
                e.message(source).as_str(),
            ),
        }
    }

    /// The failure reported when the updated task could not be encoded.
    ///
    /// `reason` is the displayed text of the JSON error.
    pub fn serialize_failed(reason: &str) -> (failure: ToolFailure)
        ensures
            failure.kind == ToolErrorKind::Internal,
            failure.message@ == "failed to serialize task: "@ + reason@,
    {
        ToolFailure::with_detail(ToolErrorKind::Internal, "failed to serialize task: ", reason)
    }
}

// ── Laws ────────────────────────────────────────────────────────────────────

/// Distinct task ids are stored under distinct keys.
pub proof fn lemma_task_key_injective(a: Seq<char>, b: Seq<char>)
    requires
        task_key_of(a) == task_key_of(b),
    ensures
        a == b,
{
    let n = task_key_prefix().len() as int;
    assert(a =~= task_key_of(a).subrange(n, task_key_of(a).len() as int));
    assert(b =~= task_key_of(b).subrange(n, task_key_of(b).len() as int));
}

/// Every listed task passes the filters and was read from one of the
/// records.
pub proof fn lemma_listed_tasks_sound(
    records: Seq<Option<Task>>,
    status: Option<TaskStatus>,
    assigned_to: Option<Seq<char>>,
    k: int,
)
    requires
        0 <= k < listed_tasks(records, status, assigned_to).len(),
    ensures
        passes_filters(listed_tasks(records, status, assigned_to)[k], status, assigned_to),
        records.contains(Some(listed_tasks(records, status, assigned_to)[k])),
    decreases records.len(),
{
    let earlier = listed_tasks(records.drop_last(), status, assigned_to);
    let listed = listed_tasks(records, status, assigned_to);
    if k < earlier.len() {
        lemma_listed_tasks_sound(records.drop_last(), status, assigned_to, k);
        assert(listed[k] == earlier[k]);
        let j = choose|j: int|
            0 <= j < records.drop_last().len() && records.drop_last()[j] == Some(earlier[k]);
        assert(records[j] == Some(listed[k]));
    } else {
        assert(records[records.len() - 1] == Some(listed[k]));
    }
}

/// Every task read from the records that passes the filters is listed.
pub proof fn lemma_listed_tasks_complete(
    records: Seq<Option<Task>>,
    status: Option<TaskStatus>,
    assigned_to: Option<Seq<char>>,
    i: int,
)
    requires
        0 <= i < records.len(),
        records[i] matches Some(task) && passes_filters(task, status, assigned_to),
    ensures
        listed_tasks(records, status, assigned_to).contains(records[i]->Some_0),
    decreases records.len(),
{
    let earlier = listed_tasks(records.drop_last(), status, assigned_to);
    let listed = listed_tasks(records, status, assigned_to);
    if i < records.len() - 1 {
        lemma_listed_tasks_complete(records.drop_last(), status, assigned_to, i);
        let j = choose|j: int| 0 <= j < earlier.len() && earlier[j] == records[i]->Some_0;
        assert(listed[j] == earlier[j]);
    } else {
        assert(listed[listed.len() - 1] == records[i]->Some_0);
    }
}

/// Without filters, a listing returns every task that was read, and never
/// more tasks than records.
pub proof fn lemma_unfiltered_listing_keeps_every_task(records: Seq<Option<Task>>)
    ensures
        listed_tasks(records, None, None).len() <= records.len(),
        forall|i: int|
            0 <= i < records.len() && #[trigger] records[i] is Some ==> listed_tasks(
                records,
                None,
                None,
            ).contains(records[i]->Some_0),
    decreases records.len(),
{
    if records.len() > 0 {
        lemma_unfiltered_listing_keeps_every_task(records.drop_last());
    }
    assert forall|i: int| 0 <= i < records.len() && #[trigger] records[i] is Some implies listed_tasks(
        records,
        None,
        None,
    ).contains(records[i]->Some_0) by {
        lemma_listed_tasks_complete(records, None, None, i);
    }
}

/// A successful update sets the requested status, came from an allowed
/// transition, replaces the notes only when new ones are given, records the
/// update time, and leaves the identity, content, type, assignee and
/// creation time of the task unchanged.
pub proof fn lemma_update_fields(task: Task, new_status: TaskStatus, notes: Option<String>, now: i64)
    requires
        update_outcome(task, new_status, notes, now) is Ok,
    ensures
        ({
            let updated = update_outcome(task, new_status, notes, now)->Ok_0;
            &&& valid_transition(task.status, updated.status)
            &&& updated.status == new_status
            &&& updated.updated_at == now
            &&& (notes matches Some(n) ==> updated.notes == Some(n))
            &&& (notes is None ==> updated.notes == task.notes)
            &&& updated.id == task.id
            &&& updated.title == task.title
            &&& updated.description == task.description
            &&& updated.task_type == task.task_type
            &&& updated.assigned_to == task.assigned_to
            &&& updated.created_at == task.created_at
        }),
{
}

/// An update that succeeded cannot be applied a second time: asking again
/// for the status the task already has is rejected.
pub proof fn lemma_update_not_repeatable(
    task: Task,
    new_status: TaskStatus,
    notes: Option<String>,
    now: i64,
    again_notes: Option<String>,
    again_now: i64,
)
    requires
        update_outcome(task, new_status, notes, now) is Ok,
    ensures
        update_outcome(
            update_outcome(task, new_status, notes, now)->Ok_0,
            new_status,
            again_notes,
            again_now,
        ) == Err::<Task, TaskToolError>(
            TaskToolError::InvalidTransition { from: new_status, to: new_status },
        ),
{
}

/// A requested status change: the target status, optional notes and the
/// time of the request.
pub struct UpdateRequest {
    pub status: TaskStatus,
    pub notes: Option<String>,
    pub now: i64,
}

/// The task after a series of update requests, each applied when the state
/// machine allows it and rejected (leaving the task as it was) otherwise.
pub open spec fn replay_updates(task: Task, requests: Seq<UpdateRequest>) -> Task
    decreases requests.len(),
{
    if requests.len() == 0 {
        task
    } else {
        let before = replay_updates(task, requests.drop_last());
        let request = requests.last();
        match update_outcome(before, request.status, request.notes, request.now) {
            Ok(after) => after,
            Err(_) => before,
        }
    }
}

/// `Done` is final for a stored task: once a task is done, every update
/// request is rejected with `InvalidTransition`, and no series of requests
/// changes the task.
pub proof fn lemma_done_task_is_final(task: Task, requests: Seq<UpdateRequest>)
    requires
        task.status == TaskStatus::Done,
    ensures
        forall|r: UpdateRequest|
            #[trigger] update_outcome(task, r.status, r.notes, r.now) == Err::<Task, TaskToolError>(
                TaskToolError::InvalidTransition { from: TaskStatus::Done, to: r.status },
            ),
        replay_updates(task, requests) == task,
    decreases requests.len(),
{
    if requests.len() > 0 {
        lemma_done_task_is_final(task, requests.drop_last());
    }
}

/// The order of an update: a task is written only after it was read and the
/// change was allowed, it is published only after the write succeeded, and
/// what is published is what was written. An update that succeeds returns
/// the written task; a failed publication is reported with its error and the
/// write stands.
pub proof fn lemma_update_order(
    publishes: bool,
    read: Result<Task, TaskToolError>,
    new_status: TaskStatus,
    notes: Option<String>,
    now: i64,
    saved: Result<(), TaskToolError>,
    published: Result<(), TaskToolError>,
)
    ensures
        step_after_read(read, new_status, notes, now) matches UpdateStep::Save(written) ==> (
        read matches Ok(task) && update_outcome(task, new_status, notes, now) == Ok::<
            Task,
            TaskToolError,
        >(written)),
        forall|task: Task|
            #[trigger] step_after_save(publishes, task, Ok(())) == (if publishes {
                UpdateStep::Publish(task)
            } else {
                UpdateStep::Finish(Ok(task))
            }),
        update_result(publishes, read, new_status, notes, now, saved, published) matches Ok(
            result,
        ) ==> (read matches Ok(task) && update_outcome(task, new_status, notes, now) == Ok::<
            Task,
            TaskToolError,
        >(result) && saved is Ok && (publishes ==> published is Ok)),
        (read matches Ok(task) && update_outcome(task, new_status, notes, now) is Ok && saved is Ok
            && publishes && published is Err) ==> update_result(
            publishes,
            read,
            new_status,
            notes,
            now,
            saved,
            published,
        ) == Err::<Task, TaskToolError>(published->Err_0),
        saved is Err && step_after_read(read, new_status, notes, now) is Save ==> update_result(
            publishes,
            read,
            new_status,
            notes,
            now,
            saved,
            published,
        ) == Err::<Task, TaskToolError>(saved->Err_0),
{
}

/// An update that meets no failure succeeds with the updated task: when
/// the read returns the task, the state machine allows the change, the write
/// succeeds and (when status changes are published) the publication
/// succeeds, the update writes, publishes and returns the task with the new
/// status, the new notes when some are given, the update time, and
/// everything else unchanged.
pub proof fn lemma_update_success_is_complete(
    publishes: bool,
    task: Task,
    new_status: TaskStatus,
    notes: Option<String>,
    now: i64,
)
    requires
        valid_transition(task.status, new_status),
    ensures
        step_after_read(Ok(task), new_status, notes, now) matches UpdateStep::Save(written) && {
            &&& written.status == new_status
            &&& written.updated_at == now
            &&& written.notes == (match notes {
                Some(n) => Some(n),
                None => task.notes,
            })
            &&& written.id == task.id
            &&& written.title == task.title
            &&& written.description == task.description
            &&& written.task_type == task.task_type
            &&& written.assigned_to == task.assigned_to
            &&& written.created_at == task.created_at
            &&& step_after_save(publishes, written, Ok(())) == (if publishes {
                UpdateStep::Publish(written)
            } else {
                UpdateStep::Finish(Ok(written))
            })
            &&& step_after_publish(written, Ok(())) == UpdateStep::Finish(
                Ok::<Task, TaskToolError>(written),
            )
            &&& update_result(publishes, Ok(task), new_status, notes, now, Ok(()), Ok(()))
                == Ok::<Task, TaskToolError>(written)
        },
        forall|sent: Task|
            #[trigger] step_after_publish(sent, Ok(())) == UpdateStep::Finish(
                Ok::<Task, TaskToolError>(sent),
            ),
{
}

/// Every failure ends the update with that same error: a failed read, a
/// failed write and a failed publication are each reported as they came,
/// and a rejected change is reported as the transition that was refused.
pub proof fn lemma_update_failures_are_reported(
    publishes: bool,
    task: Task,
    new_status: TaskStatus,
    notes: Option<String>,
    now: i64,
    e: TaskToolError,
)
    ensures
        step_after_read(Err(e), new_status, notes, now) == UpdateStep::Finish(
            Err::<Task, TaskToolError>(e),
        ),
        !valid_transition(task.status, new_status) ==> step_after_read(
            Ok(task),
            new_status,
            notes,
            now,
        ) == UpdateStep::Finish(
            Err::<Task, TaskToolError>(
                TaskToolError::InvalidTransition { from: task.status, to: new_status },
            ),
        ),
        step_after_save(publishes, task, Err(e)) == UpdateStep::Finish(
            Err::<Task, TaskToolError>(e),
        ),
        step_after_publish(task, Err(e)) == UpdateStep::Finish(Err::<Task, TaskToolError>(e)),
{
}

/// The filters of a listing are exact: a task passes the status filter
/// exactly when it has that status, and the assigned-agent filter exactly
/// when it is assigned and its assignee is that agent, character for
/// character; with both, it must pass each. So a listed task always has the
/// requested status and assignee, and a task assigned to anyone else (or to
/// no one) is never listed under an agent filter.
pub proof fn lemma_filters_are_exact(
    task: Task,
    status: Option<TaskStatus>,
    assigned_to: Option<Seq<char>>,
    records: Seq<Option<Task>>,
    k: int,
)
    ensures
        passes_filters(task, None, None),
        passes_filters(task, status, assigned_to) <==> (passes_filters(task, status, None)
            && passes_filters(task, None, assigned_to)),
        forall|s: TaskStatus| #[trigger] passes_filters(task, Some(s), None) <==> task.status == s,
        forall|a: Seq<char>|
            #[trigger] passes_filters(task, None, Some(a)) <==> (task.assigned_to is Some
                && task.assigned_to->Some_0@ == a),
        0 <= k < listed_tasks(records, status, assigned_to).len() ==> ({
            let listed = listed_tasks(records, status, assigned_to)[k];
            &&& (status matches Some(s) ==> listed.status == s)
            &&& (assigned_to matches Some(a) ==> (listed.assigned_to is Some
                && listed.assigned_to->Some_0@ == a))
        }),
{
    if 0 <= k < listed_tasks(records, status, assigned_to).len() {
        lemma_listed_tasks_sound(records, status, assigned_to, k);
    }
}

/// A listing keeps the order of the records and drops nothing else: the
/// listed tasks are the tasks held by the records, in record order, that
/// pass the filters, each once per record holding it.
pub proof fn lemma_listing_keeps_record_order(
    records: Seq<Option<Task>>,
    status: Option<TaskStatus>,
    assigned_to: Option<Seq<char>>,
)
    ensures
        listed_tasks(records, status, assigned_to) == records.filter_map(
            |r: Option<Task>|
                match r {
                    Some(t) => if passes_filters(t, status, assigned_to) {
                        Some(t)
                    } else {
                        None
                    },
                    None => None,
                },
        ),
    decreases records.len(),
{
    if records.len() > 0 {
        lemma_listing_keeps_record_order(records.drop_last(), status, assigned_to);
        let earlier = listed_tasks(records.drop_last(), status, assigned_to);
        match records.last() {
            Some(t) => {
                if passes_filters(t, status, assigned_to) {
                    assert(earlier.push(t) =~= earlier + seq![t]);
                }
            },
            None => {},
        }
    }
}

} // verus!
