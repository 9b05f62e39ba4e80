//! Task domain types for the Synapse system.

use vstd::prelude::*;

verus! {

/// Unique identifier for a task.
pub type TaskId = String;

/// The current lifecycle state of a [`Task`].
///
/// State machine transitions:
///
/// ```text
/// Pending --> InProgress --> InReview --> Done
///    |            |             |
///    v            v             v
///  Blocked <-- Blocked <-- Blocked
///    |
///    +--> Pending | InProgress
/// ```
///
/// `Done` is a terminal state -- no transitions out of it are allowed.
/// Self-transitions (e.g. `Pending -> Pending`) are also rejected.
#[derive(Debug, Clone, Copy, PartialEq, Eq, Structural)]
pub enum TaskStatus {
    /// Waiting to be picked up by an agent.
    Pending,
    /// The task is being worked on.
    InProgress,
    /// The task output is awaiting review.
    InReview,
    /// The task has been completed successfully.
    Done,
    /// The task cannot proceed and needs human intervention.
    Blocked,
}

/// The transition relation of the task state machine, edge by edge.
pub open spec fn valid_transition(from: TaskStatus, to: TaskStatus) -> bool {
    match (from, to) {
        (TaskStatus::Pending, TaskStatus::InProgress) => true,
        (TaskStatus::Pending, TaskStatus::Blocked) => true,
        (TaskStatus::InProgress, TaskStatus::InReview) => true,
        (TaskStatus::InProgress, TaskStatus::Done) => true,
        (TaskStatus::InProgress, TaskStatus::Blocked) => true,
        (TaskStatus::InReview, TaskStatus::Done) => true,
        (TaskStatus::InReview, TaskStatus::InProgress) => true,
        (TaskStatus::InReview, TaskStatus::Blocked) => true,
        (TaskStatus::Blocked, TaskStatus::Pending) => true,
        (TaskStatus::Blocked, TaskStatus::InProgress) => true,
        _ => false,
    }
}

impl TaskStatus {
    /// Returns `true` if transitioning from `self` to `target` is a valid
    /// state machine transition.
    ///
    /// The allowed transitions are:
    /// - `Pending` -> `InProgress` | `Blocked`
    /// - `InProgress` -> `InReview` | `Done` | `Blocked`
    /// - `InReview` -> `Done` | `InProgress` | `Blocked`
    /// - `Blocked` -> `Pending` | `InProgress`
    /// - `Done` -> (none -- terminal)
    ///
    /// Self-transitions are never allowed.
    pub fn can_transition_to(&self, target: &TaskStatus) -> (allowed: bool)
        ensures
            allowed == valid_transition(*self, *target),
    {
        if *self == *target {
            return false;
        }
        match (self, target) {
            (TaskStatus::Pending, TaskStatus::InProgress) => true,
            (TaskStatus::Pending, TaskStatus::Blocked) => true,
            (TaskStatus::InProgress, TaskStatus::InReview) => true,
            (TaskStatus::InProgress, TaskStatus::Done) => true,
            (TaskStatus::InProgress, TaskStatus::Blocked) => true,
            (TaskStatus::InReview, TaskStatus::Done) => true,
            (TaskStatus::InReview, TaskStatus::InProgress) => true,
            (TaskStatus::InReview, TaskStatus::Blocked) => true,
            (TaskStatus::Blocked, TaskStatus::Pending) => true,
            (TaskStatus::Blocked, TaskStatus::InProgress) => true,
            _ => false,
        }
    }
}

/// The name under which a status is shown in messages.
pub open spec fn status_label(s: TaskStatus) -> Seq<char> {
    match s {
        TaskStatus::Pending => "Pending"@,
        TaskStatus::InProgress => "InProgress"@,
        TaskStatus::InReview => "InReview"@,
        TaskStatus::Done => "Done"@,
        TaskStatus::Blocked => "Blocked"@,
    }
}

impl TaskStatus {
    /// Returns the name under which this status is shown in messages (its
    /// variant name).
    pub fn label(&self) -> (label: &'static str)
        ensures
            label@ == status_label(*self),
    {
        match self {
            TaskStatus::Pending => "Pending",
            TaskStatus::InProgress => "InProgress",
            TaskStatus::InReview => "InReview",
            TaskStatus::Done => "Done",
            TaskStatus::Blocked => "Blocked",
        }
    }
}

/// The category of work a task represents.
#[derive(Debug, Clone, Copy, PartialEq, Eq, Structural)]
pub enum TaskType {
    /// A coding / implementation task.
    Code,
    /// A code review task.
    Review,
    /// A security patch task.
    SecurityPatch,
}

/// The name under which a task type is shown in messages.
pub open spec fn task_type_label(t: TaskType) -> Seq<char> {
    match t {
        TaskType::Code => "Code"@,
        TaskType::Review => "Review"@,
        TaskType::SecurityPatch => "SecurityPatch"@,
    }
}

impl TaskType {
    /// Returns the name under which a task type is shown in messages (its
    /// variant name).
    pub fn label(&self) -> (label: &'static str)
        ensures
            label@ == task_type_label(*self),
    {
        match self {
            TaskType::Code => "Code",
            TaskType::Review => "Review",
            TaskType::SecurityPatch => "SecurityPatch",
        }
    }
}

/// A unit of work assigned to an agent.
#[derive(Debug, Clone)]
pub struct Task {
    /// Unique task identifier.
    pub id: TaskId,
    /// Human-readable title.
    pub title: String,
    /// Detailed description of the work to be done.
    pub description: String,
    /// Current lifecycle state.
    pub status: TaskStatus,
    /// Category of work.
    pub task_type: TaskType,
    /// Agent ID the task is assigned to, if any.
    pub assigned_to: Option<String>,
    /// Optional human-readable notes (used for blockers, review comments, etc.).
    pub notes: Option<String>,
    /// Unix timestamp (seconds) when the task was created.
    pub created_at: i64,
    /// Unix timestamp (seconds) when the task was last updated.
    pub updated_at: i64,
}

// ── Laws of the state machine ───────────────────────────────────────────────

/// No status may transition to itself.
pub proof fn lemma_no_self_transition(s: TaskStatus)
    ensures
        !valid_transition(s, s),
{
}

/// `Done` is terminal: there is no transition out of it.
pub proof fn lemma_done_is_terminal(target: TaskStatus)
    ensures
        !valid_transition(TaskStatus::Done, target),
{
}

/// Every status other than `Done` has at least one way forward.
pub proof fn lemma_only_done_is_terminal(s: TaskStatus)
    requires
        s != TaskStatus::Done,
    ensures
        exists|t: TaskStatus| valid_transition(s, t),
{
    match s {
        TaskStatus::Pending => assert(valid_transition(s, TaskStatus::InProgress)),
        TaskStatus::InProgress => assert(valid_transition(s, TaskStatus::Done)),
        TaskStatus::InReview => assert(valid_transition(s, TaskStatus::Done)),
        TaskStatus::Blocked => assert(valid_transition(s, TaskStatus::InProgress)),
        TaskStatus::Done => {},
    }
}

/// Any task that is still active (`Pending`, `InProgress` or `InReview`) can
/// be moved to `Blocked`, and a blocked task can always be resumed as
/// `Pending` or `InProgress`.
pub proof fn lemma_block_and_unblock(s: TaskStatus)
    ensures
        (s == TaskStatus::Pending || s == TaskStatus::InProgress || s == TaskStatus::InReview)
            ==> valid_transition(s, TaskStatus::Blocked),
        valid_transition(TaskStatus::Blocked, TaskStatus::Pending),
        valid_transition(TaskStatus::Blocked, TaskStatus::InProgress),
        !valid_transition(TaskStatus::Blocked, TaskStatus::InReview),
        !valid_transition(TaskStatus::Blocked, TaskStatus::Done),
{
}

/// A path of statuses in which every consecutive pair is an allowed
/// transition.
pub open spec fn is_valid_path(path: Seq<TaskStatus>) -> bool {
    forall|i: int| 0 <= i < path.len() - 1 ==> #[trigger] valid_transition(path[i], path[i + 1])
}

/// `Done` can be reached from every status, in at most three transitions.
pub proof fn lemma_done_reachable(s: TaskStatus)
    ensures
        exists|path: Seq<TaskStatus>|
            #![trigger is_valid_path(path)]
            path.len() >= 1 && path.len() <= 4 && path[0] == s && path[path.len() - 1]
                == TaskStatus::Done && is_valid_path(path),
{
    let path = match s {
        TaskStatus::Pending => seq![
            TaskStatus::Pending,
            TaskStatus::InProgress,
            TaskStatus::Done,
        ],
        TaskStatus::InProgress => seq![TaskStatus::InProgress, TaskStatus::Done],
        TaskStatus::InReview => seq![TaskStatus::InReview, TaskStatus::Done],
        TaskStatus::Blocked => seq![TaskStatus::Blocked, TaskStatus::InProgress, TaskStatus::Done],
        TaskStatus::Done => seq![TaskStatus::Done],
    };
    assert(is_valid_path(path));
}

/// The documented moves of the state machine, and no others: a pending task
/// may start or be blocked; a task in progress may go to review, be done or
/// be blocked; a task in review may be done, go back to work or be blocked;
/// a blocked task may return to pending or resume work; a done task stays
/// done.
pub proof fn lemma_transition_table(target: TaskStatus)
    ensures
        valid_transition(TaskStatus::Pending, target) <==> (target == TaskStatus::InProgress
            || target == TaskStatus::Blocked),
        valid_transition(TaskStatus::InProgress, target) <==> (target == TaskStatus::InReview
            || target == TaskStatus::Done || target == TaskStatus::Blocked),
        valid_transition(TaskStatus::InReview, target) <==> (target == TaskStatus::Done || target
            == TaskStatus::InProgress || target == TaskStatus::Blocked),
        valid_transition(TaskStatus::Blocked, target) <==> (target == TaskStatus::Pending
            || target == TaskStatus::InProgress),
        !valid_transition(TaskStatus::Done, target),
{
}

} // verus!
