//! All NATS subjects used by Synapse.
//!
//! Every subject is defined here to prevent accidental typos or undocumented
//! subject invention.

use vstd::prelude::*;

verus! {

/// A new task has been created.
pub const TASK_CREATED: &'static str = "synapse.task.created";
/// A task's status has changed.
pub const TASK_STATUS_CHANGED: &'static str = "synapse.task.status_changed";
/// A single log line produced by an agent.
pub const AGENT_LOG_LINE: &'static str = "synapse.agent.log_line";
/// An agent's overall status has changed (online / paused / offline).
pub const AGENT_STATUS_CHANGED: &'static str = "synapse.agent.status_changed";
/// A human checkpoint is required before the agent may continue.
pub const CHECKPOINT_REQUIRED: &'static str = "synapse.checkpoint.required";
/// A human has approved a checkpoint.
pub const CHECKPOINT_APPROVED: &'static str = "synapse.checkpoint.approved";
/// A pull request has been opened by an agent.
pub const PR_OPENED: &'static str = "synapse.pr.opened";
/// A pull request has been reviewed.
pub const PR_REVIEWED: &'static str = "synapse.pr.reviewed";

/// The namespace every Synapse subject lives under.
pub open spec fn in_synapse_namespace(subject: Seq<char>) -> bool {
    subject.len() >= 8 && subject.subrange(0, 8) == "synapse."@
}

/// Every subject of the schema lies in the `synapse.` namespace.
pub proof fn lemma_subjects_in_synapse_namespace()
    ensures
        in_synapse_namespace(TASK_CREATED@),
        in_synapse_namespace(TASK_STATUS_CHANGED@),
        in_synapse_namespace(AGENT_LOG_LINE@),
        in_synapse_namespace(AGENT_STATUS_CHANGED@),
        in_synapse_namespace(CHECKPOINT_REQUIRED@),
        in_synapse_namespace(CHECKPOINT_APPROVED@),
        in_synapse_namespace(PR_OPENED@),
        in_synapse_namespace(PR_REVIEWED@),
{
    reveal_strlit("synapse.");
    reveal_strlit("synapse.task.created");
    reveal_strlit("synapse.task.status_changed");
    reveal_strlit("synapse.agent.log_line");
    reveal_strlit("synapse.agent.status_changed");
    reveal_strlit("synapse.checkpoint.required");
    reveal_strlit("synapse.checkpoint.approved");
    reveal_strlit("synapse.pr.opened");
    reveal_strlit("synapse.pr.reviewed");
    assert(TASK_CREATED@.subrange(0, 8) =~= "synapse."@);
    assert(TASK_STATUS_CHANGED@.subrange(0, 8) =~= "synapse."@);
    assert(AGENT_LOG_LINE@.subrange(0, 8) =~= "synapse."@);
    assert(AGENT_STATUS_CHANGED@.subrange(0, 8) =~= "synapse."@);
    assert(CHECKPOINT_REQUIRED@.subrange(0, 8) =~= "synapse."@);
    assert(CHECKPOINT_APPROVED@.subrange(0, 8) =~= "synapse."@);
    assert(PR_OPENED@.subrange(0, 8) =~= "synapse."@);
    assert(PR_REVIEWED@.subrange(0, 8) =~= "synapse."@);
}

} // verus!
