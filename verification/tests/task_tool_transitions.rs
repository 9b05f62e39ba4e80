//! The transitions the `update_task` tool accepts, case by case.

use synapse::task::TaskStatus;

#[test]
fn tasks_pending_can_go_to_in_progress() {
    assert!(TaskStatus::Pending.can_transition_to(&TaskStatus::InProgress));
}

#[test]
fn tasks_pending_can_go_to_blocked() {
    assert!(TaskStatus::Pending.can_transition_to(&TaskStatus::Blocked));
}

#[test]
fn tasks_pending_cannot_skip_to_done() {
    assert!(!TaskStatus::Pending.can_transition_to(&TaskStatus::Done));
}

#[test]
fn tasks_pending_cannot_skip_to_in_review() {
    assert!(!TaskStatus::Pending.can_transition_to(&TaskStatus::InReview));
}

#[test]
fn tasks_in_progress_can_go_to_in_review() {
    assert!(TaskStatus::InProgress.can_transition_to(&TaskStatus::InReview));
}

#[test]
fn tasks_in_progress_can_go_to_done() {
    assert!(TaskStatus::InProgress.can_transition_to(&TaskStatus::Done));
}

#[test]
fn tasks_in_progress_can_go_to_blocked() {
    assert!(TaskStatus::InProgress.can_transition_to(&TaskStatus::Blocked));
}

#[test]
fn tasks_in_review_can_go_to_done() {
    assert!(TaskStatus::InReview.can_transition_to(&TaskStatus::Done));
}

#[test]
fn tasks_in_review_can_go_to_blocked() {
    assert!(TaskStatus::InReview.can_transition_to(&TaskStatus::Blocked));
}

#[test]
fn tasks_in_review_can_go_back_to_in_progress() {
    assert!(TaskStatus::InReview.can_transition_to(&TaskStatus::InProgress));
}

#[test]
fn tasks_blocked_can_go_to_pending() {
    assert!(TaskStatus::Blocked.can_transition_to(&TaskStatus::Pending));
}

#[test]
fn tasks_blocked_can_go_to_in_progress() {
    assert!(TaskStatus::Blocked.can_transition_to(&TaskStatus::InProgress));
}

#[test]
fn tasks_done_is_terminal() {
    assert!(!TaskStatus::Done.can_transition_to(&TaskStatus::Pending));
    assert!(!TaskStatus::Done.can_transition_to(&TaskStatus::InProgress));
    assert!(!TaskStatus::Done.can_transition_to(&TaskStatus::InReview));
    assert!(!TaskStatus::Done.can_transition_to(&TaskStatus::Blocked));
    assert!(!TaskStatus::Done.can_transition_to(&TaskStatus::Done));
}

#[test]
fn tasks_self_transitions_not_allowed() {
    assert!(!TaskStatus::Pending.can_transition_to(&TaskStatus::Pending));
    assert!(!TaskStatus::InProgress.can_transition_to(&TaskStatus::InProgress));
    assert!(!TaskStatus::InReview.can_transition_to(&TaskStatus::InReview));
    assert!(!TaskStatus::Blocked.can_transition_to(&TaskStatus::Blocked));
}
