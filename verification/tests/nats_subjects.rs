//! The NATS subject schema and the NATS error messages.

use synapse::nats::subjects;
use synapse::nats::NatsError;

#[test]
fn subject_constants_have_correct_prefix() {
    let all_subjects = [
        subjects::TASK_CREATED,
        subjects::TASK_STATUS_CHANGED,
        subjects::AGENT_LOG_LINE,
        subjects::AGENT_STATUS_CHANGED,
        subjects::CHECKPOINT_REQUIRED,
        subjects::CHECKPOINT_APPROVED,
        subjects::PR_OPENED,
        subjects::PR_REVIEWED,
    ];

    for subject in &all_subjects {
        assert!(
            subject.starts_with("synapse."),
            "subject `{subject}` must start with `synapse.`"
        );
    }
}

#[test]
fn missing_url_message() {
    assert_eq!(NatsError::MissingUrl.message(""), "NATS_URL environment variable not set");
}
