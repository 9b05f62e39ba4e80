//! The Gemini CLI agent: configuration, requests and the reading of answers.

use synapse::agent::CodingAgent;
use synapse::gemini::GeminiCliAgent;
use synapse::task::{Task, TaskStatus, TaskType};

#[test]
fn agent_from_env_defaults() {
    let agent = GeminiCliAgent::from_settings(None, None, None);
    assert_eq!(agent.mcp_url(), "http://localhost:3000");
    assert_eq!(agent.id(), "gemini-cli");
    assert_eq!(agent.gemini_bin(), "gemini");
}

#[test]
fn agent_id_returns_configured_id() {
    let agent = GeminiCliAgent::new(
        "http://test:3000".to_string(),
        "test-gemini".to_string(),
        "/usr/bin/gemini".to_string(),
    );
    assert_eq!(agent.id(), "test-gemini");
}

#[test]
fn capabilities_include_code_and_review() {
    let agent = GeminiCliAgent::new(
        "http://test:3000".to_string(),
        "gemini-cli".to_string(),
        "gemini".to_string(),
    );
    let caps = agent.capabilities();
    assert_eq!(caps.agent_id, "gemini-cli");
    assert!(caps.supported_task_types.contains(&TaskType::Code));
    assert!(caps.supported_task_types.contains(&TaskType::Review));
}

#[test]
fn new_builds_with_custom_values() {
    let agent = GeminiCliAgent::new(
        "http://custom:9000".to_string(),
        "custom-agent".to_string(),
        "/opt/gemini".to_string(),
    );
    assert_eq!(agent.mcp_url(), "http://custom:9000");
    assert_eq!(agent.id(), "custom-agent");
    assert_eq!(agent.gemini_bin(), "/opt/gemini");
}

#[test]
fn settings_override_defaults() {
    let agent = GeminiCliAgent::from_settings(
        Some("http://mcp:3000".to_string()),
        Some("gemini-2".to_string()),
        None,
    );
    assert_eq!(agent.mcp_url(), "http://mcp:3000");
    assert_eq!(agent.id(), "gemini-2");
    assert_eq!(agent.capabilities().agent_id, "gemini-2");
    assert_eq!(agent.gemini_bin(), "gemini");
}

#[test]
fn poll_interval_default() {
    assert_eq!(GeminiCliAgent::poll_interval_secs(None), 5);
    assert_eq!(GeminiCliAgent::poll_interval_secs(Some("soon")), 5);
}

#[test]
fn poll_interval_from_env() {
    assert_eq!(GeminiCliAgent::poll_interval_secs(Some("10")), 10);
}

#[test]
fn requests_go_to_the_mcp_endpoint() {
    let agent = GeminiCliAgent::from_settings(None, None, None);
    assert_eq!(agent.mcp_endpoint(), "http://localhost:3000/mcp");
    let pending = agent.pending_tasks_query();
    assert_eq!(pending.status.as_deref(), Some("pending"));
    assert_eq!(pending.assigned_to.as_deref(), Some("gemini-cli"));
    let probe = agent.availability_query();
    assert_eq!(probe.status, None);
    assert_eq!(probe.assigned_to.as_deref(), Some("gemini-cli"));
    let update = GeminiCliAgent::status_update("t-1", "done", Some("all good"));
    assert_eq!(update.id, "t-1");
    assert_eq!(update.status, "done");
    assert_eq!(update.notes.as_deref(), Some("all good"));
    assert_eq!(GeminiCliAgent::status_update("t-1", "done", None).notes, None);
}

#[test]
fn rpc_replies_are_read_in_order_error_result() {
    assert_eq!(GeminiCliAgent::rpc_reply(None, Some(7)), Ok(7));
    assert_eq!(
        GeminiCliAgent::rpc_reply(Some("{\"code\":-32601}".to_string()), Some(7)),
        Err("JSON-RPC error: {\"code\":-32601}".to_string())
    );
    assert_eq!(
        GeminiCliAgent::rpc_reply::<u8>(None, None),
        Err("missing result field".to_string())
    );
}

#[test]
fn task_prompt_names_title_and_description() {
    let task = Task {
        id: "t-1".to_string(),
        title: "test".to_string(),
        description: "test task".to_string(),
        status: TaskStatus::Pending,
        task_type: TaskType::Code,
        assigned_to: Some("gemini-cli".to_string()),
        notes: None,
        created_at: 0,
        updated_at: 0,
    };
    assert_eq!(GeminiCliAgent::task_prompt(&task), "Task: test\nDescription: test task");
}

#[test]
fn cli_runs_are_read_by_exit_status() {
    assert_eq!(
        GeminiCliAgent::cli_outcome(true, Some(0), "done".to_string(), String::new()),
        Ok("done".to_string())
    );
    assert_eq!(
        GeminiCliAgent::cli_outcome(false, Some(2), String::new(), "bad flag".to_string()),
        Err("exit code 2: bad flag".to_string())
    );
    assert_eq!(
        GeminiCliAgent::cli_outcome(false, None, String::new(), "killed".to_string()),
        Err("exit code -1: killed".to_string())
    );
}

#[test]
fn execution_failures_name_the_agent() {
    let agent = GeminiCliAgent::from_settings(None, None, None);
    let error = agent.execution_failure("CLI subprocess failed: failed to spawn".to_string());
    assert_eq!(
        error.message(),
        "agent gemini-cli execution failed: CLI subprocess failed: failed to spawn"
    );
}

#[test]
fn cli_exit_codes_are_written_in_decimal() {
    assert_eq!(
        GeminiCliAgent::cli_outcome(false, Some(127), String::new(), "not found".to_string()),
        Err("exit code 127: not found".to_string())
    );
    assert_eq!(
        GeminiCliAgent::cli_outcome(false, Some(i32::MIN), String::new(), String::new()),
        Err("exit code -2147483648: ".to_string())
    );
    assert_eq!(
        GeminiCliAgent::cli_outcome(false, Some(i32::MAX), String::new(), "x".to_string()),
        Err("exit code 2147483647: x".to_string())
    );
    assert_eq!(
        GeminiCliAgent::cli_outcome(false, Some(10), String::new(), String::new()),
        Err("exit code 10: ".to_string())
    );
}

#[test]
fn requests_time_out_after_thirty_seconds() {
    let agent = GeminiCliAgent::from_settings(None, None, None);
    assert_eq!(agent.request_timeout_secs(), 30);
    let agent = GeminiCliAgent::new(
        "http://test:3000".to_string(),
        "test-gemini".to_string(),
        "/usr/bin/gemini".to_string(),
    );
    assert_eq!(agent.request_timeout_secs(), 30);
}

#[test]
fn tool_calls_are_json_rpc_requests() {
    let arguments = serde_json::Value::String("args".to_string());
    let call = GeminiCliAgent::tool_call("list_tasks", arguments.clone());
    assert_eq!(call.jsonrpc, "2.0");
    assert_eq!(call.method, "tools/call");
    assert_eq!(call.name, "list_tasks");
    assert_eq!(call.arguments, arguments);
    assert_eq!(call.id, 1);
}

#[test]
fn missing_binary_is_a_subprocess_failure() {
    let agent = GeminiCliAgent::new(
        "http://localhost:3000".to_string(),
        "gemini-cli".to_string(),
        "/nonexistent/gemini-binary-that-does-not-exist".to_string(),
    );
    let spawn_error = std::io::Error::new(std::io::ErrorKind::NotFound, "no such file");
    let detail = GeminiCliAgent::spawn_failed(&spawn_error.to_string());
    assert_eq!(detail, "failed to spawn: no such file");
    match agent.subprocess_failure(&detail) {
        synapse::agent::AgentError::ExecutionFailed { agent_id, reason } => {
            assert_eq!(agent_id, "gemini-cli");
            assert!(reason.starts_with("CLI subprocess failed: failed to spawn"));
        }
        other => panic!("unexpected error: {:?}", other),
    }
}

#[test]
fn poll_interval_reads_u64_numerals() {
    assert_eq!(GeminiCliAgent::poll_interval_secs(Some("18446744073709551615")), u64::MAX);
    assert_eq!(GeminiCliAgent::poll_interval_secs(Some("18446744073709551616")), 5);
    assert_eq!(GeminiCliAgent::poll_interval_secs(Some("+7")), 7);
    assert_eq!(GeminiCliAgent::poll_interval_secs(Some("007")), 7);
    assert_eq!(GeminiCliAgent::poll_interval_secs(Some("7s")), 5);
    assert_eq!(GeminiCliAgent::poll_interval_secs(Some("٣")), 5);
}
