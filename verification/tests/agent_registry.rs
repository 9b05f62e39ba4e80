//! The agent registry: which agents are considered for a task, and in which
//! order. Selection asks the candidates for availability in that order and
//! takes the first available one.

use synapse::agent::{select_step, AgentError, AgentRegistry, CodingAgent, SelectionStep};
use synapse::gemini::GeminiCliAgent;
use synapse::task::TaskType;

/// A Gemini agent with the given id (it handles code and review tasks).
fn agent(id: &str) -> GeminiCliAgent {
    GeminiCliAgent::new("http://localhost:3000".to_string(), id.to_string(), "gemini".to_string())
}

/// Drives the library's selection steps, answering each availability
/// question from `available` (indexed by registry position). Returns the
/// chosen agent and the positions asked, in order.
fn select<'a>(
    reg: &'a AgentRegistry<GeminiCliAgent>,
    available: &[bool],
    task_type: TaskType,
    prefer: &[&str],
) -> (Option<&'a GeminiCliAgent>, Vec<usize>) {
    let order = reg.candidates(&task_type, prefer);
    let mut answers = Vec::new();
    let mut asked = Vec::new();
    loop {
        match select_step(&order, &answers) {
            SelectionStep::Ask(i) => {
                asked.push(i);
                answers.push(available[i]);
            }
            SelectionStep::Chosen(i) => return (Some(reg.agent(i)), asked),
            SelectionStep::NoneAvailable => return (None, asked),
        }
    }
}

#[test]
fn registry_selects_available_agent() {
    let mut reg = AgentRegistry::new();
    reg.register(agent("code-agent"));
    let prefer = &["code-agent"];
    let (chosen, _) = select(&reg, &[true], TaskType::Code, prefer);
    assert!(chosen.is_some());
    assert_eq!(chosen.unwrap().id(), "code-agent");
}

#[test]
fn registry_skips_unavailable_and_falls_back() {
    let mut reg = AgentRegistry::new();
    reg.register(agent("code-agent"));
    reg.register(agent("codex"));
    let prefer = &["code-agent", "codex"];
    assert_eq!(reg.candidates(&TaskType::Code, prefer), vec![0, 1]);
    let (chosen, asked) = select(&reg, &[false, true], TaskType::Code, prefer);
    assert!(chosen.is_some());
    assert_eq!(chosen.unwrap().id(), "codex");
    assert_eq!(asked, vec![0, 1]);
}

#[test]
fn registry_returns_none_when_no_agent_available() {
    let reg: AgentRegistry<GeminiCliAgent> = AgentRegistry::new();
    let prefer = &["code-agent"];
    assert!(reg.candidates(&TaskType::Code, prefer).is_empty());
    let (chosen, asked) = select(&reg, &[], TaskType::Code, prefer);
    assert!(chosen.is_none());
    assert!(asked.is_empty());
}

#[test]
fn registry_respects_prefer_order() {
    let mut reg = AgentRegistry::new();
    reg.register(agent("codex"));
    reg.register(agent("code-agent"));
    let prefer = &["code-agent", "codex"];
    assert_eq!(reg.candidates(&TaskType::Code, prefer), vec![1, 0]);
    let (chosen, asked) = select(&reg, &[true, true], TaskType::Code, prefer);
    assert!(chosen.is_some());
    assert_eq!(chosen.unwrap().id(), "code-agent");
    assert_eq!(asked, vec![1]);
}

#[test]
fn registry_ignores_agents_not_in_prefer_list() {
    let mut reg = AgentRegistry::new();
    reg.register(agent("codex"));
    let prefer = &["code-agent"];
    let (chosen, asked) = select(&reg, &[true], TaskType::Code, prefer);
    assert!(chosen.is_none());
    assert!(asked.is_empty());
}

#[test]
fn registry_skips_agents_without_the_task_type() {
    let mut reg = AgentRegistry::new();
    reg.register(agent("critic"));
    reg.register(agent("fixer"));
    reg.register(agent("critic"));
    let prefer = &["critic", "fixer"];
    assert_eq!(reg.candidates(&TaskType::Code, prefer), vec![0, 2, 1]);
    assert_eq!(reg.candidates(&TaskType::Review, prefer), vec![0, 2, 1]);
    assert!(reg.candidates(&TaskType::SecurityPatch, prefer).is_empty());
    assert!(reg.candidates(&TaskType::Code, &[]).is_empty());
    assert_eq!(reg.len(), 3);
}

#[test]
fn selection_steps_stop_at_the_first_available_candidate() {
    assert_eq!(select_step(&vec![4, 2, 7], &vec![]), SelectionStep::Ask(4));
    assert_eq!(select_step(&vec![4, 2, 7], &vec![false]), SelectionStep::Ask(2));
    assert_eq!(select_step(&vec![4, 2, 7], &vec![false, true]), SelectionStep::Chosen(2));
    assert_eq!(select_step(&vec![4, 2, 7], &vec![true]), SelectionStep::Chosen(4));
    assert_eq!(
        select_step(&vec![4, 2, 7], &vec![false, false, false]),
        SelectionStep::NoneAvailable
    );
    assert_eq!(select_step(&vec![], &vec![]), SelectionStep::NoneAvailable);
}

#[test]
fn agent_error_messages() {
    assert_eq!(
        AgentError::NoAvailableAgent { task_type: TaskType::SecurityPatch }.message(),
        "no available agent for task type SecurityPatch"
    );
    assert_eq!(
        AgentError::ExecutionFailed { agent_id: "codex".to_string(), reason: "boom".to_string() }
            .message(),
        "agent codex execution failed: boom"
    );
}
