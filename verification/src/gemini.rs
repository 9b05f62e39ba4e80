//! Gemini CLI agent adapter for the Synapse multi-agent system.
//!
//! [`GeminiCliAgent`] implements the [`CodingAgent`] trait. It executes work
//! by invoking the Gemini CLI binary as a subprocess and talks to the MCP
//! server over HTTP JSON-RPC. The library holds the agent's configuration and
//! decides what it asks the server, what it hands the CLI and how it reads
//! the answers; the HTTP requests and the subprocess are run by the runtime
//! around the library.

pub mod http;

use vstd::prelude::*;

use self::http::{http_client, TimedClient};

use crate::agent::{AgentCapabilities, AgentError, CodingAgent};
use crate::numerals::{
    all_decimal_digits, digits_value, is_decimal_digit, numeral_digits, numeral_value, parse_u64,
};
use crate::task::{Task, TaskType};
use crate::tools::tasks::{ListTasksInput, UpdateTaskInput};

verus! {

#[verifier::external_type_specification]
#[verifier::external_body]
pub struct ExJsonValue(serde_json::Value);

/// The `d`-th decimal digit character.
pub open spec fn digit_char(d: nat) -> char {
    "0123456789"@[d as int]
}

/// The decimal numeral of `n`, most significant digit first, without
/// leading zeros.
pub open spec fn nat_text(n: nat) -> Seq<char>
    decreases n,
{
    if n < 10 {
        seq![digit_char(n)]
    } else {
        nat_text(n / 10) + seq![digit_char(n % 10)]
    }
}

/// The decimal numeral of an integer, with a leading `-` when it is
/// negative: the text `i32`'s `Display` writes.
pub open spec fn decimal_text(v: int) -> Seq<char> {
    if v < 0 {
        "-"@ + nat_text((-v) as nat)
    } else {
        nat_text(v as nat)
    }
}

/// Appends the decimal numeral of `n` to `out`.
fn append_decimal(out: &mut String, n: u64)
    ensures
        final(out)@ == old(out)@ + nat_text(n as nat),
    decreases n,
{
    let ghost start = out@;
    if n >= 10 {
        append_decimal(out, n / 10);
    }
    let d: usize = (n % 10) as usize;
    let digits = "0123456789";
    proof {
        reveal_strlit("0123456789");
    }
    out.append(digits.substring_char(d, d + 1));
    proof {
        assert(digits@.subrange(d as int, d + 1) =~= seq![digit_char(d as nat)]);
        if n >= 10 {
            assert(start + nat_text((n / 10) as nat) + seq![digit_char((n % 10) as nat)]
                =~= start + nat_text(n as nat));
        } else {
            assert(start + seq![digit_char(n as nat)] =~= start + nat_text(n as nat));
        }
    }
}

/// The decimal numeral of an exit code.
fn exit_code_numeral(code: i32) -> (text: String)
    ensures
        text@ == decimal_text(code as int),
{
    let mut text = String::new();
    if code < 0 {
        text.append("-");
        let magnitude: u64 = (-(code as i64)) as u64;
        append_decimal(&mut text, magnitude);
        proof {
            reveal_strlit("-");
        }
    } else {
        append_decimal(&mut text, code as u64);
    }
    text
}

/// Seconds between two polls for work when `POLL_INTERVAL` does not say.
pub open spec fn default_poll_interval_secs() -> u64 {
    5
}

/// The poll interval given by the value of `POLL_INTERVAL`: the value read
/// as a decimal `u64`, or 5 seconds when there is no value or it is not a
/// valid `u64`.
pub open spec fn poll_interval_of(value: Option<Seq<char>>) -> u64 {
    match value {
        Some(text) => match numeral_value(text) {
            Some(v) => if v <= u64::MAX {
                v as u64
            } else {
                default_poll_interval_secs()
            },
            None => default_poll_interval_secs(),
        },
        None => default_poll_interval_secs(),
    }
}

/// The prompt handed to the Gemini CLI for a task.
pub open spec fn task_prompt_of(title: Seq<char>, description: Seq<char>) -> Seq<char> {
    "Task: "@ + title + "\nDescription: "@ + description
}

/// How a JSON-RPC reply from the MCP server is read: an error member makes
/// the call fail with `JSON-RPC error: ` and the error's text; otherwise the
/// result member is the answer, and its absence is a failure too.
pub open spec fn rpc_reply_outcome<V>(error: Option<Seq<char>>, result: Option<V>) -> Result<
    V,
    Seq<char>,
> {
    match error {
        Some(text) => Err("JSON-RPC error: "@ + text),
        None => match result {
            Some(v) => Ok(v),
            None => Err("missing result field"@),
        },
    }
}

/// How a finished CLI run is read: a successful run yields its standard
/// output; otherwise the failure names the exit code (`-1` when the process
/// was ended by a signal) and the standard error.
pub open spec fn cli_run_outcome(
    success: bool,
    exit_code: Option<i32>,
    stdout: Seq<char>,
    stderr: Seq<char>,
) -> Result<Seq<char>, Seq<char>> {
    if success {
        Ok(stdout)
    } else {
        let code = match exit_code {
            Some(c) => c,
            None => -1i32,
        };
        Err("exit code "@ + decimal_text(code as int) + ": "@ + stderr)
    }
}

/// A JSON-RPC request that calls a tool of the MCP server (`tools/call`),
/// with the tool's name and arguments as its parameters.
pub struct McpToolCall {
    /// The JSON-RPC version, `2.0`.
    pub jsonrpc: String,
    /// The JSON-RPC method, `tools/call`.
    pub method: String,
    /// The name of the tool to call.
    pub name: String,
    /// The tool's arguments.
    pub arguments: serde_json::Value,
    /// The request id.
    pub id: u64,
}

/// Gemini CLI agent that implements the [`CodingAgent`] trait.
///
/// # Configuration
///
/// | Env var           | Default                   | Description                      |
/// |-------------------|---------------------------|----------------------------------|
/// | `MCP_URL`         | `http://localhost:3000`   | Base URL of the MCP server       |
/// | `AGENT_ID`        | `gemini-cli`              | Unique agent identifier          |
/// | `GEMINI_CLI_BIN`  | `gemini`                  | Path to the Gemini CLI binary    |
/// | `POLL_INTERVAL`   | `5`                       | Seconds between poll cycles      |
pub struct GeminiCliAgent {
    mcp_url: String,
    agent_id: String,
    gemini_bin: String,
    capabilities: AgentCapabilities,
    client: TimedClient,
}

impl GeminiCliAgent {
    /// Base URL of the MCP server.
    pub closed spec fn spec_mcp_url(self) -> Seq<char> {
        self.mcp_url@
    }

    /// Path to the Gemini CLI binary.
    pub closed spec fn spec_gemini_bin(self) -> Seq<char> {
        self.gemini_bin@
    }

    /// Seconds after which a request to the MCP server times out: the
    /// timeout the agent's HTTP client was built with.
    pub closed spec fn spec_request_timeout_secs(self) -> u64 {
        self.client.spec_timeout_secs()
    }

    /// Creates a new [`GeminiCliAgent`] with explicit configuration values.
    ///
    /// The agent handles code and review tasks, and its requests to the MCP
    /// server time out after 30 seconds.
    pub fn new(mcp_url: String, agent_id: String, gemini_bin: String) -> (agent: Self)
        ensures
            agent.spec_mcp_url() == mcp_url@,
            agent.spec_id() == agent_id@,
            agent.spec_gemini_bin() == gemini_bin@,
            agent.spec_capabilities().agent_id@ == agent_id@,
            agent.spec_capabilities().supported_task_types@ == seq![
                TaskType::Code,
                TaskType::Review,
            ],
            agent.spec_request_timeout_secs() == 30,
    {
        let mut supported_task_types: Vec<TaskType> = Vec::new();
        supported_task_types.push(TaskType::Code);
        supported_task_types.push(TaskType::Review);
        let capabilities = AgentCapabilities { agent_id: agent_id.clone(), supported_task_types };
        let client = http_client(30);
        Self { mcp_url, agent_id, gemini_bin, capabilities, client }
    }

    /// Creates a new [`GeminiCliAgent`] from the values of the `MCP_URL`,
    /// `AGENT_ID` and `GEMINI_CLI_BIN` environment variables, with defaults
    /// for the absent ones.
    pub fn from_settings(
        mcp_url: Option<String>,
        agent_id: Option<String>,
        gemini_bin: Option<String>,
    ) -> (agent: Self)
        ensures
            agent.spec_mcp_url() == match mcp_url {
                Some(u) => u@,
                None => "http://localhost:3000"@,
            },
            agent.spec_id() == match agent_id {
                Some(a) => a@,
                None => "gemini-cli"@,
            },
            agent.spec_gemini_bin() == match gemini_bin {
                Some(b) => b@,
                None => "gemini"@,
            },
            agent.spec_capabilities().agent_id@ == agent.spec_id(),
            agent.spec_capabilities().supported_task_types@ == seq![
                TaskType::Code,
                TaskType::Review,
            ],
            agent.spec_request_timeout_secs() == 30,
    {
        let mcp_url = match mcp_url {
            Some(u) => u,
            None => String::from_str("http://localhost:3000"),
        };
        let agent_id = match agent_id {
            Some(a) => a,
            None => String::from_str("gemini-cli"),
        };
        let gemini_bin = match gemini_bin {
            Some(b) => b,
            None => String::from_str("gemini"),
        };
        Self::new(mcp_url, agent_id, gemini_bin)
    }

    /// Returns the base URL of the MCP server.
    pub fn mcp_url(&self) -> (url: &str)
        ensures
            url@ == self.spec_mcp_url(),
    {
        self.mcp_url.as_str()
    }

    /// Returns the path to the Gemini CLI binary.
    pub fn gemini_bin(&self) -> (bin: &str)
        ensures
            bin@ == self.spec_gemini_bin(),
    {
        self.gemini_bin.as_str()
    }

    /// Returns the number of seconds after which a request to the MCP server
    /// times out.
    pub fn request_timeout_secs(&self) -> (secs: u64)
        ensures
            secs == self.spec_request_timeout_secs(),
    {
        self.client.timeout_secs()
    }

    /// The HTTP client used to reach the MCP server.
    pub closed spec fn spec_client(self) -> reqwest::Client {
        self.client.spec_client()
    }

    /// Returns the HTTP client used to reach the MCP server.
    pub fn client(&self) -> (client: &reqwest::Client)
        ensures
            *client == self.spec_client(),
    {
        self.client.client()
    }

    /// The URL of the MCP endpoint: the server's base URL followed by `/mcp`.
    pub fn mcp_endpoint(&self) -> (url: String)
        ensures
            url@ == self.spec_mcp_url() + "/mcp"@,
    {
        let mut url = self.mcp_url.clone();
        url.append("/mcp");
        url
    }

    /// The JSON-RPC request that calls the MCP tool `tool_name` with
    /// `arguments`.
    pub fn tool_call(tool_name: &str, arguments: serde_json::Value) -> (call: McpToolCall)
        ensures
            call.jsonrpc@ == "2.0"@,
            call.method@ == "tools/call"@,
            call.name@ == tool_name@,
            call.arguments == arguments,
            call.id == 1,
    {
        McpToolCall {
            jsonrpc: String::from_str("2.0"),
            method: String::from_str("tools/call"),
            name: String::from_str(tool_name),
            arguments,
            id: 1,
        }
    }

    /// The arguments of the `list_tasks` call that fetches the pending tasks
    /// assigned to this agent.
    pub fn pending_tasks_query(&self) -> (query: ListTasksInput)
        ensures
            query.status matches Some(s) && s@ == "pending"@,
            query.assigned_to matches Some(a) && a@ == self.spec_id(),
    {
        ListTasksInput {
            status: Some(String::from_str("pending")),
            assigned_to: Some(self.agent_id.clone()),
        }
    }

    /// The arguments of the `list_tasks` call that probes whether the MCP
    /// server answers for this agent (all tasks assigned to it, any status).
    pub fn availability_query(&self) -> (query: ListTasksInput)
        ensures
            query.status is None,
            query.assigned_to matches Some(a) && a@ == self.spec_id(),
    {
        ListTasksInput { status: None, assigned_to: Some(self.agent_id.clone()) }
    }

    /// The arguments of the `update_task` call that sets a task's status,
    /// with notes only when some are given.
    pub fn status_update(task_id: &str, status: &str, notes: Option<&str>) -> (update:
        UpdateTaskInput)
        ensures
            update.id@ == task_id@,
            update.status@ == status@,
            match (update.notes, notes) {
                (Some(n), Some(m)) => n@ == m@,
                (None, None) => true,
                _ => false,
            },
    {
        UpdateTaskInput {
            id: String::from_str(task_id),
            status: String::from_str(status),
            notes: match notes {
                Some(n) => Some(String::from_str(n)),
                None => None,
            },
        }
    }

    /// Reads a JSON-RPC reply from the MCP server, given the text of its
    /// error member (if any) and its result member (if any).
    pub fn rpc_reply<V>(error: Option<String>, result: Option<V>) -> (outcome: Result<V, String>)
        ensures
            match (outcome, rpc_reply_outcome(
                match error {
                    Some(e) => Some(e@),
                    None => None,
                },
                result,
            )) {
                (Ok(v), Ok(w)) => v == w,
                (Err(m), Err(n)) => m@ == n,
                _ => false,
            },
    {
        match error {
            Some(text) => {
                let mut message = String::from_str("JSON-RPC error: ");
                message.append(text.as_str());
                Err(message)
            },
            None => match result {
                Some(v) => Ok(v),
                None => Err(String::from_str("missing result field")),
            },
        }
    }

    /// The prompt handed to the Gemini CLI for `task`.
    pub fn task_prompt(task: &Task) -> (prompt: String)
        ensures
            prompt@ == task_prompt_of(task.title@, task.description@),
    {
        let mut prompt = String::from_str("Task: ");
        prompt.append(task.title.as_str());
        prompt.append("\nDescription: ");
        prompt.append(task.description.as_str());
        prompt
    }

    /// Reads a finished CLI run: its success flag, exit code, and captured
    /// standard output and error.
    pub fn cli_outcome(success: bool, exit_code: Option<i32>, stdout: String, stderr: String) -> (
    outcome: Result<String, String>)
        ensures
            match (outcome, cli_run_outcome(success, exit_code, stdout@, stderr@)) {
                (Ok(out), Ok(o)) => out@ == o,
                (Err(m), Err(n)) => m@ == n,
                _ => false,
            },
    {
        if success {
            return Ok(stdout);
        }
        let code = match exit_code {
            Some(c) => c,
            None => -1i32,
        };
        let mut message = String::from_str("exit code ");
        message.append(exit_code_numeral(code).as_str());
        message.append(": ");
        message.append(stderr.as_str());
        Err(message)
    }

    /// The text that reports a CLI binary that could not be started;
    /// `reason` is the displayed text of the I/O error the spawn returned.
    pub fn spawn_failed(reason: &str) -> (detail: String)
        ensures
            detail@ == "failed to spawn: "@ + reason@,
    {
        let mut detail = String::from_str("failed to spawn: ");
        detail.append(reason);
        detail
    }

    /// The error reported when the CLI subprocess of this agent failed, with
    /// `detail` saying how.
    pub fn subprocess_failure(&self, detail: &str) -> (error: AgentError)
        ensures
            error matches AgentError::ExecutionFailed { agent_id, reason } && agent_id@
                == self.spec_id() && reason@ == "CLI subprocess failed: "@ + detail@,
    {
        let mut reason = String::from_str("CLI subprocess failed: ");
        reason.append(detail);
        self.execution_failure(reason)
    }

    /// The error reported when this agent failed to execute a task.
    pub fn execution_failure(&self, reason: String) -> (error: AgentError)
        ensures
            error matches AgentError::ExecutionFailed { agent_id, reason: r } && agent_id@
                == self.spec_id() && r == reason,
    {
        AgentError::ExecutionFailed { agent_id: self.agent_id.clone(), reason }
    }

    /// Returns the poll interval, in seconds, given by the value of the
    /// `POLL_INTERVAL` environment variable, defaulting to 5 seconds.
    pub fn poll_interval_secs(value: Option<&str>) -> (secs: u64)
        ensures
            secs == poll_interval_of(
                match value {
                    Some(v) => Some(v@),
                    None => None,
                },
            ),
    {
        match value {
            Some(text) => match parse_u64(text) {
                Some(secs) => secs,
                None => 5,
            },
            None => 5,
        }
    }
}

impl CodingAgent for GeminiCliAgent {
    closed spec fn spec_id(&self) -> Seq<char> {
        self.agent_id@
    }

    closed spec fn spec_capabilities(&self) -> AgentCapabilities {
        self.capabilities
    }

    fn id(&self) -> (id: &str) {
        self.agent_id.as_str()
    }

    fn capabilities(&self) -> (capabilities: &AgentCapabilities) {
        &self.capabilities
    }
}

/// The `d`-th decimal digit character is that digit.
proof fn lemma_digit_char(d: nat)
    requires
        d < 10,
    ensures
        is_decimal_digit(digit_char(d)),
        digit_char(d) as int - '0' as int == d,
{
    reveal_strlit("0123456789");
    assert("0123456789"@[0] == '0');
    assert("0123456789"@[1] == '1');
    assert("0123456789"@[2] == '2');
    assert("0123456789"@[3] == '3');
    assert("0123456789"@[4] == '4');
    assert("0123456789"@[5] == '5');
    assert("0123456789"@[6] == '6');
    assert("0123456789"@[7] == '7');
    assert("0123456789"@[8] == '8');
    assert("0123456789"@[9] == '9');
}

/// Decimal numerals read back as the numbers they were written for: the
/// numeral written for `n` is a non-empty run of digits whose value, read
/// as a numeral, is `n`.
pub proof fn lemma_decimal_numerals_read_back(n: nat)
    ensures
        nat_text(n).len() > 0,
        all_decimal_digits(nat_text(n)),
        digits_value(nat_text(n)) == n,
        numeral_value(nat_text(n)) == Some(n),
    decreases n,
{
    let t = nat_text(n);
    if n < 10 {
        lemma_digit_char(n);
        assert(t.drop_last() =~= Seq::<char>::empty());
        assert(digits_value(t.drop_last()) == 0);
        assert(digits_value(t) == n);
    } else {
        lemma_decimal_numerals_read_back(n / 10);
        lemma_digit_char(n % 10);
        let front = nat_text(n / 10);
        assert(t.drop_last() =~= front);
        assert(t.last() == digit_char(n % 10));
        assert(digits_value(t) == digits_value(front) * 10 + (n % 10));
        assert(n == (n / 10) * 10 + n % 10) by (nonlinear_arith);
        assert forall|i: int| 0 <= i < t.len() implies is_decimal_digit(#[trigger] t[i]) by {
            if i < front.len() {
                assert(t[i] == front[i]);
            }
        }
    }
    assert(is_decimal_digit(t[0]));
    assert(numeral_digits(t) == t);
}

} // verus!
