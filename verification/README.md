# synapse

The rules of a multi-agent development orchestrator, verified with Verus.

Coding agents pull tasks from an MCP server, move them through a small state
machine (`pending -> in_progress -> in_review -> done`, with `blocked` as a
side track), and share context through a Redis-backed key/value namespace.

## Layout

- `src/` — the library, verified:
  - `task.rs` — tasks and the status state machine, with its laws
    (no self-transitions, `done` is terminal, `done` is reachable, …).
  - `tools/tasks.rs` — the task store's rules: where a task is stored, which
    stored tasks a listing returns, what a status update does and the order
    of its read, write and publication, how tool failures are reported.
  - `tools/context.rs` — the context namespace (`synapse:ctx:`), the
    `search_memory` pattern (with glob characters escaped) and result shaping.
  - `agent.rs` — the agent registry, the preference order in which agents
    are considered for a task, and the steps that select the first available
    one.
  - `gemini.rs`, `gemini/http.rs` — the Gemini CLI agent's configuration and
    HTTP client, the MCP requests it sends and how it reads answers and CLI
    runs.
  - `config.rs`, `numerals.rs` — server ports and poll intervals from
    environment values, with a verified reading of decimal numerals.
  - `storage.rs`, `storage/sqlite.rs`, `nats.rs`, `handler.rs`, `grpc.rs` —
    connection handles and the URLs they are opened from, their errors, and
    the server state built from them.
- `app/` — the MCP server program: Redis, NATS, SQLite, HTTP and subprocess
  I/O, JSON encoding, and the MCP tool plumbing, all calling into the library.
- `tests/` — tests of the library.
