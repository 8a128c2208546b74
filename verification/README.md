# workflow_executor

The decisions of a workflow executor, verified with Verus, and Python bindings around them.

- `src/` is the library. `executor.rs`, `config.rs` and `stats.rs` hold the executor with its
  settings and counts. `session.rs` carries out the tool calls that a run leaves pending; what it
  is to do stands in `protocol.rs`, `tool_calls.rs` and `response.rs`. `context.rs` and
  `workflow.rs` hold what it works on. `laws/` states what holds of the whole.
- `json.rs` holds all that is believed of `serde_json` without proof; `text.rs` and `stats.rs`
  hold the little that is believed of the standard library.
- `app/` runs the engine under a time limit, performs the actions of a session and speaks to
  Python. Engines, language models and guardrails plug in through the traits of
  `app/backend.rs`.
- `tests/` runs the library.
