# local-coding-agent

A small local coding agent: it hands a local model (served by Ollama through
its OpenAI-compatible API) two read-only filesystem tools and a task prompt,
and prints the answer. It can also run as an MCP server whose read-only tools
delegate to the local agent.

Layout:

- `src/` — the library, verified with Verus: prompts, `<think>` stripping,
  recovery of tool calls left as raw JSON in model text, the MCP tools'
  descriptions, tasks and replies, and the command line's decisions. Each
  public function states its result in its contract; the `law_*` proof
  functions state what holds across calls.
- `app/` — the program around it: argument parsing, the environment, the
  agent loop, the `Model` wrapper and the MCP server (`harness-rs`).
- `tests/` — tests of the library on concrete inputs.
