//! A local coding agent's verified core: the prompts it hands a local model,
//! the recovery of tool calls that an inference server left in the message
//! text (with `<think>` reasoning stripped), the MCP tools that expose the
//! agent, and the command line's task selection and run reports.
//!
//! - `text`: character-level trimming, search and decimal rendering.
//! - `think`: removal of `<think>…</think>` reasoning blocks.
//! - `candidates`: JSON snippets pulled out of free-form text.
//! - `json`: the top level of a parsed JSON value, from `serde_json`.
//! - `tool_recovery`: tool calls recovered from candidates; output post-processing.
//! - `prompts`: the task prompts.
//! - `mcp`: the MCP tools' names, schemas, tasks and replies.
//! - `cli`: task selection and run reports of the command line.

pub mod text;
pub mod think;
pub mod candidates;
pub mod json;
pub mod tool_recovery;
pub mod prompts;
pub mod mcp;
pub mod cli;
