//! Task prompts shared by the command line and the MCP tools, so the wording
//! that makes a small local model behave (use tools, stay concrete, then
//! deliver) lives in exactly one place.
//!
//! Each public function returns a fully scaffolded task string ready to hand
//! to the agent loop.

use vstd::prelude::*;
use crate::text::{trim, trimmed};

verus! {

broadcast use vstd::string::group_string_axioms;

/// The tool-use and delivery scaffolding appended to every task: weak local
/// models need to be told to emit a tool call as bare JSON, to act rather
/// than narrate, and to deliver without asking follow-up questions.
pub const TOOL_USE_GUIDE: &'static str = "\n\nYou have two read-only tools: `list_dir` and `read_file`. \
    When you want to use one, reply with ONLY a JSON object like \
    {\"name\": \"read_file\", \"arguments\": {\"path\": \"Cargo.toml\"}} and nothing \
    else — no narration. Make one tool call per reply. When finished, reply with your \
    final answer as plain prose and stop. Do NOT ask questions; deliver the answer directly.";

/// The instruction of the project summary.
pub const SUMMARIZE_REPO_TASK: &'static str =
    "Inspect the project in the working directory and summarise what it does, \
    its tech stack, and how it is structured.";

/// A task scaffolded with the tool-use guide.
pub open spec fn wrapped(specific: Seq<char>) -> Seq<char> {
    specific + TOOL_USE_GUIDE@
}

/// `a + b + c` as one string.
fn concat3(a: &str, b: &str, c: &str) -> (r: String)
    ensures
        r@ == a@ + b@ + c@,
{
    let mut s = String::from_str(a);
    s.append(b);
    s.append(c);
    s
}

/// Wrap a task-specific instruction with the common tool-use and delivery
/// scaffolding.
pub fn wrap_task(specific: &str) -> (r: String)
    ensures
        r@ == wrapped(specific@),
{
    let mut s = String::from_str(specific);
    s.append(TOOL_USE_GUIDE);
    s
}

/// Summarise the project in the working directory.
pub fn summarize_repo() -> (r: String)
    ensures
        r@ == wrapped(SUMMARIZE_REPO_TASK@),
{
    wrap_task(SUMMARIZE_REPO_TASK)
}

/// The instruction that summarises one file.
pub open spec fn summarize_file_task(path: Seq<char>) -> Seq<char> {
    "Read the file `"@ + path + "` and summarise what it does."@
}

/// Summarise the file at `path`.
pub fn summarize_file(path: &str) -> (r: String)
    ensures
        r@ == wrapped(summarize_file_task(path@)),
{
    let t = concat3("Read the file `", path, "` and summarise what it does.");
    wrap_task(t.as_str())
}

/// What follows the path in the bug review instruction.
pub const REVIEW_BUGS_TAIL: &'static str =
    "` for likely bugs and issues. Inspect the files with \
    list_dir and read_file. Then list up to 5 of the MOST LIKELY problems, each on its \
    own line as:  <file>:<line> — <the problem> — <why it matters>.  Be concrete and \
    conservative: only report things you can actually see in the code, and do NOT invent \
    issues. If you find nothing notable, say so plainly.";

/// The bug review instruction for `path`.
pub open spec fn review_bugs_task(path: Seq<char>) -> Seq<char> {
    "Review the code under `"@ + path + REVIEW_BUGS_TAIL@
}

/// Bug review, worded conservatively to suppress hallucinated issues.
pub fn review_bugs(path: &str) -> (r: String)
    ensures
        r@ == wrapped(review_bugs_task(path@)),
{
    let t = concat3("Review the code under `", path, REVIEW_BUGS_TAIL);
    wrap_task(t.as_str())
}

/// What follows the path in the duplicate search instruction.
pub const FIND_DUPLICATES_TAIL: &'static str =
    "`. Inspect the files with \
    list_dir and read_file. List groups of similar functions or blocks, each as:  \
    <fileA>:<line> ~ <fileB>:<line> — <what is duplicated> — <how to consolidate>.  Focus \
    on real duplication (the same logic repeated), not superficial similarity. If you \
    find none, say so.";

/// The duplicate search instruction for `path`.
pub open spec fn find_duplicates_task(path: Seq<char>) -> Seq<char> {
    "Look for duplicated or near-duplicated code under `"@ + path + FIND_DUPLICATES_TAIL@
}

/// Look for duplicated code under `path`.
pub fn find_duplicates(path: &str) -> (r: String)
    ensures
        r@ == wrapped(find_duplicates_task(path@)),
{
    let t = concat3("Look for duplicated or near-duplicated code under `", path, FIND_DUPLICATES_TAIL);
    wrap_task(t.as_str())
}

/// What follows the query in the search instruction.
pub const SEARCH_CODE_TAIL: &'static str =
    ". Use list_dir and read_file to find the relevant \
    files and lines, then explain what you found (with file:line references).";

/// The search instruction for `query`.
pub open spec fn search_code_task(query: Seq<char>) -> Seq<char> {
    "Search the project for: "@ + query + SEARCH_CODE_TAIL@
}

/// Search the project for `query` and explain the matches.
pub fn search_code(query: &str) -> (r: String)
    ensures
        r@ == wrapped(search_code_task(query@)),
{
    let t = concat3("Search the project for: ", query, SEARCH_CODE_TAIL);
    wrap_task(t.as_str())
}

/// The explanation instruction: of the file at `path` when `snippet` is
/// blank, else of the snippet itself.
pub open spec fn explain_task(path: Seq<char>, snippet: Seq<char>) -> Seq<char> {
    if trim(snippet).len() == 0 {
        "Read the file `"@ + path + "` and explain what its code does, clearly and concisely."@
    } else {
        "Explain what this code does:\n\n"@ + snippet
    }
}

/// Explain the code of a snippet, or of the file at `path` when the snippet
/// is blank.
pub fn explain(path: &str, snippet: &str) -> (r: String)
    ensures
        r@ == wrapped(explain_task(path@, snippet@)),
{
    if trimmed(snippet).as_str().is_empty() {
        let t = concat3(
            "Read the file `",
            path,
            "` and explain what its code does, clearly and concisely.",
        );
        wrap_task(t.as_str())
    } else {
        let t = concat3("Explain what this code does:\n\n", snippet, "");
        proof {
            reveal_strlit("");
        }
        assert(t@ =~= "Explain what this code does:\n\n"@ + snippet@);
        wrap_task(t.as_str())
    }
}

/// The instruction that drafts code for `instruction`.
pub open spec fn draft_code_task(instruction: Seq<char>) -> Seq<char> {
    "Write code for the following request. Output only the code (a short explanatory comment is fine):\n\n"@
        + instruction
}

/// Draft code for `instruction`.
pub fn draft_code(instruction: &str) -> (r: String)
    ensures
        r@ == wrapped(draft_code_task(instruction@)),
{
    let t = concat3(
        "Write code for the following request. Output only the code (a short explanatory comment is fine):\n\n",
        instruction,
        "",
    );
    proof {
        reveal_strlit("");
    }
    assert(t@ =~= draft_code_task(instruction@));
    wrap_task(t.as_str())
}

/// A freeform user instruction, with the standard scaffolding applied.
pub fn ask(task: &str) -> (r: String)
    ensures
        r@ == wrapped(task@),
{
    wrap_task(task)
}

} // verus!
