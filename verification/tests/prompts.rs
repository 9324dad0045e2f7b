use local_coding_agent::prompts::{
    ask, draft_code, explain, find_duplicates, review_bugs, search_code, summarize_file,
    summarize_repo, wrap_task, TOOL_USE_GUIDE,
};

const GUIDE: &str = "\n\nYou have two read-only tools: `list_dir` and `read_file`. When you want to use one, reply with ONLY a JSON object like {\"name\": \"read_file\", \"arguments\": {\"path\": \"Cargo.toml\"}} and nothing else — no narration. Make one tool call per reply. When finished, reply with your final answer as plain prose and stop. Do NOT ask questions; deliver the answer directly.";

#[test]
fn wrap_task_appends_the_guide() {
    assert_eq!(TOOL_USE_GUIDE, GUIDE);
    assert_eq!(wrap_task("Do X."), format!("Do X.{GUIDE}"));
    assert_eq!(ask("Do X."), wrap_task("Do X."));
}

#[test]
fn summarize_prompts() {
    assert_eq!(
        summarize_repo(),
        format!("Inspect the project in the working directory and summarise what it does, its tech stack, and how it is structured.{GUIDE}")
    );
    assert_eq!(
        summarize_file("src/a.rs"),
        format!("Read the file `src/a.rs` and summarise what it does.{GUIDE}")
    );
}

#[test]
fn review_and_duplicate_prompts() {
    assert_eq!(
        review_bugs("src"),
        format!("Review the code under `src` for likely bugs and issues. Inspect the files with list_dir and read_file. Then list up to 5 of the MOST LIKELY problems, each on its own line as:  <file>:<line> — <the problem> — <why it matters>.  Be concrete and conservative: only report things you can actually see in the code, and do NOT invent issues. If you find nothing notable, say so plainly.{GUIDE}")
    );
    assert_eq!(
        find_duplicates("."),
        format!("Look for duplicated or near-duplicated code under `.`. Inspect the files with list_dir and read_file. List groups of similar functions or blocks, each as:  <fileA>:<line> ~ <fileB>:<line> — <what is duplicated> — <how to consolidate>.  Focus on real duplication (the same logic repeated), not superficial similarity. If you find none, say so.{GUIDE}")
    );
}

#[test]
fn search_and_draft_prompts() {
    assert_eq!(
        search_code("tool recovery"),
        format!("Search the project for: tool recovery. Use list_dir and read_file to find the relevant files and lines, then explain what you found (with file:line references).{GUIDE}")
    );
    assert_eq!(
        draft_code("a fizzbuzz"),
        format!("Write code for the following request. Output only the code (a short explanatory comment is fine):\n\na fizzbuzz{GUIDE}")
    );
}

#[test]
fn explain_uses_the_file_when_the_snippet_is_blank() {
    assert_eq!(
        explain("main.rs", "  \n "),
        format!("Read the file `main.rs` and explain what its code does, clearly and concisely.{GUIDE}")
    );
    assert_eq!(
        explain("main.rs", "fn f() {}"),
        format!("Explain what this code does:\n\nfn f() {{}}{GUIDE}")
    );
}
