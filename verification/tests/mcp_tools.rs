use local_coding_agent::mcp::{
    all_kinds, build_task, build_task_from_json, tool_reply, tool_spec, AgentOutcome, Kind,
};
use local_coding_agent::prompts::{
    draft_code, explain, find_duplicates, review_bugs, search_code, summarize_file,
    summarize_repo, ask,
};

#[test]
fn eight_tools_with_distinct_names() {
    let names: Vec<String> = all_kinds().into_iter().map(|k| tool_spec(k).name).collect();
    assert_eq!(
        names,
        vec![
            "summarize_repo", "summarize_file", "search_code", "explain_code", "draft_code",
            "ask_local", "review_bugs", "find_duplicates",
        ]
    );
}

#[test]
fn schemas_are_json_objects() {
    for k in all_kinds() {
        let spec = tool_spec(k);
        let v: serde_json::Value = serde_json::from_str(&spec.input_schema).unwrap();
        assert_eq!(v["type"], "object");
        assert!(!spec.description.is_empty());
    }
    let file: serde_json::Value =
        serde_json::from_str(&tool_spec(Kind::SummarizeFile).input_schema).unwrap();
    assert_eq!(file["required"][0], "path");
}

#[test]
fn tasks_read_trimmed_string_arguments() {
    assert_eq!(build_task_from_json(Kind::SummarizeRepo, "{}"), summarize_repo());
    assert_eq!(
        build_task_from_json(Kind::SummarizeFile, "{\"path\": \"  a.rs \"}"),
        summarize_file("a.rs")
    );
    assert_eq!(build_task_from_json(Kind::SearchCode, "{\"query\": \"x\"}"), search_code("x"));
    assert_eq!(
        build_task_from_json(Kind::ExplainCode, "{\"snippet\": \"let a = 1;\"}"),
        explain("", "let a = 1;")
    );
    assert_eq!(build_task_from_json(Kind::DraftCode, "{\"instruction\": \"y\"}"), draft_code("y"));
    assert_eq!(build_task_from_json(Kind::AskLocal, "{\"task\": 5}"), ask(""));
}

#[test]
fn folder_scoped_tasks_default_to_the_project_root() {
    assert_eq!(build_task_from_json(Kind::ReviewBugs, "{}"), review_bugs("."));
    assert_eq!(build_task_from_json(Kind::FindDuplicates, "{\"path\": \"  \"}"), find_duplicates("."));
    assert_eq!(build_task_from_json(Kind::ReviewBugs, "{\"path\": \"src\"}"), review_bugs("src"));
    assert_eq!(build_task_from_json(Kind::ReviewBugs, "not json"), review_bugs("."));
    assert_eq!(
        build_task(Kind::FindDuplicates, &local_coding_agent::json::JsonValue::Null),
        find_duplicates(".")
    );
}

#[test]
fn replies_for_each_outcome() {
    let done = tool_reply(Ok(AgentOutcome::Done { text: Some("sum".to_string()), iters: 2 }));
    assert!(done.ok);
    assert_eq!(done.text, "sum");
    let empty = tool_reply(Ok(AgentOutcome::Done { text: None, iters: 2 }));
    assert!(empty.ok);
    assert_eq!(empty.text, "");
    let budget = tool_reply(Ok(AgentOutcome::BudgetExhausted { last_text: None, iters: 16 }));
    assert!(budget.ok);
    assert_eq!(budget.text, "(no answer; iteration budget exhausted)");
    let partial = tool_reply(Ok(AgentOutcome::BudgetExhausted { last_text: Some("p".to_string()), iters: 16 }));
    assert_eq!(partial.text, "p");
    let failed = tool_reply(Err("connection refused".to_string()));
    assert!(!failed.ok);
    assert_eq!(failed.text, "local agent error: connection refused");
}
