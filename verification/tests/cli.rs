use local_coding_agent::cli::{run_report, task_prompt, DEFAULT_MODEL, MAX_ITERS};
use local_coding_agent::mcp::{build_task_from_json, AgentOutcome, Kind};
use local_coding_agent::prompts::{
    ask, explain, find_duplicates, review_bugs, search_code, summarize_repo,
};

#[test]
fn named_tasks_pick_their_prompts() {
    let p = |t: &str| task_prompt(Some(t), None, "src", Some("q")).ok().unwrap();
    assert_eq!(p("summary"), summarize_repo());
    assert_eq!(p("summarize"), summarize_repo());
    assert_eq!(p("bugs"), review_bugs("src"));
    assert_eq!(p("duplicates"), find_duplicates("src"));
    assert_eq!(p("dupes"), find_duplicates("src"));
    assert_eq!(p("explain"), explain("src", ""));
    assert_eq!(p("search"), search_code("q"));
    assert_eq!(task_prompt(Some("search"), None, ".", None).ok().unwrap(), search_code(""));
}

#[test]
fn instruction_or_default_summary() {
    assert_eq!(task_prompt(None, Some("list deps"), ".", None).ok().unwrap(), ask("list deps"));
    assert_eq!(task_prompt(None, None, ".", None).ok().unwrap(), summarize_repo());
    // A named task wins over an instruction.
    assert_eq!(task_prompt(Some("bugs"), Some("ignored"), ".", None).ok().unwrap(), review_bugs("."));
}

#[test]
fn unknown_task_is_reported() {
    let err = match task_prompt(Some("lint"), None, ".", None) {
        Err(e) => e,
        Ok(_) => panic!("an unknown task was accepted"),
    };
    assert_eq!(err.name, "lint");
    assert_eq!(
        err.message(),
        "unknown --task 'lint'. Use one of: summary | bugs | duplicates | explain | search."
    );
}

#[test]
fn run_reports() {
    let done = run_report(AgentOutcome::Done { text: Some("The summary.".to_string()), iters: 3 });
    assert_eq!(done.note, "(completed in 3 iteration(s))\n");
    assert!(!done.note_is_warning);
    assert_eq!(done.answer, "The summary.");
    let silent = run_report(AgentOutcome::Done { text: None, iters: 12 });
    assert_eq!(silent.note, "(completed in 12 iteration(s))\n");
    assert_eq!(silent.answer, "<the agent finished without returning any text>");
    let budget = run_report(AgentOutcome::BudgetExhausted { last_text: None, iters: MAX_ITERS });
    assert_eq!(budget.note, "(stopped after reaching the 16-iteration limit)\n");
    assert!(budget.note_is_warning);
    assert_eq!(budget.answer, "<no partial answer was produced>");
    assert_eq!(DEFAULT_MODEL, "parable");
}

#[test]
fn command_line_and_tools_word_tasks_alike() {
    assert_eq!(
        task_prompt(Some("bugs"), None, "src", None).ok().unwrap(),
        build_task_from_json(Kind::ReviewBugs, "{\"path\": \"src\"}")
    );
    assert_eq!(
        task_prompt(Some("duplicates"), None, "src", None).ok().unwrap(),
        build_task_from_json(Kind::FindDuplicates, "{\"path\": \"src\"}")
    );
    assert_eq!(
        task_prompt(Some("explain"), None, "src/a.rs", None).ok().unwrap(),
        build_task_from_json(Kind::ExplainCode, "{\"path\": \"src/a.rs\"}")
    );
    assert_eq!(
        task_prompt(Some("search"), None, ".", Some("recovery")).ok().unwrap(),
        build_task_from_json(Kind::SearchCode, "{\"query\": \"recovery\"}")
    );
}
