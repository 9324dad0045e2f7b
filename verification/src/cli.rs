//! The command line's decisions: which task prompt a run asks for, and how
//! the end of a run is reported.

use vstd::prelude::*;
use crate::json::JsonModel;
use crate::mcp::{arg_spec, task_spec, AgentOutcome, Kind};
use crate::prompts::{
    ask, explain, explain_task, find_duplicates, find_duplicates_task, review_bugs,
    review_bugs_task, search_code, search_code_task, summarize_repo, wrapped, SUMMARIZE_REPO_TASK,
};
use crate::text::{decimal, push_decimal, same_text, trim};

verus! {

broadcast use vstd::string::group_string_axioms;

/// Default Ollama model tag, used when `OLLAMA_MODEL` is not set.
pub const DEFAULT_MODEL: &'static str = "parable";

/// The local Ollama server's OpenAI-compatible endpoint, used when
/// `OLLAMA_URL` is not set.
pub const DEFAULT_ENDPOINT: &'static str = "http://127.0.0.1:11434/v1";

/// Upper bound on agent loop iterations (each one is a model turn, which may
/// include tool calls); keeps a small local model from looping forever.
pub const MAX_ITERS: u32 = 16;

/// The view of an optional text.
pub open spec fn str_opt(o: Option<&str>) -> Option<Seq<char>> {
    match o {
        Some(s) => Some(s@),
        None => None,
    }
}

/// The prompt a run asks for: the named task when there is one (an unknown
/// name is an error carrying that name), else the freeform instruction, else
/// the project summary.
pub open spec fn task_prompt_spec(
    task: Option<Seq<char>>,
    instruction: Option<Seq<char>>,
    path: Seq<char>,
    query: Option<Seq<char>>,
) -> Result<Seq<char>, Seq<char>> {
    match task {
        None => Ok(
            match instruction {
                Some(i) => wrapped(i),
                None => wrapped(SUMMARIZE_REPO_TASK@),
            },
        ),
        Some(t) => if t == "summary"@ || t == "summarize"@ {
            Ok(wrapped(SUMMARIZE_REPO_TASK@))
        } else if t == "bugs"@ {
            Ok(wrapped(review_bugs_task(path)))
        } else if t == "duplicates"@ || t == "dupes"@ {
            Ok(wrapped(find_duplicates_task(path)))
        } else if t == "explain"@ {
            Ok(wrapped(explain_task(path, ""@)))
        } else if t == "search"@ {
            Ok(
                wrapped(
                    search_code_task(
                        match query {
                            Some(q) => q,
                            None => ""@,
                        },
                    ),
                ),
            )
        } else {
            Err(t)
        },
    }
}

/// A `--task` name that names no task.
pub struct UnknownTask {
    pub name: String,
}

/// The message for an unknown task name.
pub open spec fn unknown_task_message(name: Seq<char>) -> Seq<char> {
    "unknown --task '"@ + name + "'. Use one of: summary | bugs | duplicates | explain | search."@
}

impl UnknownTask {
    /// The message the command line prints for this name.
    pub fn message(&self) -> (r: String)
        ensures
            r@ == unknown_task_message(self.name@),
    {
        let mut m = String::from_str("unknown --task '");
        m.append(self.name.as_str());
        m.append("'. Use one of: summary | bugs | duplicates | explain | search.");
        m
    }
}

/// Build the task prompt of a run: a named task (summary | bugs | duplicates
/// | explain | search), a freeform instruction, or the default "summarise
/// this project".
pub fn task_prompt(task: Option<&str>, instruction: Option<&str>, path: &str, query: Option<&str>) -> (r:
    Result<String, UnknownTask>)
    ensures
        match task_prompt_spec(str_opt(task), str_opt(instruction), path@, str_opt(query)) {
            Ok(p) => r matches Ok(s) && s@ == p,
            Err(n) => r matches Err(u) && u.name@ == n,
        },
{
    match task {
        None => match instruction {
            Some(instr) => Ok(ask(instr)),
            None => Ok(summarize_repo()),
        },
        Some(t) => {
            if same_text(t, "summary") || same_text(t, "summarize") {
                Ok(summarize_repo())
            } else if same_text(t, "bugs") {
                Ok(review_bugs(path))
            } else if same_text(t, "duplicates") || same_text(t, "dupes") {
                Ok(find_duplicates(path))
            } else if same_text(t, "explain") {
                Ok(explain(path, ""))
            } else if same_text(t, "search") {
                let q = match query {
                    Some(q) => q,
                    None => "",
                };
                Ok(search_code(q))
            } else {
                Err(UnknownTask { name: String::from_str(t) })
            }
        },
    }
}

/// How a finished run is reported: a note (printed to the error stream when
/// `note_is_warning`), then the answer.
pub struct RunReport {
    pub note: String,
    pub note_is_warning: bool,
    pub answer: String,
}

/// The note and answer that report a run.
pub open spec fn report_spec(outcome: AgentOutcome) -> (Seq<char>, bool, Seq<char>) {
    match outcome {
        AgentOutcome::Done { text, iters } => (
            "(completed in "@ + decimal(iters as nat) + " iteration(s))\n"@,
            false,
            match text {
                Some(t) => t@,
                None => "<the agent finished without returning any text>"@,
            },
        ),
        AgentOutcome::BudgetExhausted { last_text, iters } => (
            "(stopped after reaching the "@ + decimal(iters as nat) + "-iteration limit)\n"@,
            true,
            match last_text {
                Some(t) => t@,
                None => "<no partial answer was produced>"@,
            },
        ),
    }
}

/// Report the end of a run: what the agent produced, and how it stopped.
pub fn run_report(outcome: AgentOutcome) -> (r: RunReport)
    ensures
        (r.note@, r.note_is_warning, r.answer@) == report_spec(outcome),
        r.note_is_warning <==> outcome is BudgetExhausted,
        outcome matches AgentOutcome::Done { text: Some(t), .. } ==> r.answer@ == t@,
        outcome matches AgentOutcome::BudgetExhausted { last_text: Some(t), .. } ==> r.answer@ == t@,
{
    match outcome {
        AgentOutcome::Done { text, iters } => {
            let mut note = String::from_str("(completed in ");
            push_decimal(&mut note, iters as usize);
            note.append(" iteration(s))\n");
            let answer = match text {
                Some(t) => t,
                None => String::from_str("<the agent finished without returning any text>"),
            };
            RunReport { note, note_is_warning: false, answer }
        },
        AgentOutcome::BudgetExhausted { last_text, iters } => {
            let mut note = String::from_str("(stopped after reaching the ");
            push_decimal(&mut note, iters as usize);
            note.append("-iteration limit)\n");
            let answer = match last_text {
                Some(t) => t,
                None => String::from_str("<no partial answer was produced>"),
            };
            RunReport { note, note_is_warning: true, answer }
        },
    }
}

/// Law: the command line and the MCP tools word a task alike: `--task bugs`,
/// `--task duplicates`, `--task explain` and `--task search` build the prompt
/// that the matching tool builds from arguments holding the same (trimmed,
/// non-empty) path or query.
pub proof fn law_cli_and_mcp_agree(args: JsonModel, path: Seq<char>, query: Seq<char>)
    requires
        arg_spec(args, "path"@) == path,
        path.len() > 0,
        arg_spec(args, "snippet"@).len() == 0,
        arg_spec(args, "query"@) == query,
    ensures
        task_prompt_spec(Some("bugs"@), None, path, None) == Ok::<Seq<char>, Seq<char>>(
            task_spec(Kind::ReviewBugs, args),
        ),
        task_prompt_spec(Some("duplicates"@), None, path, None) == Ok::<Seq<char>, Seq<char>>(
            task_spec(Kind::FindDuplicates, args),
        ),
        task_prompt_spec(Some("explain"@), None, path, None) == Ok::<Seq<char>, Seq<char>>(
            task_spec(Kind::ExplainCode, args),
        ),
        task_prompt_spec(Some("search"@), None, path, Some(query)) == Ok::<Seq<char>, Seq<char>>(
            task_spec(Kind::SearchCode, args),
        ),
        task_prompt_spec(Some("summary"@), None, path, None) == Ok::<Seq<char>, Seq<char>>(
            task_spec(Kind::SummarizeRepo, args),
        ),
{
    reveal_strlit("");
    reveal_strlit("bugs");
    reveal_strlit("summary");
    reveal_strlit("summarize");
    reveal_strlit("duplicates");
    reveal_strlit("explain");
    reveal_strlit("search");
    reveal_strlit("dupes");
    assert(trim(""@) == ""@);
    assert(crate::mcp::path_or_root_spec(args, "path"@) == path);
    assert("bugs"@.len() == 4 && "summary"@.len() == 7 && "summarize"@.len() == 9);
    assert("duplicates"@.len() == 10 && "dupes"@.len() == 5 && "search"@.len() == 6);
    assert("explain"@.len() == 7 && "explain"@[0] == 'e' && "summary"@[0] == 's');
    assert(arg_spec(args, "snippet"@) =~= ""@);
}

/// Law: a run is reported with the model's own text whenever there is one,
/// a finished run's last text or a stopped run's partial answer alike; a
/// placeholder stands only where there is no text, and only a run stopped by
/// the budget is reported as a warning.
pub proof fn law_report_keeps_the_answer(outcome: AgentOutcome)
    ensures
        report_spec(outcome).1 <==> outcome is BudgetExhausted,
        outcome matches AgentOutcome::Done { text: Some(t), .. } ==> report_spec(outcome).2 == t@,
        outcome matches AgentOutcome::BudgetExhausted { last_text: Some(t), .. } ==> report_spec(
            outcome,
        ).2 == t@,
        outcome matches AgentOutcome::Done { text: None, .. } ==> report_spec(outcome).2
            == "<the agent finished without returning any text>"@,
        outcome matches AgentOutcome::BudgetExhausted { last_text: None, .. } ==> report_spec(
            outcome,
        ).2 == "<no partial answer was produced>"@,
{
}

} // verus!
