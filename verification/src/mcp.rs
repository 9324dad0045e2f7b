//! The MCP tools that expose the local agent: which tools there are, what
//! each is called and takes, the task each one builds from its call
//! arguments, and the reply each one gives for an agent run. Every tool only
//! reads files and returns text.

use vstd::prelude::*;
use crate::json::{find_member, json_parse, lookup, parse_json, JsonMemberModel, JsonModel, JsonValue};
use crate::prompts::{
    ask, draft_code, draft_code_task, explain, explain_task, find_duplicates, find_duplicates_task, review_bugs,
    review_bugs_task, search_code, search_code_task, summarize_file, summarize_file_task,
    summarize_repo, wrapped, FIND_DUPLICATES_TAIL, REVIEW_BUGS_TAIL, SEARCH_CODE_TAIL,
    SUMMARIZE_REPO_TASK, TOOL_USE_GUIDE,
};
use crate::text::{contains_seq, matches_at, trim, trimmed};

verus! {

broadcast use vstd::string::group_string_axioms;

/// Which capability a local-agent tool exposes.
#[derive(Clone, Copy, PartialEq, Eq, Structural, Debug)]
pub enum Kind {
    SummarizeRepo,
    SummarizeFile,
    SearchCode,
    ExplainCode,
    DraftCode,
    AskLocal,
    ReviewBugs,
    FindDuplicates,
}

/// Every tool kind, in the order the server lists them.
pub open spec fn kinds_spec() -> Seq<Kind> {
    seq![
        Kind::SummarizeRepo,
        Kind::SummarizeFile,
        Kind::SearchCode,
        Kind::ExplainCode,
        Kind::DraftCode,
        Kind::AskLocal,
        Kind::ReviewBugs,
        Kind::FindDuplicates,
    ]
}

/// Every tool kind, in the order the server lists them.
pub fn all_kinds() -> (r: Vec<Kind>)
    ensures
        r@ == kinds_spec(),
{
    let r = vec![
        Kind::SummarizeRepo,
        Kind::SummarizeFile,
        Kind::SearchCode,
        Kind::ExplainCode,
        Kind::DraftCode,
        Kind::AskLocal,
        Kind::ReviewBugs,
        Kind::FindDuplicates,
    ];
    assert(r@ =~= kinds_spec());
    r
}

/// The name a tool is called by.
pub open spec fn name_spec(kind: Kind) -> Seq<char> {
    match kind {
        Kind::SummarizeRepo => "summarize_repo"@,
        Kind::SummarizeFile => "summarize_file"@,
        Kind::SearchCode => "search_code"@,
        Kind::ExplainCode => "explain_code"@,
        Kind::DraftCode => "draft_code"@,
        Kind::AskLocal => "ask_local"@,
        Kind::ReviewBugs => "review_bugs"@,
        Kind::FindDuplicates => "find_duplicates"@,
    }
}

/// What a tool tells its caller it does.
pub open spec fn description_spec(kind: Kind) -> Seq<char> {
    match kind {
        Kind::SummarizeRepo => "Summarise the project in the working directory using the local model: what it does, its tech stack, and how it is structured."@,
        Kind::SummarizeFile => "Read a single file and summarise what it does, using the local model."@,
        Kind::SearchCode => "Search the project for a symbol, string, or concept and explain the matches, using the local model."@,
        Kind::ExplainCode => "Explain what some code does, using the local model. Provide a file `path` to explain, or a `snippet` directly."@,
        Kind::DraftCode => "Draft code for an instruction using the local model. Returns code as TEXT only — it does NOT write any files."@,
        Kind::AskLocal => "Ask the local model to do a coding task in the working directory (general fallback). Read-only: it can read files but never writes."@,
        Kind::ReviewBugs => "Review code for likely bugs and issues using the local model. Returns a short, conservative list (file:line — problem — why). Read-only."@,
        Kind::FindDuplicates => "Find duplicated or near-duplicated code using the local model. Returns groups of similar blocks with locations and consolidation hints. Read-only."@,
    }
}

/// The JSON schema of a tool's arguments, as JSON text.
pub open spec fn schema_spec(kind: Kind) -> Seq<char> {
    match kind {
        Kind::SummarizeRepo => "{\"type\":\"object\",\"properties\":{}}"@,
        Kind::SummarizeFile => "{\"type\":\"object\",\"properties\":{\"path\":{\"type\":\"string\",\"description\":\"File path, relative to the working directory.\"}},\"required\":[\"path\"]}"@,
        Kind::SearchCode => "{\"type\":\"object\",\"properties\":{\"query\":{\"type\":\"string\",\"description\":\"What to search for.\"}},\"required\":[\"query\"]}"@,
        Kind::ExplainCode => "{\"type\":\"object\",\"properties\":{\"path\":{\"type\":\"string\",\"description\":\"Path to a file to explain (optional if 'snippet' given).\"},\"snippet\":{\"type\":\"string\",\"description\":\"Code to explain (optional if 'path' given).\"}}}"@,
        Kind::DraftCode => "{\"type\":\"object\",\"properties\":{\"instruction\":{\"type\":\"string\",\"description\":\"What to write.\"}},\"required\":[\"instruction\"]}"@,
        Kind::AskLocal => "{\"type\":\"object\",\"properties\":{\"task\":{\"type\":\"string\",\"description\":\"The task or question.\"}},\"required\":[\"task\"]}"@,
        Kind::ReviewBugs => "{\"type\":\"object\",\"properties\":{\"path\":{\"type\":\"string\",\"description\":\"File or folder to review (default: whole project).\"}}}"@,
        Kind::FindDuplicates => "{\"type\":\"object\",\"properties\":{\"path\":{\"type\":\"string\",\"description\":\"File or folder to scan (default: whole project).\"}}}"@,
    }
}

/// How a tool presents itself: name, description and argument schema (JSON
/// text).
pub struct ToolSpec {
    pub name: String,
    pub description: String,
    pub input_schema: String,
}

/// The name, description and argument schema of the tool of `kind`.
pub fn tool_spec(kind: Kind) -> (r: ToolSpec)
    ensures
        r.name@ == name_spec(kind),
        r.description@ == description_spec(kind),
        r.input_schema@ == schema_spec(kind),
{
    let (name, description, input) = match kind {
        Kind::SummarizeRepo => (
            "summarize_repo",
            "Summarise the project in the working directory using the local model: what it does, its tech stack, and how it is structured.",
            "{\"type\":\"object\",\"properties\":{}}",
        ),
        Kind::SummarizeFile => (
            "summarize_file",
            "Read a single file and summarise what it does, using the local model.",
            "{\"type\":\"object\",\"properties\":{\"path\":{\"type\":\"string\",\"description\":\"File path, relative to the working directory.\"}},\"required\":[\"path\"]}",
        ),
        Kind::SearchCode => (
            "search_code",
            "Search the project for a symbol, string, or concept and explain the matches, using the local model.",
            "{\"type\":\"object\",\"properties\":{\"query\":{\"type\":\"string\",\"description\":\"What to search for.\"}},\"required\":[\"query\"]}",
        ),
        Kind::ExplainCode => (
            "explain_code",
            "Explain what some code does, using the local model. Provide a file `path` to explain, or a `snippet` directly.",
            "{\"type\":\"object\",\"properties\":{\"path\":{\"type\":\"string\",\"description\":\"Path to a file to explain (optional if 'snippet' given).\"},\"snippet\":{\"type\":\"string\",\"description\":\"Code to explain (optional if 'path' given).\"}}}",
        ),
        Kind::DraftCode => (
            "draft_code",
            "Draft code for an instruction using the local model. Returns code as TEXT only — it does NOT write any files.",
            "{\"type\":\"object\",\"properties\":{\"instruction\":{\"type\":\"string\",\"description\":\"What to write.\"}},\"required\":[\"instruction\"]}",
        ),
        Kind::AskLocal => (
            "ask_local",
            "Ask the local model to do a coding task in the working directory (general fallback). Read-only: it can read files but never writes.",
            "{\"type\":\"object\",\"properties\":{\"task\":{\"type\":\"string\",\"description\":\"The task or question.\"}},\"required\":[\"task\"]}",
        ),
        Kind::ReviewBugs => (
            "review_bugs",
            "Review code for likely bugs and issues using the local model. Returns a short, conservative list (file:line — problem — why). Read-only.",
            "{\"type\":\"object\",\"properties\":{\"path\":{\"type\":\"string\",\"description\":\"File or folder to review (default: whole project).\"}}}",
        ),
        Kind::FindDuplicates => (
            "find_duplicates",
            "Find duplicated or near-duplicated code using the local model. Returns groups of similar blocks with locations and consolidation hints. Read-only.",
            "{\"type\":\"object\",\"properties\":{\"path\":{\"type\":\"string\",\"description\":\"File or folder to scan (default: whole project).\"}}}",
        ),
    };
    ToolSpec {
        name: String::from_str(name),
        description: String::from_str(description),
        input_schema: String::from_str(input),
    }
}

/// The string argument `key` of a call, trimmed; empty when the arguments
/// are not an object, lack `key`, or hold something other than a string
/// there.
pub open spec fn arg_spec(args: JsonModel, key: Seq<char>) -> Seq<char> {
    match args {
        JsonModel::Object(members) => match lookup(members, key) {
            Some(m) => match m.string_value {
                Some(s) => trim(s),
                None => Seq::empty(),
            },
            None => Seq::empty(),
        },
        _ => Seq::empty(),
    }
}

/// A folder-scoped argument: `.` (the whole project) when it is empty.
pub open spec fn path_or_root_spec(args: JsonModel, key: Seq<char>) -> Seq<char> {
    if arg_spec(args, key).len() == 0 {
        "."@
    } else {
        arg_spec(args, key)
    }
}

/// The agent task a call of the tool of `kind` with `args` asks for.
pub open spec fn task_spec(kind: Kind, args: JsonModel) -> Seq<char> {
    match kind {
        Kind::SummarizeRepo => wrapped(SUMMARIZE_REPO_TASK@),
        Kind::SummarizeFile => wrapped(summarize_file_task(arg_spec(args, "path"@))),
        Kind::SearchCode => wrapped(search_code_task(arg_spec(args, "query"@))),
        Kind::ExplainCode => wrapped(explain_task(arg_spec(args, "path"@), arg_spec(args, "snippet"@))),
        Kind::DraftCode => wrapped(draft_code_task(arg_spec(args, "instruction"@))),
        Kind::AskLocal => wrapped(arg_spec(args, "task"@)),
        Kind::ReviewBugs => wrapped(review_bugs_task(path_or_root_spec(args, "path"@))),
        Kind::FindDuplicates => wrapped(find_duplicates_task(path_or_root_spec(args, "path"@))),
    }
}

/// The string argument `key` of a call, trimmed, or empty.
fn arg(args: &JsonValue, key: &str) -> (r: String)
    ensures
        r@ == arg_spec(args@, key@),
{
    if let JsonValue::Object(members) = args {
        if let Some(i) = find_member(members, key) {
            if let Some(s) = &members[i].string_value {
                return trimmed(s.as_str());
            }
        }
    }
    String::new()
}

/// A folder-scoped argument: an empty path means the whole project.
fn path_or_root(args: &JsonValue, key: &str) -> (r: String)
    ensures
        r@ == path_or_root_spec(args@, key@),
{
    let p = arg(args, key);
    if p.as_str().is_empty() {
        String::from_str(".")
    } else {
        p
    }
}

/// Build the agent task prompt from the call arguments. All wording lives in
/// the prompts module, so the command line and the MCP tools behave alike.
pub fn build_task(kind: Kind, args: &JsonValue) -> (r: String)
    ensures
        r@ == task_spec(kind, args@),
{
    match kind {
        Kind::SummarizeRepo => summarize_repo(),
        Kind::SummarizeFile => summarize_file(arg(args, "path").as_str()),
        Kind::SearchCode => search_code(arg(args, "query").as_str()),
        Kind::ExplainCode => explain(arg(args, "path").as_str(), arg(args, "snippet").as_str()),
        Kind::DraftCode => draft_code(arg(args, "instruction").as_str()),
        Kind::AskLocal => ask(arg(args, "task").as_str()),
        Kind::ReviewBugs => review_bugs(path_or_root(args, "path").as_str()),
        Kind::FindDuplicates => find_duplicates(path_or_root(args, "path").as_str()),
    }
}

/// The agent task for a call whose arguments are the JSON text `args_json`;
/// text that is not JSON counts as arguments without any members.
pub fn build_task_from_json(kind: Kind, args_json: &str) -> (r: String)
    ensures
        match json_parse(args_json@) {
            Some(args) => r@ == task_spec(kind, args),
            None => r@ == task_spec(kind, JsonModel::Null),
        },
{
    match parse_json(args_json) {
        Some(args) => build_task(kind, &args),
        None => build_task(kind, &JsonValue::Null),
    }
}

/// How an agent run ended.
pub enum AgentOutcome {
    /// The model stopped on its own, with its final text if any.
    Done { text: Option<String>, iters: u32 },
    /// The iteration budget ran out first, with the last text if any.
    BudgetExhausted { last_text: Option<String>, iters: u32 },
}

/// A tool's reply: whether the run succeeded, and the text handed back.
pub struct ToolReply {
    pub ok: bool,
    pub text: String,
}

/// The view of an optional string, empty when absent.
pub open spec fn text_or_empty(t: Option<String>) -> Seq<char> {
    match t {
        Some(s) => s@,
        None => Seq::empty(),
    }
}

/// The reply to a tool call for an agent run, or for a run that failed with
/// error message `e`.
pub open spec fn reply_spec(run: Result<AgentOutcome, String>) -> (bool, Seq<char>) {
    match run {
        Ok(AgentOutcome::Done { text, .. }) => (true, text_or_empty(text)),
        Ok(AgentOutcome::BudgetExhausted { last_text, .. }) => (
            true,
            match last_text {
                Some(t) => t@,
                None => "(no answer; iteration budget exhausted)"@,
            },
        ),
        Err(e) => (false, "local agent error: "@ + e@),
    }
}

/// The reply to a tool call. Errors come back as an unsuccessful reply, so
/// the MCP client sees the message, rather than failing the whole call.
pub fn tool_reply(run: Result<AgentOutcome, String>) -> (r: ToolReply)
    ensures
        (r.ok, r.text@) == reply_spec(run),
        r.ok <==> run is Ok,
        run matches Ok(AgentOutcome::Done { text: Some(t), .. }) ==> r.text@ == t@,
        run matches Ok(AgentOutcome::BudgetExhausted { last_text: Some(t), .. }) ==> r.text@ == t@,
{
    match run {
        Ok(AgentOutcome::Done { text, .. }) => ToolReply {
            ok: true,
            text: match text {
                Some(t) => t,
                None => String::new(),
            },
        },
        Ok(AgentOutcome::BudgetExhausted { last_text, .. }) => ToolReply {
            ok: true,
            text: match last_text {
                Some(t) => t,
                None => String::from_str("(no answer; iteration budget exhausted)"),
            },
        },
        Err(e) => {
            let mut t = String::from_str("local agent error: ");
            t.append(e.as_str());
            ToolReply { ok: false, text: t }
        },
    }
}

/// Law: no two tools share a name, so a call's name picks its tool.
pub proof fn law_tool_names_distinct(a: Kind, b: Kind)
    requires
        a != b,
    ensures
        name_spec(a) != name_spec(b),
{
    reveal_strlit("summarize_repo");
    reveal_strlit("summarize_file");
    reveal_strlit("search_code");
    reveal_strlit("explain_code");
    reveal_strlit("draft_code");
    reveal_strlit("ask_local");
    reveal_strlit("review_bugs");
    reveal_strlit("find_duplicates");
    assert("summarize_repo"@.len() == 14 && "summarize_repo"@[10] == 'r');
    assert("summarize_file"@.len() == 14 && "summarize_file"@[10] == 'f');
    assert("search_code"@.len() == 11 && "search_code"@[0] == 's');
    assert("review_bugs"@.len() == 11 && "review_bugs"@[0] == 'r');
    assert("explain_code"@.len() == 12);
    assert("draft_code"@.len() == 10);
    assert("ask_local"@.len() == 9);
    assert("find_duplicates"@.len() == 15);
    if name_spec(a) == name_spec(b) {
        assert(name_spec(a)[0] == name_spec(b)[0]);
        assert(name_spec(a)[10] == name_spec(b)[10]);
    }
}

/// Law: the folder-scoped tools (bug review, duplicate search) scope a call
/// whose `path` is missing or blank to the whole project, `.`.
pub proof fn law_scoped_tools_default_to_root(args: JsonModel)
    requires
        arg_spec(args, "path"@).len() == 0,
    ensures
        task_spec(Kind::ReviewBugs, args) == wrapped(review_bugs_task("."@)),
        task_spec(Kind::FindDuplicates, args) == wrapped(find_duplicates_task("."@)),
{
}

/// Law: a tool call fails only when the agent run failed: every run that
/// ended (finished or out of budget, with or without text) gives a
/// successful reply carrying the model's text when there is one, and a
/// failed run's reply ends with the error message.
pub proof fn law_only_failed_runs_fail(run: Result<AgentOutcome, String>)
    ensures
        reply_spec(run).0 <==> run is Ok,
        run matches Ok(AgentOutcome::Done { text: Some(t), .. }) ==> reply_spec(run).1 == t@,
        run matches Ok(AgentOutcome::BudgetExhausted { last_text: Some(t), .. }) ==> reply_spec(
            run,
        ).1 == t@,
        run matches Err(e) ==> reply_spec(run).1.len() >= e@.len() && reply_spec(run).1.skip(
            reply_spec(run).1.len() - e@.len(),
        ) == e@,
{
    if let Err(e) = run {
        let r = reply_spec(run).1;
        assert(r.skip(r.len() - e@.len()) =~= e@);
    }
}

/// The string arguments a tool's task is built from, in the order its schema
/// lists them.
pub open spec fn tool_arguments(kind: Kind) -> Seq<Seq<char>> {
    match kind {
        Kind::SummarizeRepo => seq![],
        Kind::SummarizeFile => seq!["path"@],
        Kind::SearchCode => seq!["query"@],
        Kind::ExplainCode => seq!["path"@, "snippet"@],
        Kind::DraftCode => seq!["instruction"@],
        Kind::AskLocal => seq!["task"@],
        Kind::ReviewBugs => seq!["path"@],
        Kind::FindDuplicates => seq!["path"@],
    }
}

/// The arguments a tool's schema marks as required.
pub open spec fn required_arguments(kind: Kind) -> Seq<Seq<char>> {
    match kind {
        Kind::SummarizeRepo => seq![],
        Kind::SummarizeFile => seq!["path"@],
        Kind::SearchCode => seq!["query"@],
        Kind::ExplainCode => seq![],
        Kind::DraftCode => seq!["instruction"@],
        Kind::AskLocal => seq!["task"@],
        Kind::ReviewBugs => seq![],
        Kind::FindDuplicates => seq![],
    }
}

/// The schema's entry declaring the string property `key`.
pub open spec fn property_entry(key: Seq<char>) -> Seq<char> {
    seq!['"'] + key + seq!['"', ':', '{', '"', 't', 'y', 'p', 'e', '"', ':', '"', 's', 't', 'r', 'i', 'n', 'g', '"']
}

/// The schema's entry requiring the single argument `key`.
pub open spec fn required_entry(key: Seq<char>) -> Seq<char> {
    seq!['"', 'r', 'e', 'q', 'u', 'i', 'r', 'e', 'd', '"', ':', '[', '"'] + key + seq!['"', ']']
}

/// `p` occurs in `a + p + b`.
proof fn lemma_contains_middle(a: Seq<char>, p: Seq<char>, b: Seq<char>)
    ensures
        contains_seq(a + p + b, p),
{
    assert((a + p + b).subrange(a.len() as int, (a.len() + p.len()) as int) =~= p);
    assert(matches_at(a + p + b, p, a.len() as int));
}

/// Law: a tool's task depends on its call arguments only through the string
/// arguments its schema declares: calls that agree on those give the same
/// task.
pub proof fn law_task_reads_only_its_arguments(kind: Kind, a1: JsonModel, a2: JsonModel)
    requires
        forall|i: int|
            0 <= i < tool_arguments(kind).len() ==> arg_spec(a1, #[trigger] tool_arguments(kind)[i])
                == arg_spec(a2, tool_arguments(kind)[i]),
    ensures
        task_spec(kind, a1) == task_spec(kind, a2),
{
    if tool_arguments(kind).len() > 0 {
        assert(arg_spec(a1, tool_arguments(kind)[0]) == arg_spec(a2, tool_arguments(kind)[0]));
    }
    if tool_arguments(kind).len() > 1 {
        assert(arg_spec(a1, tool_arguments(kind)[1]) == arg_spec(a2, tool_arguments(kind)[1]));
    }
}

/// Law: a tool's task holds each string argument its schema declares (a
/// file's path only when no snippet is given to explain instead), so no
/// declared argument is ignored or read under another name.
pub proof fn law_task_holds_its_arguments(kind: Kind, args: JsonModel, i: int)
    requires
        0 <= i < tool_arguments(kind).len(),
        kind == Kind::ExplainCode && i == 0 ==> arg_spec(args, "snippet"@).len() == 0,
    ensures
        contains_seq(task_spec(kind, args), arg_spec(args, tool_arguments(kind)[i])),
{
    let key = tool_arguments(kind)[i];
    let v = arg_spec(args, key);
    let t = task_spec(kind, args);
    let g = TOOL_USE_GUIDE@;
    if v.len() == 0 {
        lemma_contains_middle(Seq::empty(), v, t);
        assert(Seq::<char>::empty() + v + t =~= t);
    } else {
        match kind {
            Kind::SummarizeFile => {
                lemma_contains_middle("Read the file `"@, v, "` and summarise what it does."@ + g);
                assert(t =~= "Read the file `"@ + v + ("` and summarise what it does."@ + g));
            },
            Kind::SearchCode => {
                lemma_contains_middle("Search the project for: "@, v, SEARCH_CODE_TAIL@ + g);
                assert(t =~= "Search the project for: "@ + v + (SEARCH_CODE_TAIL@ + g));
            },
            Kind::ExplainCode => {
                crate::text::lemma_trim_idempotent(arg_spec(args, "snippet"@));
                if i == 0 {
                    lemma_contains_middle(
                        "Read the file `"@,
                        v,
                        "` and explain what its code does, clearly and concisely."@ + g,
                    );
                    assert(t =~= "Read the file `"@ + v + (
                    "` and explain what its code does, clearly and concisely."@ + g));
                } else {
                    assert(trim(v) == v) by {
                        match args {
                            JsonModel::Object(members) => match lookup(members, "snippet"@) {
                                Some(m) => match m.string_value {
                                    Some(s) => crate::text::lemma_trim_idempotent(s),
                                    None => {},
                                },
                                None => {},
                            },
                            _ => {},
                        }
                    }
                    lemma_contains_middle("Explain what this code does:\n\n"@, v, g);
                }
            },
            Kind::DraftCode => {
                lemma_contains_middle(
                    "Write code for the following request. Output only the code (a short explanatory comment is fine):\n\n"@,
                    v,
                    g,
                );
            },
            Kind::AskLocal => {
                lemma_contains_middle(Seq::empty(), v, g);
                assert(Seq::<char>::empty() + v + g =~= v + g);
            },
            Kind::ReviewBugs => {
                lemma_contains_middle("Review the code under `"@, v, REVIEW_BUGS_TAIL@ + g);
                assert(t =~= "Review the code under `"@ + v + (REVIEW_BUGS_TAIL@ + g));
            },
            Kind::FindDuplicates => {
                lemma_contains_middle(
                    "Look for duplicated or near-duplicated code under `"@,
                    v,
                    FIND_DUPLICATES_TAIL@ + g,
                );
                assert(t =~= "Look for duplicated or near-duplicated code under `"@ + v + (
                FIND_DUPLICATES_TAIL@ + g));
            },
            Kind::SummarizeRepo => {},
        }
    }
}

/// Law: each tool's schema declares, as a string property, every argument
/// its task is built from.
pub proof fn law_schema_declares_task_arguments(kind: Kind, i: int)
    requires
        0 <= i < tool_arguments(kind).len(),
    ensures
        contains_seq(schema_spec(kind), property_entry(tool_arguments(kind)[i])),
{
    let key = tool_arguments(kind)[i];
    let p = property_entry(key);
    match kind {
        Kind::SummarizeRepo => {},
        Kind::SummarizeFile => {
            reveal_strlit("{\"type\":\"object\",\"properties\":{\"path\":{\"type\":\"string\",\"description\":\"File path, relative to the working directory.\"}},\"required\":[\"path\"]}");
            reveal_strlit("path");
            assert(key == "path"@);
            assert(schema_spec(kind).subrange(31, 31 + p.len() as int) =~= p);
            assert(matches_at(schema_spec(kind), p, 31));
        },
        Kind::SearchCode => {
            reveal_strlit("{\"type\":\"object\",\"properties\":{\"query\":{\"type\":\"string\",\"description\":\"What to search for.\"}},\"required\":[\"query\"]}");
            reveal_strlit("query");
            assert(key == "query"@);
            assert(schema_spec(kind).subrange(31, 31 + p.len() as int) =~= p);
            assert(matches_at(schema_spec(kind), p, 31));
        },
        Kind::ExplainCode => {
            reveal_strlit("{\"type\":\"object\",\"properties\":{\"path\":{\"type\":\"string\",\"description\":\"Path to a file to explain (optional if 'snippet' given).\"},\"snippet\":{\"type\":\"string\",\"description\":\"Code to explain (optional if 'path' given).\"}}}");
            reveal_strlit("path");
            reveal_strlit("snippet");
            if i == 0 {
                assert(key == "path"@);
                assert(schema_spec(kind).subrange(31, 31 + p.len() as int) =~= p);
                assert(matches_at(schema_spec(kind), p, 31));
            } else {
                assert(key == "snippet"@);
                assert(schema_spec(kind).subrange(129, 129 + p.len() as int) =~= p);
                assert(matches_at(schema_spec(kind), p, 129));
            }
        },
        Kind::DraftCode => {
            reveal_strlit("{\"type\":\"object\",\"properties\":{\"instruction\":{\"type\":\"string\",\"description\":\"What to write.\"}},\"required\":[\"instruction\"]}");
            reveal_strlit("instruction");
            assert(key == "instruction"@);
            assert(schema_spec(kind).subrange(31, 31 + p.len() as int) =~= p);
            assert(matches_at(schema_spec(kind), p, 31));
        },
        Kind::AskLocal => {
            reveal_strlit("{\"type\":\"object\",\"properties\":{\"task\":{\"type\":\"string\",\"description\":\"The task or question.\"}},\"required\":[\"task\"]}");
            reveal_strlit("task");
            assert(key == "task"@);
            assert(schema_spec(kind).subrange(31, 31 + p.len() as int) =~= p);
            assert(matches_at(schema_spec(kind), p, 31));
        },
        Kind::ReviewBugs => {
            reveal_strlit("{\"type\":\"object\",\"properties\":{\"path\":{\"type\":\"string\",\"description\":\"File or folder to review (default: whole project).\"}}}");
            reveal_strlit("path");
            assert(key == "path"@);
            assert(schema_spec(kind).subrange(31, 31 + p.len() as int) =~= p);
            assert(matches_at(schema_spec(kind), p, 31));
        },
        Kind::FindDuplicates => {
            reveal_strlit("{\"type\":\"object\",\"properties\":{\"path\":{\"type\":\"string\",\"description\":\"File or folder to scan (default: whole project).\"}}}");
            reveal_strlit("path");
            assert(key == "path"@);
            assert(schema_spec(kind).subrange(31, 31 + p.len() as int) =~= p);
            assert(matches_at(schema_spec(kind), p, 31));
        },
    }
}

/// Law: each tool's schema marks as required exactly the argument it
/// requires, and that argument is one its task is built from.
pub proof fn law_schema_requires_its_argument(kind: Kind)
    requires
        required_arguments(kind).len() > 0,
    ensures
        contains_seq(schema_spec(kind), required_entry(required_arguments(kind)[0])),
        tool_arguments(kind).contains(required_arguments(kind)[0]),
{
    let key = required_arguments(kind)[0];
    let p = required_entry(key);
    match kind {
        Kind::SummarizeRepo => {},
        Kind::SummarizeFile => {
            reveal_strlit("{\"type\":\"object\",\"properties\":{\"path\":{\"type\":\"string\",\"description\":\"File path, relative to the working directory.\"}},\"required\":[\"path\"]}");
            reveal_strlit("path");
            assert(schema_spec(kind).subrange(119, 119 + p.len() as int) =~= p);
            assert(matches_at(schema_spec(kind), p, 119));
            assert(tool_arguments(kind)[0] == key);
        },
        Kind::SearchCode => {
            reveal_strlit("{\"type\":\"object\",\"properties\":{\"query\":{\"type\":\"string\",\"description\":\"What to search for.\"}},\"required\":[\"query\"]}");
            reveal_strlit("query");
            assert(schema_spec(kind).subrange(94, 94 + p.len() as int) =~= p);
            assert(matches_at(schema_spec(kind), p, 94));
            assert(tool_arguments(kind)[0] == key);
        },
        Kind::ExplainCode => {},
        Kind::DraftCode => {
            reveal_strlit("{\"type\":\"object\",\"properties\":{\"instruction\":{\"type\":\"string\",\"description\":\"What to write.\"}},\"required\":[\"instruction\"]}");
            reveal_strlit("instruction");
            assert(schema_spec(kind).subrange(95, 95 + p.len() as int) =~= p);
            assert(matches_at(schema_spec(kind), p, 95));
            assert(tool_arguments(kind)[0] == key);
        },
        Kind::AskLocal => {
            reveal_strlit("{\"type\":\"object\",\"properties\":{\"task\":{\"type\":\"string\",\"description\":\"The task or question.\"}},\"required\":[\"task\"]}");
            reveal_strlit("task");
            assert(schema_spec(kind).subrange(95, 95 + p.len() as int) =~= p);
            assert(matches_at(schema_spec(kind), p, 95));
            assert(tool_arguments(kind)[0] == key);
        },
        Kind::ReviewBugs => {},
        Kind::FindDuplicates => {},
    }
}

/// Law: the ask-local tool's task is the trimmed string argument `task`,
/// scaffolded; when the call gives no such string, the task is the bare
/// scaffolding.
pub proof fn law_ask_local_uses_the_task_argument(members: Seq<JsonMemberModel>)
    ensures
        lookup(members, "task"@) matches Some(m) ==> (m.string_value matches Some(s) ==> task_spec(
            Kind::AskLocal,
            JsonModel::Object(members),
        ) == trim(s) + TOOL_USE_GUIDE@),
        !(lookup(members, "task"@) matches Some(m) && m.string_value is Some) ==> task_spec(
            Kind::AskLocal,
            JsonModel::Object(members),
        ) == TOOL_USE_GUIDE@,
{
    assert(Seq::<char>::empty() + TOOL_USE_GUIDE@ =~= TOOL_USE_GUIDE@);
    if let Some(m) = lookup(members, "task"@) {
        if let Some(s) = m.string_value {
            assert(arg_spec(JsonModel::Object(members), "task"@) == trim(s));
        }
    }
}

} // verus!
