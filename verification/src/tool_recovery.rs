//! Server-agnostic tool-call recovery: when an inference server leaves a
//! model's tool call as raw JSON in the message text instead of surfacing it
//! as a structured call, recover the call(s) from that text.

use vstd::prelude::*;
use crate::candidates::{candidates_spec, extract_json_candidates};
use crate::json::{find_member, json_parse, lookup, parse_json, JsonMemberModel, JsonModel, JsonValue};
use crate::text::{decimal, push_decimal, texts, trim, trimmed};
use crate::think::strip_think_spec;
pub use crate::think::strip_think;

verus! {

broadcast use vstd::string::group_string_axioms;

/// The arguments of a recovered tool call.
pub enum ToolArgs {
    /// The JSON text of the arguments value.
    Json(String),
    /// Arguments that came as a string which is not itself JSON; they stand
    /// for the JSON string holding this text.
    Text(String),
}

/// The mathematical form of [`ToolArgs`].
pub enum ToolArgsModel {
    Json(Seq<char>),
    Text(Seq<char>),
}

impl View for ToolArgs {
    type V = ToolArgsModel;

    open spec fn view(&self) -> ToolArgsModel {
        match self {
            ToolArgs::Json(t) => ToolArgsModel::Json(t@),
            ToolArgs::Text(t) => ToolArgsModel::Text(t@),
        }
    }
}

/// A tool call: its id, the tool's name and the arguments.
pub struct ToolCall {
    pub id: String,
    pub name: String,
    pub args: ToolArgs,
}

/// The mathematical form of a [`ToolCall`].
pub struct ToolCallModel {
    pub id: Seq<char>,
    pub name: Seq<char>,
    pub args: ToolArgsModel,
}

impl View for ToolCall {
    type V = ToolCallModel;

    open spec fn view(&self) -> ToolCallModel {
        ToolCallModel { id: self.id@, name: self.name@, args: self.args@ }
    }
}

/// The view of a list of tool calls.
pub open spec fn calls_view(v: Seq<ToolCall>) -> Seq<ToolCallModel> {
    v.map_values(|c: ToolCall| c@)
}

/// The view of an optional tool call.
pub open spec fn call_opt(c: Option<ToolCall>) -> Option<ToolCallModel> {
    match c {
        Some(c) => Some(c@),
        None => None,
    }
}

/// The id of the call recovered at position `idx`: `call_{idx}`.
pub open spec fn call_id(idx: nat) -> Seq<char> {
    "call_"@ + decimal(idx)
}

/// The arguments member of an object: `arguments`, else `parameters`, else
/// `args`.
pub open spec fn raw_args(members: Seq<JsonMemberModel>) -> Option<JsonMemberModel> {
    match lookup(members, "arguments"@) {
        Some(m) => Some(m),
        None => match lookup(members, "parameters"@) {
            Some(m) => Some(m),
            None => lookup(members, "args"@),
        },
    }
}

/// The arguments of the call an object stands for: an empty object when it
/// names none; the string's own JSON when they are a string holding JSON;
/// the string itself when they are a string holding no JSON; else the
/// arguments value.
pub open spec fn args_spec(members: Seq<JsonMemberModel>) -> ToolArgsModel {
    match raw_args(members) {
        None => ToolArgsModel::Json("{}"@),
        Some(m) => match m.string_value {
            Some(s) => if json_parse(s) is Some {
                ToolArgsModel::Json(s)
            } else {
                ToolArgsModel::Text(s)
            },
            None => ToolArgsModel::Json(m.text),
        },
    }
}

/// The call a JSON value stands for, if it has the expected shape: an object
/// whose `name` is a string that is not blank once trimmed.
pub open spec fn tool_call_spec(v: JsonModel, idx: nat) -> Option<ToolCallModel> {
    match v {
        JsonModel::Object(members) => match lookup(members, "name"@) {
            Some(m) => match m.string_value {
                Some(n) => if trim(n).len() == 0 {
                    None
                } else {
                    Some(ToolCallModel { id: call_id(idx), name: trim(n), args: args_spec(members) })
                },
                None => None,
            },
            None => None,
        },
        _ => None,
    }
}

/// The calls that the items of an array stand for, numbered from `next`.
pub open spec fn calls_from_items(items: Seq<Seq<char>>, next: nat) -> Seq<ToolCallModel>
    decreases items.len(),
{
    if items.len() == 0 {
        seq![]
    } else {
        let first: Seq<ToolCallModel> = match json_parse(items[0]) {
            Some(v) => match tool_call_spec(v, next) {
                Some(c) => seq![c],
                None => seq![],
            },
            None => seq![],
        };
        first + calls_from_items(items.skip(1), next + first.len())
    }
}

/// The calls that one parsed JSON value stands for, numbered from `next`:
/// the items of an array, or a single object.
pub open spec fn calls_from_parsed(v: JsonModel, next: nat) -> Seq<ToolCallModel> {
    match v {
        JsonModel::Array(items) => calls_from_items(items, next),
        JsonModel::Object(members) => match tool_call_spec(JsonModel::Object(members), next) {
            Some(c) => seq![c],
            None => seq![],
        },
        _ => seq![],
    }
}

/// The calls that one candidate snippet stands for, numbered from `next`.
pub open spec fn calls_from_candidate(cand: Seq<char>, next: nat) -> Seq<ToolCallModel> {
    match json_parse(cand) {
        Some(v) => calls_from_parsed(v, next),
        None => seq![],
    }
}

/// The calls that a list of candidates stands for, numbered from `next`.
pub open spec fn calls_from_candidates(cands: Seq<Seq<char>>, next: nat) -> Seq<ToolCallModel>
    decreases cands.len(),
{
    if cands.len() == 0 {
        seq![]
    } else {
        let first = calls_from_candidate(cands[0], next);
        first + calls_from_candidates(cands.skip(1), next + first.len())
    }
}

/// What `recover_tool_calls` returns for `text`.
pub open spec fn recover_spec(text: Seq<char>) -> Seq<ToolCallModel> {
    calls_from_candidates(candidates_spec(text), 0)
}

/// Convert one JSON value into a [`ToolCall`], if it has the expected shape
/// (`{"name": "...", "arguments"|"parameters"|"args": {...}}`).
pub fn value_to_tool_call(v: &JsonValue, idx: usize) -> (r: Option<ToolCall>)
    ensures
        call_opt(r) == tool_call_spec(v@, idx as nat),
{
    let members = match v {
        JsonValue::Object(members) => members,
        _ => {
            return None;
        },
    };
    let name = match find_member(members, "name") {
        Some(i) => match &members[i].string_value {
            Some(n) => trimmed(n.as_str()),
            None => {
                return None;
            },
        },
        None => {
            return None;
        },
    };
    if name.as_str().is_empty() {
        return None;
    }
    let raw = match find_member(members, "arguments") {
        Some(i) => Some(i),
        None => match find_member(members, "parameters") {
            Some(i) => Some(i),
            None => find_member(members, "args"),
        },
    };
    let args = match raw {
        None => ToolArgs::Json(String::from_str("{}")),
        Some(i) => match &members[i].string_value {
            // Some models nest the arguments as a JSON-encoded string; unwrap if so.
            Some(s) => if parse_json(s.as_str()).is_some() {
                ToolArgs::Json(s.clone())
            } else {
                ToolArgs::Text(s.clone())
            },
            None => ToolArgs::Json(members[i].text.clone()),
        },
    };
    let mut id = String::from_str("call_");
    push_decimal(&mut id, idx);
    Some(ToolCall { id, name, args })
}

/// Pushes the call that `v` stands for, if any, numbered by the calls so far.
fn push_call(calls: &mut Vec<ToolCall>, v: &JsonValue)
    ensures
        calls_view(final(calls)@) == calls_view(old(calls)@) + match tool_call_spec(
            v@,
            old(calls)@.len(),
        ) {
            Some(c) => seq![c],
            None => Seq::<ToolCallModel>::empty(),
        },
{
    let n = calls.len();
    match value_to_tool_call(v, n) {
        Some(tc) => {
            calls.push(tc);
            assert(calls_view(calls@) =~= calls_view(old(calls)@) + seq![tc@]);
        },
        None => {
            assert(calls_view(calls@) =~= calls_view(old(calls)@) + Seq::<ToolCallModel>::empty());
        },
    }
}

/// Pushes the calls that the items of an array stand for.
fn push_item_calls(calls: &mut Vec<ToolCall>, items: &Vec<String>)
    ensures
        calls_view(final(calls)@) == calls_view(old(calls)@) + calls_from_items(
            texts(items@),
            old(calls)@.len(),
        ),
{
    let ghost all = texts(items@);
    let mut i: usize = 0;
    assert(all.skip(0) =~= all);
    while i < items.len()
        invariant
            i <= items@.len(),
            all == texts(items@),
            calls_view(old(calls)@) + calls_from_items(all, old(calls)@.len()) == calls_view(
                calls@,
            ) + calls_from_items(all.skip(i as int), calls@.len()),
        decreases items@.len() - i,
    {
        let ghost before = calls@;
        let ghost rest = all.skip(i as int);
        assert(rest[0] == items@[i as int]@);
        assert(rest.skip(1) =~= all.skip(i + 1));
        match parse_json(items[i].as_str()) {
            Some(v) => {
                push_call(calls, &v);
            },
            None => {
                assert(calls_view(calls@) =~= calls_view(before) + Seq::<ToolCallModel>::empty());
            },
        }
        assert(calls_view(before) + calls_from_items(rest, before.len()) =~= calls_view(calls@)
            + calls_from_items(all.skip(i + 1), calls@.len()));
        i = i + 1;
    }
    assert(all.skip(items@.len() as int) =~= Seq::<Seq<char>>::empty());
    assert(calls_view(calls@) + Seq::<ToolCallModel>::empty() =~= calls_view(calls@));
}

/// Appends the calls that one parsed JSON value stands for, numbered on from
/// the calls already there: every item of an array that is a tool call, or
/// the value itself when it is a tool call object.
pub fn push_calls_from_value(calls: &mut Vec<ToolCall>, v: &JsonValue)
    ensures
        calls_view(final(calls)@) == calls_view(old(calls)@) + calls_from_parsed(
            v@,
            old(calls)@.len(),
        ),
{
    match v {
        // A list of tool calls.
        JsonValue::Array(items) => push_item_calls(calls, items),
        // A single tool call object.
        JsonValue::Object(_) => push_call(calls, v),
        _ => {
            assert(calls_view(calls@) =~= calls_view(old(calls)@) + Seq::<ToolCallModel>::empty());
        },
    }
}

/// Parse zero or more tool calls out of a model's raw text content.
pub fn recover_tool_calls(text: &str) -> (calls: Vec<ToolCall>)
    ensures
        calls_view(calls@) == recover_spec(text@),
{
    let cands = extract_json_candidates(text);
    let ghost all = texts(cands@);
    let mut calls: Vec<ToolCall> = Vec::new();
    let mut i: usize = 0;
    assert(all.skip(0) =~= all);
    while i < cands.len()
        invariant
            i <= cands@.len(),
            all == texts(cands@),
            all == crate::candidates::candidates_spec(text@),
            recover_spec(text@) == calls_view(calls@) + calls_from_candidates(
                all.skip(i as int),
                calls@.len(),
            ),
        decreases cands@.len() - i,
    {
        let ghost before = calls@;
        let ghost rest = all.skip(i as int);
        assert(rest[0] == cands@[i as int]@);
        assert(rest.skip(1) =~= all.skip(i + 1));
        if let Some(v) = parse_json(cands[i].as_str()) {
            push_calls_from_value(&mut calls, &v);
        }
        i = i + 1;
    }
    assert(all.skip(cands@.len() as int) =~= Seq::<Seq<char>>::empty());
    assert(calls_view(calls@) + Seq::<ToolCallModel>::empty() =~= calls_view(calls@));
    calls
}

/// The view of an optional string.
pub open spec fn text_opt(t: Option<String>) -> Option<Seq<char>> {
    match t {
        Some(s) => Some(s@),
        None => None,
    }
}

/// A model's text with reasoning blocks stripped; `None` when nothing is left.
pub open spec fn cleaned_text(text: Option<Seq<char>>) -> Option<Seq<char>> {
    match text {
        Some(t) => if strip_think_spec(t).len() == 0 {
            None
        } else {
            Some(strip_think_spec(t))
        },
        None => None,
    }
}

/// The calls recovered from a model's output: only when the server gave no
/// structured calls, from the cleaned text.
pub open spec fn recovered_spec(text: Option<Seq<char>>, has_tool_calls: bool) -> Seq<
    ToolCallModel,
> {
    if has_tool_calls {
        seq![]
    } else {
        match cleaned_text(text) {
            Some(t) => recover_spec(t),
            None => seq![],
        }
    }
}

/// The text left in a model's output: dropped when calls were recovered from
/// it, else the cleaned text.
pub open spec fn reply_text_spec(text: Option<Seq<char>>, has_tool_calls: bool) -> Option<
    Seq<char>,
> {
    if recovered_spec(text, has_tool_calls).len() > 0 {
        None
    } else {
        cleaned_text(text)
    }
}

/// A model's output after recovery: the text to keep, and the calls
/// recovered from the text (empty when there are none, in which case the
/// output's own calls stand).
pub struct RecoveredOutput {
    pub text: Option<String>,
    pub recovered: Vec<ToolCall>,
}

/// Post-processes a model's output: strips `<think>` reasoning blocks from
/// its text, and, when the server gave no structured tool calls
/// (`has_tool_calls` false) but the text holds some, recovers them and drops
/// the text, which was the call itself and not a message for the user.
pub fn recover_output(text: Option<String>, has_tool_calls: bool) -> (r: RecoveredOutput)
    ensures
        text_opt(r.text) == reply_text_spec(text_opt(text), has_tool_calls),
        calls_view(r.recovered@) == recovered_spec(text_opt(text), has_tool_calls),
        has_tool_calls ==> r.recovered@.len() == 0,
        !has_tool_calls ==> calls_view(r.recovered@) == match text_opt(text) {
            Some(t) => if strip_think_spec(t).len() == 0 {
                Seq::<ToolCallModel>::empty()
            } else {
                recover_spec(strip_think_spec(t))
            },
            None => Seq::<ToolCallModel>::empty(),
        },
        r.recovered@.len() > 0 ==> r.text is None,
        r.recovered@.len() == 0 ==> text_opt(r.text) == match text_opt(text) {
            Some(t) => if strip_think_spec(t).len() == 0 {
                None
            } else {
                Some(strip_think_spec(t))
            },
            None => None,
        },
{
    // Reasoning is stripped first, so recovery sees the real answer.
    let cleaned = match text {
        Some(t) => {
            let c = strip_think(t.as_str());
            if c.as_str().is_empty() {
                None
            } else {
                Some(c)
            }
        },
        None => None,
    };
    if !has_tool_calls {
        if let Some(t) = &cleaned {
            let recovered = recover_tool_calls(t.as_str());
            if recovered.len() > 0 {
                return RecoveredOutput { text: None, recovered };
            }
        }
    }
    RecoveredOutput { text: cleaned, recovered: Vec::new() }
}

// ---------------------------------------------------------------------------
// Laws
// ---------------------------------------------------------------------------

/// Calls numbered `call_{next}`, `call_{next+1}`, … in order, each naming a
/// tool by a trimmed, non-blank name.
pub open spec fn numbered_from(calls: Seq<ToolCallModel>, next: nat) -> bool {
    forall|i: int|
        0 <= i < calls.len() ==> {
            &&& (#[trigger] calls[i]).id == call_id((next + i) as nat)
            &&& calls[i].name.len() > 0
            &&& trim(calls[i].name) == calls[i].name
        }
}

proof fn lemma_tool_call_shape(v: JsonModel, idx: nat)
    ensures
        tool_call_spec(v, idx) matches Some(c) ==> numbered_from(seq![c], idx),
{
    if let Some(c) = tool_call_spec(v, idx) {
        if let JsonModel::Object(members) = v {
            if let Some(m) = lookup(members, "name"@) {
                if let Some(n) = m.string_value {
                    crate::text::lemma_trim_idempotent(n);
                }
            }
        }
        assert(seq![c][0] == c);
    }
}

proof fn lemma_concat_numbered(a: Seq<ToolCallModel>, b: Seq<ToolCallModel>, next: nat)
    requires
        numbered_from(a, next),
        numbered_from(b, next + a.len()),
    ensures
        numbered_from(a + b, next),
{
    assert forall|i: int| 0 <= i < (a + b).len() implies {
        &&& (#[trigger] (a + b)[i]).id == call_id((next + i) as nat)
        &&& (a + b)[i].name.len() > 0
        &&& trim((a + b)[i].name) == (a + b)[i].name
    } by {
        if i < a.len() {
            assert((a + b)[i] == a[i]);
        } else {
            assert((a + b)[i] == b[i - a.len()]);
            assert((next + a.len() + (i - a.len())) as nat == (next + i) as nat);
        }
    }
}

proof fn lemma_single_or_none_numbered(v: Option<JsonModel>, next: nat)
    ensures
        numbered_from(
            match v {
                Some(v) => match tool_call_spec(v, next) {
                    Some(c) => seq![c],
                    None => Seq::<ToolCallModel>::empty(),
                },
                None => Seq::<ToolCallModel>::empty(),
            },
            next,
        ),
{
    if let Some(v) = v {
        lemma_tool_call_shape(v, next);
    }
}

proof fn lemma_items_numbered(items: Seq<Seq<char>>, next: nat)
    ensures
        numbered_from(calls_from_items(items, next), next),
    decreases items.len(),
{
    if items.len() > 0 {
        let first: Seq<ToolCallModel> = match json_parse(items[0]) {
            Some(v) => match tool_call_spec(v, next) {
                Some(c) => seq![c],
                None => seq![],
            },
            None => seq![],
        };
        lemma_single_or_none_numbered(json_parse(items[0]), next);
        lemma_items_numbered(items.skip(1), next + first.len());
        lemma_concat_numbered(first, calls_from_items(items.skip(1), next + first.len()), next);
    }
}

proof fn lemma_candidates_numbered(cands: Seq<Seq<char>>, next: nat)
    ensures
        numbered_from(calls_from_candidates(cands, next), next),
    decreases cands.len(),
{
    if cands.len() > 0 {
        let first = calls_from_candidate(cands[0], next);
        match json_parse(cands[0]) {
            Some(JsonModel::Array(items)) => lemma_items_numbered(items, next),
            Some(JsonModel::Object(members)) => lemma_tool_call_shape(
                JsonModel::Object(members),
                next,
            ),
            _ => {},
        }
        lemma_candidates_numbered(cands.skip(1), next + first.len());
        lemma_concat_numbered(first, calls_from_candidates(cands.skip(1), next + first.len()), next);
    }
}

/// Law: the calls recovered from a text are numbered `call_0`, `call_1`, …
/// in the order they were found, and each names its tool by a trimmed,
/// non-blank name.
pub proof fn law_recovered_calls_numbered(text: Seq<char>)
    ensures
        numbered_from(recover_spec(text), 0),
{
    lemma_candidates_numbered(candidates_spec(text), 0);
}

/// Law: text that holds no `<tool_call>` tag and no `{` or `[` (plain prose)
/// yields no call.
pub proof fn law_plain_prose_has_no_calls(text: Seq<char>)
    requires
        !crate::text::contains_seq(text, crate::candidates::tool_call_open()),
        crate::candidates::no_open_bracket(text),
    ensures
        recover_spec(text) == Seq::<ToolCallModel>::empty(),
{
    crate::candidates::law_plain_text_has_no_candidates(text);
}

/// Law: when the server gave structured calls, nothing is recovered and
/// only the reasoning is stripped from the text.
pub proof fn law_native_calls_stand(text: Option<Seq<char>>)
    ensures
        recovered_spec(text, true) == Seq::<ToolCallModel>::empty(),
        reply_text_spec(text, true) == cleaned_text(text),
{
}

/// Law: when calls are recovered from the text, the text is dropped; the
/// text that stays never holds a `<think>` tag.
pub proof fn law_recovered_text_dropped(text: Option<Seq<char>>, has_tool_calls: bool)
    ensures
        recovered_spec(text, has_tool_calls).len() > 0 ==> reply_text_spec(text, has_tool_calls) is None,
        reply_text_spec(text, has_tool_calls) matches Some(t) ==> !crate::text::contains_seq(
            t,
            crate::think::think_open(),
        ),
{
    if let Some(t) = text {
        crate::think::law_strip_think_leaves_no_block(t);
    }
}

/// Law: recovery reads only the answer after the reasoning: when the server
/// gave no structured calls, the calls recovered from a model's text are the
/// calls recovered from that text with its `<think>` blocks stripped.
pub proof fn law_recovery_reads_the_answer(text: Seq<char>)
    ensures
        strip_think_spec(text).len() > 0 ==> recovered_spec(Some(text), false) == recover_spec(
            strip_think_spec(text),
        ),
        strip_think_spec(text).len() == 0 ==> recovered_spec(Some(text), false).len() == 0
            && reply_text_spec(Some(text), false) is None,
{
}

/// Law: an answer (after the reasoning) that holds no `<tool_call>` tag and
/// no `{` or `[` gives no call and is kept as the text, whatever the
/// reasoning holds.
pub proof fn law_prose_answer_is_kept(text: Seq<char>)
    requires
        strip_think_spec(text).len() > 0,
        !crate::text::contains_seq(strip_think_spec(text), crate::candidates::tool_call_open()),
        crate::candidates::no_open_bracket(strip_think_spec(text)),
    ensures
        recovered_spec(Some(text), false).len() == 0,
        reply_text_spec(Some(text), false) == Some(strip_think_spec(text)),
{
    law_plain_prose_has_no_calls(strip_think_spec(text));
}

} // verus!
