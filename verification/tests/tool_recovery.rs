use local_coding_agent::json::{JsonMember, JsonValue};
use local_coding_agent::tool_recovery::{
    push_calls_from_value, recover_output, recover_tool_calls, value_to_tool_call, ToolArgs,
    ToolCall,
};
use local_coding_agent::think::strip_think;

/// The arguments of a recovered call as a JSON value.
fn args_of(call: &ToolCall) -> serde_json::Value {
    match &call.args {
        ToolArgs::Json(t) => serde_json::from_str(t).expect("arguments hold JSON text"),
        ToolArgs::Text(s) => serde_json::Value::String(s.clone()),
    }
}

#[test]
fn bare_json_object() {
    // Exactly what Ollama left in `content` for qwen2.5-coder.
    let calls = recover_tool_calls("{\n  \"name\": \"list_dir\",\n  \"arguments\": {\n    \"path\": \".\"\n  }\n}");
    assert_eq!(calls.len(), 1);
    assert_eq!(calls[0].name, "list_dir");
    assert_eq!(args_of(&calls[0])["path"], ".");
}

#[test]
fn qwen_tool_call_tags() {
    let calls = recover_tool_calls("<tool_call>{\"name\": \"read_file\", \"arguments\": {\"path\": \"Cargo.toml\"}}</tool_call>");
    assert_eq!(calls.len(), 1);
    assert_eq!(calls[0].name, "read_file");
    assert_eq!(args_of(&calls[0])["path"], "Cargo.toml");
}

#[test]
fn fenced_json_block() {
    let calls = recover_tool_calls("```json\n{\"name\": \"list_dir\", \"arguments\": {\"path\": \".\"}}\n```");
    assert_eq!(calls.len(), 1);
    assert_eq!(calls[0].name, "list_dir");
}

#[test]
fn skips_echoed_tool_response_and_finds_real_call() {
    // An echoed <tool_response> blob (no "name") immediately followed by the
    // real tool call.
    let text = "<tool_response>\n{\"content\":\"README.md\",\"limit\":2000,\"path\":\"README.md\"}\n</tool_response>\n{\"name\": \"read_file\", \"arguments\": {\"path\":\"src/main.rs\"}}";
    let calls = recover_tool_calls(text);
    assert_eq!(calls.len(), 1);
    assert_eq!(calls[0].name, "read_file");
    assert_eq!(args_of(&calls[0])["path"], "src/main.rs");
}

#[test]
fn strips_think_block_keeps_answer() {
    assert_eq!(
        strip_think("<think>\nlet me reason\n</think>\nThe answer is 42."),
        "The answer is 42."
    );
    // A tool call after a reasoning block is still recoverable.
    let calls = recover_tool_calls(
        "<think>I should look around</think>\n{\"name\":\"list_dir\",\"arguments\":{\"path\":\".\"}}",
    );
    // recover_tool_calls itself doesn't strip think, but the output
    // post-processing does; here the JSON after the block parses once think is gone.
    assert_eq!(strip_think("<think>x</think>{\"name\":\"list_dir\",\"arguments\":{\"path\":\".\"}}"),
               "{\"name\":\"list_dir\",\"arguments\":{\"path\":\".\"}}");
    assert_eq!(calls.len(), 1);
}

#[test]
fn plain_prose_is_not_a_tool_call() {
    let calls = recover_tool_calls("This project is a local coding agent built with harness-rs.");
    assert!(calls.is_empty());
}

#[test]
fn calls_in_an_array_are_numbered_in_order() {
    let calls = recover_tool_calls(
        "[{\"name\": \"list_dir\", \"arguments\": {\"path\": \".\"}}, {\"oops\": 1}, {\"name\": \" read_file \", \"args\": {\"path\": \"a.rs\"}}]",
    );
    assert_eq!(calls.len(), 2);
    assert_eq!(calls[0].id, "call_0");
    assert_eq!(calls[1].id, "call_1");
    assert_eq!(calls[1].name, "read_file");
    assert_eq!(args_of(&calls[1])["path"], "a.rs");
}

#[test]
fn numbering_runs_across_candidates() {
    let calls = recover_tool_calls(
        "<tool_call>{\"name\": \"a\"}</tool_call> then <tool_call>[{\"name\": \"b\"}, {\"name\": \"c\"}]</tool_call>",
    );
    let ids: Vec<&str> = calls.iter().map(|c| c.id.as_str()).collect();
    let names: Vec<&str> = calls.iter().map(|c| c.name.as_str()).collect();
    assert_eq!(ids, vec!["call_0", "call_1", "call_2"]);
    assert_eq!(names, vec!["a", "b", "c"]);
}

#[test]
fn missing_arguments_become_an_empty_object() {
    let calls = recover_tool_calls("{\"name\": \"list_dir\"}");
    assert_eq!(calls.len(), 1);
    assert_eq!(args_of(&calls[0]), serde_json::Value::Object(serde_json::Map::new()));
}

#[test]
fn parameters_key_is_accepted() {
    let calls = recover_tool_calls("{\"name\": \"read_file\", \"parameters\": {\"path\": \"x\"}}");
    assert_eq!(args_of(&calls[0])["path"], "x");
}

#[test]
fn string_encoded_arguments_are_unwrapped() {
    let calls = recover_tool_calls("{\"name\": \"read_file\", \"arguments\": \"{\\\"path\\\": \\\"y\\\"}\"}");
    assert_eq!(calls.len(), 1);
    assert!(matches!(calls[0].args, ToolArgs::Json(_)));
    assert_eq!(args_of(&calls[0])["path"], "y");
}

#[test]
fn string_arguments_that_are_not_json_stay_text() {
    let calls = recover_tool_calls("{\"name\": \"ask\", \"arguments\": \"just words\"}");
    assert_eq!(calls.len(), 1);
    match &calls[0].args {
        ToolArgs::Text(s) => assert_eq!(s, "just words"),
        ToolArgs::Json(t) => panic!("unexpected JSON arguments {t}"),
    }
}

#[test]
fn blank_or_non_string_names_are_skipped() {
    assert!(recover_tool_calls("{\"name\": \"   \", \"arguments\": {}}").is_empty());
    assert!(recover_tool_calls("{\"name\": 7, \"arguments\": {}}").is_empty());
    assert!(recover_tool_calls("{\"tool\": \"x\"}").is_empty());
}

#[test]
fn invalid_json_is_skipped() {
    assert!(recover_tool_calls("{\"name\": \"x\",}").is_empty());
}

#[test]
fn output_keeps_native_calls_and_strips_reasoning() {
    let out = recover_output(
        Some("<think>hmm</think> {\"name\": \"list_dir\"}".to_string()),
        true,
    );
    assert!(out.recovered.is_empty());
    assert_eq!(out.text.as_deref(), Some("{\"name\": \"list_dir\"}"));
}

#[test]
fn output_recovers_calls_and_drops_text() {
    let out = recover_output(
        Some("<think>hmm</think>\n{\"name\": \"list_dir\", \"arguments\": {\"path\": \".\"}}".to_string()),
        false,
    );
    assert_eq!(out.recovered.len(), 1);
    assert_eq!(out.recovered[0].name, "list_dir");
    assert!(out.text.is_none());
}

#[test]
fn output_with_only_reasoning_has_no_text() {
    let out = recover_output(Some("<think>only thoughts</think>   ".to_string()), false);
    assert!(out.text.is_none());
    assert!(out.recovered.is_empty());
    let none = recover_output(None, false);
    assert!(none.text.is_none());
}

#[test]
fn output_prose_is_kept() {
    let out = recover_output(Some("  The answer.  ".to_string()), false);
    assert_eq!(out.text.as_deref(), Some("The answer."));
    assert!(out.recovered.is_empty());
}

#[test]
fn one_line_fenced_call_is_recovered() {
    let calls = recover_tool_calls("```{\"name\": \"list_dir\", \"arguments\": {\"path\": \".\"}}```");
    assert_eq!(calls.len(), 1);
    assert_eq!(calls[0].name, "list_dir");
}

fn member(key: &str, text: &str, string_value: Option<&str>) -> JsonMember {
    JsonMember {
        key: key.to_string(),
        text: text.to_string(),
        string_value: string_value.map(|s| s.to_string()),
    }
}

#[test]
fn call_from_a_given_object() {
    let v = JsonValue::Object(vec![
        member("args", "{\"x\":1}", None),
        member("name", "\" grep \"", Some(" grep ")),
    ]);
    let call = value_to_tool_call(&v, 10).unwrap();
    assert_eq!(call.id, "call_10");
    assert_eq!(call.name, "grep");
    assert!(matches!(&call.args, ToolArgs::Json(t) if t == "{\"x\":1}"));
    assert!(value_to_tool_call(&JsonValue::Str("name".to_string()), 0).is_none());
    let unnamed = JsonValue::Object(vec![member("name", "3", None)]);
    assert!(value_to_tool_call(&unnamed, 0).is_none());
}

#[test]
fn calls_from_a_given_value_number_on() {
    let mut calls = Vec::new();
    let one = JsonValue::Object(vec![member("name", "\"a\"", Some("a"))]);
    push_calls_from_value(&mut calls, &one);
    push_calls_from_value(&mut calls, &JsonValue::Null);
    let list = JsonValue::Array(vec![
        "{\"name\":\"b\"}".to_string(),
        "7".to_string(),
        "{\"name\":\"c\",\"arguments\":\"not json\"}".to_string(),
    ]);
    push_calls_from_value(&mut calls, &list);
    let ids: Vec<&str> = calls.iter().map(|c| c.id.as_str()).collect();
    assert_eq!(ids, vec!["call_0", "call_1", "call_2"]);
    assert!(matches!(&calls[2].args, ToolArgs::Text(s) if s == "not json"));
}
