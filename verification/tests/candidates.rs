use local_coding_agent::candidates::{
    all_balanced_json, balanced_end, extract_json_candidates, split_tagged, strip_code_fence,
};
use local_coding_agent::think::strip_think;

fn chars(s: &str) -> Vec<char> {
    s.chars().collect()
}

#[test]
fn split_tagged_trims_each_block() {
    let out = split_tagged("a <t> x </t> b <t>y</t>", "<t>", "</t>");
    assert_eq!(out, vec!["x".to_string(), "y".to_string()]);
}

#[test]
fn split_tagged_keeps_an_unclosed_tail() {
    let out = split_tagged("<t>one</t><t> two ", "<t>", "</t>");
    assert_eq!(out, vec!["one".to_string(), "two".to_string()]);
    assert!(split_tagged("no tags here", "<t>", "</t>").is_empty());
}

#[test]
fn code_fence_with_language_tag() {
    assert_eq!(strip_code_fence("  ```json\n{\"a\": 1}\n```  "), "{\"a\": 1}\n");
}

#[test]
fn code_fence_without_closing_keeps_body() {
    assert_eq!(strip_code_fence("```\nbody text  "), "body text");
    assert_eq!(strip_code_fence("```json\n{}\n"), "{}");
    assert_eq!(strip_code_fence("```only one line"), "only one line");
}

#[test]
fn one_line_fence_keeps_its_body() {
    assert_eq!(strip_code_fence("```[1]```"), "[1]");
    assert_eq!(strip_code_fence(" ```{\"a\": 1}``` "), "{\"a\": 1}");
}

#[test]
fn text_without_fence_is_trimmed() {
    assert_eq!(strip_code_fence("  plain  "), "plain");
}

#[test]
fn balanced_end_respects_strings_and_escapes() {
    let v = chars("x{\"a\": \"}\\\"{\", \"b\": [1, {}]} tail");
    assert_eq!(balanced_end(&v, 1), Some(27));
    let w = chars("[1, [2, 3]");
    assert_eq!(balanced_end(&w, 0), None);
    assert_eq!(balanced_end(&w, 4), Some(9));
    // What precedes the start does not matter.
    assert_eq!(balanced_end(&w[4..], 0).map(|k| k + 4), balanced_end(&w, 4));
    assert_eq!(balanced_end(&v[1..], 0).map(|k| k + 1), balanced_end(&v, 1));
}

#[test]
fn all_balanced_values_left_to_right() {
    let out = all_balanced_json("a {\"x\": 1} b [2, 3] c { unclosed");
    assert_eq!(out, vec!["{\"x\": 1}".to_string(), "[2, 3]".to_string()]);
    assert!(all_balanced_json("nothing here").is_empty());
}

#[test]
fn multibyte_text_around_values() {
    let out = all_balanced_json("é {\"k\": \"ü}\"} ✓");
    assert_eq!(out, vec!["{\"k\": \"ü}\"}".to_string()]);
}

#[test]
fn tagged_blocks_take_precedence_over_bare_values() {
    let out = extract_json_candidates("{\"a\": 1} <tool_call>{\"b\": 2}</tool_call>");
    assert_eq!(out, vec!["{\"b\": 2}".to_string()]);
    let bare = extract_json_candidates("{\"a\": 1} and [2]");
    assert_eq!(bare, vec!["{\"a\": 1}".to_string(), "[2]".to_string()]);
}

#[test]
fn strip_think_drops_unclosed_reasoning() {
    assert_eq!(strip_think("Answer first. <think>never finished"), "Answer first.");
    assert_eq!(strip_think("<think>a</think>B<think>c</think> D "), "B D");
    assert_eq!(strip_think("  no reasoning here \n"), "no reasoning here");
    assert_eq!(strip_think("<think>everything</think>"), "");
}

#[test]
fn strip_think_is_idempotent_and_leaves_no_tag() {
    for text in ["a<think>b</think> c", "x <think>unclosed", "  <think></think><think>y</think>z ", "plain"] {
        let once = strip_think(text);
        assert!(!once.contains("<think>"));
        assert_eq!(strip_think(&once), once);
        assert_eq!(once.trim(), once);
    }
}

#[test]
fn unicode_whitespace_is_trimmed() {
    assert_eq!(strip_think("\u{3000}\u{85}answer\u{a0}\t"), "answer");
    assert_eq!(strip_code_fence("\u{2003}text\u{2028}"), "text");
}

#[test]
fn plain_text_has_no_candidates() {
    assert!(extract_json_candidates("Nothing to see here, move along.").is_empty());
}
