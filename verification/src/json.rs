//! The library's view of a parsed JSON value: its top level as plain values,
//! with nested values kept as their JSON text (and, for object members, their
//! contents when they are strings).

use vstd::prelude::*;
use crate::text::{same_text, texts};
use serde_json::Value;

verus! {

broadcast use vstd::string::group_string_axioms;

/// The top level of a JSON value. Numbers are kept as their JSON text; array
/// items as their compact JSON text, which parses back to the same item.
pub enum JsonValue {
    Null,
    Bool(bool),
    Number(String),
    Str(String),
    Array(Vec<String>),
    Object(Vec<JsonMember>),
}

/// One member of a JSON object: its key, its value as compact JSON text, and
/// the value's contents when it is a JSON string.
pub struct JsonMember {
    pub key: String,
    pub text: String,
    pub string_value: Option<String>,
}

/// The mathematical form of a [`JsonMember`].
pub struct JsonMemberModel {
    pub key: Seq<char>,
    pub text: Seq<char>,
    pub string_value: Option<Seq<char>>,
}

impl View for JsonMember {
    type V = JsonMemberModel;

    open spec fn view(&self) -> JsonMemberModel {
        JsonMemberModel {
            key: self.key@,
            text: self.text@,
            string_value: match self.string_value {
                Some(s) => Some(s@),
                None => None,
            },
        }
    }
}

/// The mathematical form of a [`JsonValue`].
pub enum JsonModel {
    Null,
    Bool(bool),
    Number(Seq<char>),
    Str(Seq<char>),
    Array(Seq<Seq<char>>),
    Object(Seq<JsonMemberModel>),
}

/// The view of a list of object members.
pub open spec fn members_view(ms: Seq<JsonMember>) -> Seq<JsonMemberModel> {
    ms.map_values(|m: JsonMember| m@)
}

impl View for JsonValue {
    type V = JsonModel;

    open spec fn view(&self) -> JsonModel {
        match self {
            JsonValue::Null => JsonModel::Null,
            JsonValue::Bool(b) => JsonModel::Bool(*b),
            JsonValue::Number(n) => JsonModel::Number(n@),
            JsonValue::Str(s) => JsonModel::Str(s@),
            JsonValue::Array(items) => JsonModel::Array(texts(items@)),
            JsonValue::Object(members) => JsonModel::Object(members_view(members@)),
        }
    }
}

/// The view of an optional [`JsonValue`].
pub open spec fn json_opt(v: Option<JsonValue>) -> Option<JsonModel> {
    match v {
        Some(j) => Some(j@),
        None => None,
    }
}

/// What `serde_json` parses `text` to, `None` where it rejects it.
pub uninterp spec fn json_parse(text: Seq<char>) -> Option<JsonModel>;

/// Parses `text` with `serde_json::from_str::<serde_json::Value>` and returns
/// its top level: array items and member values rendered back to compact
/// JSON text by `serde_json::Value`'s `Display`, and a member's contents when
/// it is a string (`Value::as_str`). The contract only names the result: it
/// claims that the same text always parses to the same value.
#[verifier::external_body]
pub(crate) fn parse_json(text: &str) -> (r: Option<JsonValue>)
    ensures
        json_opt(r) == json_parse(text@),
{
    Some(match serde_json::from_str::<Value>(text).ok()? {
        Value::Null => JsonValue::Null,
        Value::Bool(b) => JsonValue::Bool(b),
        Value::Number(n) => JsonValue::Number(n.to_string()),
        Value::String(s) => JsonValue::Str(s),
        Value::Array(a) => JsonValue::Array(a.iter().map(|x| x.to_string()).collect()),
        Value::Object(m) => JsonValue::Object(m.into_iter().map(|(key, x)| JsonMember {
            key, text: x.to_string(), string_value: x.as_str().map(String::from),
        }).collect()),
    })
}

/// The first member named `key`.
pub open spec fn lookup(members: Seq<JsonMemberModel>, key: Seq<char>) -> Option<JsonMemberModel>
    decreases members.len(),
{
    if members.len() == 0 {
        None
    } else if members[0].key == key {
        Some(members[0])
    } else {
        lookup(members.skip(1), key)
    }
}

/// The index of the first member named `key`, if there is one.
pub fn find_member(members: &Vec<JsonMember>, key: &str) -> (r: Option<usize>)
    ensures
        match r {
            Some(i) => i < members@.len() && lookup(members_view(members@), key@) == Some(
                members@[i as int]@,
            ),
            None => lookup(members_view(members@), key@) is None,
        },
{
    let ghost all = members_view(members@);
    let mut i: usize = 0;
    assert(all.skip(0) =~= all);
    while i < members.len()
        invariant
            i <= members@.len(),
            all == members_view(members@),
            lookup(all, key@) == lookup(all.skip(i as int), key@),
        decreases members@.len() - i,
    {
        assert(all.skip(i as int).skip(1) =~= all.skip(i + 1));
        assert(all.skip(i as int)[0] == all[i as int]);
        if same_text(members[i].key.as_str(), key) {
            return Some(i);
        }
        i = i + 1;
    }
    None
}

} // verus!
