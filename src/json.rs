use vstd::prelude::*;

use crate::text::{same_text, strip_code_fences, trim, trim_spec, unfenced};

verus! {

/// A decoded JSON document. A number holds its value when it is a non-negative
/// integer that fits in 64 bits, and `None` otherwise.
pub enum JsonValue {
    Null,
    Bool(bool),
    Number(Option<u64>),
    Str(String),
    Array(Vec<JsonValue>),
    Object(Vec<(String, JsonValue)>),
}

/// What decoding `text` as one JSON document yields, `None` when it is not valid JSON.
pub uninterp spec fn json_of(text: Seq<char>) -> Option<JsonValue>;

#[verifier::external_type_specification]
#[verifier::external_body]
pub struct ExSerdeJsonValue(serde_json::Value);

/// Relies on serde_json::Value's variants: each is carried over to the same variant.
#[verifier::external_body]
fn from_serde(v: &serde_json::Value) -> JsonValue {
    match v {
        serde_json::Value::Null => JsonValue::Null,
        serde_json::Value::Bool(b) => JsonValue::Bool(*b),
        serde_json::Value::Number(n) => JsonValue::Number(n.as_u64()),
        serde_json::Value::String(s) => JsonValue::Str(s.clone()),
        serde_json::Value::Array(a) => JsonValue::Array(a.iter().map(from_serde).collect()),
        serde_json::Value::Object(o) => JsonValue::Object(o.iter().map(|(k, x)| (k.clone(), from_serde(x))).collect()),
    }
}

/// Relies on serde_json::from_str: decodes `text` as one JSON document, or fails; the
/// outcome depends on the text alone.
#[verifier::external_body]
pub(crate) fn parse_json(text: &str) -> (r: Option<JsonValue>)
    ensures
        r == json_of(text@),
{
    serde_json::from_str::<serde_json::Value>(text).ok().map(|v| from_serde(&v))
}

/// The value of the first member of `members` named `key`.
pub open spec fn member(members: Seq<(String, JsonValue)>, key: Seq<char>) -> Option<JsonValue>
    decreases members.len(),
{
    if members.len() == 0 {
        None
    } else if members[0].0@ == key {
        Some(members[0].1)
    } else {
        member(members.drop_first(), key)
    }
}

/// The string held by member `key` of an object.
pub open spec fn str_member(v: JsonValue, key: Seq<char>) -> Option<Seq<char>> {
    match v {
        JsonValue::Object(ms) => match member(ms@, key) {
            Some(JsonValue::Str(s)) => Some(s@),
            _ => None,
        },
        _ => None,
    }
}

/// The value of member `key` of `v`, when `v` is an object that has it.
pub fn get_member<'a>(v: &'a JsonValue, key: &str) -> (r: Option<&'a JsonValue>)
    ensures
        match v {
            JsonValue::Object(ms) => match r {
                Some(x) => member(ms@, key@) == Some(*x),
                None => member(ms@, key@) is None,
            },
            _ => r is None,
        },
{
    match v {
        JsonValue::Object(ms) => {
            let n = ms.len();
            let mut i: usize = 0;
            assert(ms@.subrange(0, n as int) =~= ms@);
            while i < n
                invariant
                    n == ms.len(),
                    *v == JsonValue::Object(*ms),
                    i <= n,
                    member(ms@, key@) == member(ms@.subrange(i as int, n as int), key@),
                decreases n - i,
            {
                assert(ms@.subrange(i as int, n as int)[0] == ms@[i as int]);
                if same_text(ms[i].0.as_str(), key) {
                    assert(member(ms@.subrange(i as int, n as int), key@) == Some(ms@[i as int].1));
                    return Some(&ms[i].1);
                }
                assert(ms@.subrange(i as int, n as int).drop_first() =~= ms@.subrange(i + 1, n as int));
                i = i + 1;
            }
            assert(ms@.subrange(n as int, n as int) =~= Seq::<(String, JsonValue)>::empty());
            None
        },
        _ => None,
    }
}

/// The string held by member `key` of `v`.
pub fn get_str_member(v: &JsonValue, key: &str) -> (r: Option<String>)
    ensures
        match r {
            Some(s) => str_member(*v, key@) == Some(s@),
            None => str_member(*v, key@) is None,
        },
{
    match get_member(v, key) {
        Some(JsonValue::Str(s)) => Some(s.clone()),
        _ => None,
    }
}

/// The JSON a model reply carries: its text with fences stripped, or, when that is not
/// valid JSON, its raw text trimmed.
pub open spec fn reply_json(reply: Seq<char>) -> Option<JsonValue> {
    match json_of(unfenced(reply)) {
        Some(v) => Some(v),
        None => json_of(trim_spec(reply)),
    }
}

/// Decodes a model reply: first with its Markdown fences stripped, then, failing that,
/// as it came (trimmed).
pub fn decode_reply(reply: &str) -> (r: Option<JsonValue>)
    ensures
        r == reply_json(reply@),
{
    let clean = strip_code_fences(reply);
    match parse_json(clean.as_str()) {
        Some(v) => Some(v),
        None => parse_json(trim(reply)),
    }
}

} // verus!
