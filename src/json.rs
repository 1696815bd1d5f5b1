//! A JSON document as a tree, with typed lookups of an object's fields.
//!
//! Text is read and written by `serde_json`; the tree is what the payload
//! codec works on.
use vstd::prelude::*;
use crate::block_payload::{TextV, opt_view, strings_view};

verus! {

/// serde_json's document type, carried opaquely between the two conversions
/// below.
#[verifier::external_type_specification]
#[verifier::external_body]
pub struct ExSerdeValue(serde_json::Value);

/// A JSON value; a number keeps its literal text.
pub enum JsonValue {
    Null,
    Bool(bool),
    Number(String),
    Str(String),
    Array(Vec<JsonValue>),
    Object(Vec<(String, JsonValue)>),
}

/// The tree that `serde_json` reads from the bytes, if they are UTF-8 JSON.
pub uninterp spec fn parsed_json(b: Seq<u8>) -> Option<JsonValue>;

/// The text that `serde_json` writes for the tree, if every number literal in
/// it is a JSON number.
pub uninterp spec fn written_json(t: JsonValue) -> Option<Seq<u8>>;

/// Moves a serde_json::Value into the tree, variant for variant; a number
/// keeps the text that serde_json::Number displays.
#[verifier::external_body]
fn tree_of_serde(v: serde_json::Value) -> JsonValue {
    match v {
        serde_json::Value::Null => JsonValue::Null,
        serde_json::Value::Bool(b) => JsonValue::Bool(b),
        serde_json::Value::Number(n) => JsonValue::Number(n.to_string()),
        serde_json::Value::String(s) => JsonValue::Str(s),
        serde_json::Value::Array(a) => JsonValue::Array(a.into_iter().map(tree_of_serde).collect()),
        serde_json::Value::Object(m) => JsonValue::Object(
            m.into_iter().map(|(k, x)| (k, tree_of_serde(x))).collect(),
        ),
    }
}

/// Copies the tree into a serde_json::Value, variant for variant; `None` where
/// serde_json::Number does not parse a number literal.
#[verifier::external_body]
fn serde_of_tree(t: &JsonValue) -> Option<serde_json::Value> {
    Some(match t {
        JsonValue::Null => serde_json::Value::Null,
        JsonValue::Bool(b) => serde_json::Value::Bool(*b),
        JsonValue::Number(n) => serde_json::Value::Number(n.parse().ok()?),
        JsonValue::Str(s) => serde_json::Value::String(s.clone()),
        JsonValue::Array(a) => serde_json::Value::Array(a.iter().map(serde_of_tree).collect::<Option<_>>()?),
        JsonValue::Object(o) => serde_json::Value::Object(
            o.iter().map(|(k, x)| Some((k.clone(), serde_of_tree(x)?))).collect::<Option<_>>()?,
        ),
    })
}

/// Relies on serde_json::from_slice into serde_json::Value: it fails on bytes
/// that are not UTF-8 JSON, and its result depends on the bytes alone.
#[verifier::external_body]
pub(crate) fn parse_json(bytes: &[u8]) -> (r: Option<JsonValue>)
    ensures
        r == parsed_json(bytes@),
{
    serde_json::from_slice::<serde_json::Value>(bytes).ok().map(tree_of_serde)
}

/// Relies on serde_json::to_vec of a serde_json::Value: it writes the value as
/// JSON text, and its result depends on the value alone.
#[verifier::external_body]
pub(crate) fn write_json(t: &JsonValue) -> (r: Option<Vec<u8>>)
    ensures
        r matches Some(b) ==> written_json(*t) == Some(b@),
        r is None ==> written_json(*t) is None,
{
    serde_json::to_vec(&serde_of_tree(t)?).ok()
}

/// The value of the last field named `key` (a parsed object holds each key
/// once).
pub open spec fn field_of(fields: Seq<(String, JsonValue)>, key: TextV) -> Option<JsonValue>
    decreases fields.len(),
{
    if fields.len() == 0 {
        None
    } else if fields.last().0@ == key {
        Some(fields.last().1)
    } else {
        field_of(fields.drop_last(), key)
    }
}

/// The field `key` as a string.
pub open spec fn text_field(fields: Seq<(String, JsonValue)>, key: TextV) -> Option<TextV> {
    match field_of(fields, key) {
        Some(JsonValue::Str(s)) => Some(s@),
        _ => None,
    }
}

/// The field `key` as the literal of a number.
pub open spec fn number_field(fields: Seq<(String, JsonValue)>, key: TextV) -> Option<TextV> {
    match field_of(fields, key) {
        Some(JsonValue::Number(s)) => Some(s@),
        _ => None,
    }
}

/// The field `key` as an optional string: absent or null is `Some(None)`.
pub open spec fn opt_text_field(fields: Seq<(String, JsonValue)>, key: TextV) -> Option<Option<TextV>> {
    match field_of(fields, key) {
        None => Some(None),
        Some(JsonValue::Null) => Some(None),
        Some(JsonValue::Str(s)) => Some(Some(s@)),
        _ => None,
    }
}

/// True when every item is a string.
pub open spec fn all_text(items: Seq<JsonValue>) -> bool {
    forall|i: int| 0 <= i < items.len() ==> (#[trigger] items[i]) is Str
}

/// The texts of items that are all strings.
pub open spec fn texts_of(items: Seq<JsonValue>) -> Seq<TextV> {
    items.map_values(|x: JsonValue| x->Str_0@)
}

/// The field `key` as a list of strings.
pub open spec fn text_list_field(fields: Seq<(String, JsonValue)>, key: TextV) -> Option<Seq<TextV>> {
    match field_of(fields, key) {
        Some(JsonValue::Array(a)) => if all_text(a@) {
            Some(texts_of(a@))
        } else {
            None
        },
        _ => None,
    }
}

/// The field `key` as an object.
pub open spec fn object_field(fields: Seq<(String, JsonValue)>, key: TextV) -> Option<Seq<(String, JsonValue)>> {
    match field_of(fields, key) {
        Some(JsonValue::Object(o)) => Some(o@),
        _ => None,
    }
}

/// Looks up the last field named `key`.
pub fn find_field<'a>(fields: &'a Vec<(String, JsonValue)>, key: &str) -> (r: Option<&'a JsonValue>)
    ensures
        r matches Some(v) ==> field_of(fields@, key@) == Some(*v),
        r is None ==> field_of(fields@, key@) is None,
{
    let k = String::from_str(key);
    let mut i: usize = fields.len();
    assert(fields@.subrange(0, fields.len() as int) =~= fields@);
    while i > 0
        invariant
            i <= fields.len(),
            k@ == key@,
            field_of(fields@, key@) == field_of(fields@.subrange(0, i as int), key@),
        decreases i,
    {
        proof {
            let front = fields@.subrange(0, i as int);
            assert(front.drop_last() =~= fields@.subrange(0, i - 1));
        }
        if fields[i - 1].0 == k {
            return Some(&fields[i - 1].1);
        }
        i = i - 1;
    }
    None
}

/// Reads the field `key` as a string.
pub fn get_text(fields: &Vec<(String, JsonValue)>, key: &str) -> (r: Option<String>)
    ensures
        opt_view(r) == text_field(fields@, key@),
{
    match find_field(fields, key) {
        Some(JsonValue::Str(s)) => Some(s.clone()),
        _ => None,
    }
}

/// Reads the field `key` as the literal of a number.
pub fn get_number(fields: &Vec<(String, JsonValue)>, key: &str) -> (r: Option<String>)
    ensures
        opt_view(r) == number_field(fields@, key@),
{
    match find_field(fields, key) {
        Some(JsonValue::Number(s)) => Some(s.clone()),
        _ => None,
    }
}

/// Reads the field `key` as an optional string.
pub fn get_opt_text(fields: &Vec<(String, JsonValue)>, key: &str) -> (r: Option<Option<String>>)
    ensures
        r matches Some(o) ==> opt_text_field(fields@, key@) == Some(opt_view(o)),
        r is None ==> opt_text_field(fields@, key@) is None,
{
    match find_field(fields, key) {
        None => Some(None),
        Some(JsonValue::Null) => Some(None),
        Some(JsonValue::Str(s)) => Some(Some(s.clone())),
        _ => None,
    }
}

/// Reads the field `key` as a list of strings.
pub fn get_text_list(fields: &Vec<(String, JsonValue)>, key: &str) -> (r: Option<Vec<String>>)
    ensures
        r matches Some(v) ==> text_list_field(fields@, key@) == Some(strings_view(v)),
        r is None ==> text_list_field(fields@, key@) is None,
{
    match find_field(fields, key) {
        Some(JsonValue::Array(a)) => {
            let mut out: Vec<String> = Vec::new();
            let mut i: usize = 0;
            while i < a.len()
                invariant
                    i <= a.len(),
                    out.len() == i,
                    field_of(fields@, key@) == Some(JsonValue::Array(*a)),
                    forall|j: int| 0 <= j < i ==> (#[trigger] a@[j]) is Str,
                    forall|j: int| 0 <= j < i ==> (#[trigger] out@[j])@ == a@[j]->Str_0@,
                decreases a.len() - i,
            {
                match &a[i] {
                    JsonValue::Str(s) => {
                        out.push(s.clone());
                    },
                    _ => {
                        assert(!(a@[i as int] is Str));
                        assert(!all_text(a@));
                        return None;
                    },
                }
                i = i + 1;
            }
            assert(strings_view(out) =~= texts_of(a@));
            Some(out)
        },
        _ => None,
    }
}

/// Reads the field `key` as an object.
pub fn get_object<'a>(fields: &'a Vec<(String, JsonValue)>, key: &str) -> (r: Option<&'a Vec<(String, JsonValue)>>)
    ensures
        r matches Some(o) ==> object_field(fields@, key@) == Some(o@),
        r is None ==> object_field(fields@, key@) is None,
{
    match find_field(fields, key) {
        Some(JsonValue::Object(o)) => Some(o),
        _ => None,
    }
}

} // verus!
