//! JSON documents as plain values, parsed by serde_json.

use vstd::prelude::*;

verus! {

/// A JSON document. Numbers keep their textual form; objects keep their fields in order.
#[derive(Debug)]
pub enum JsonValue {
    Null,
    Bool(bool),
    Number(String),
    Str(String),
    Array(Vec<JsonValue>),
    Object(Vec<(String, JsonValue)>),
}

/// serde_json's document tree, carried opaquely into the conversion below.
#[verifier::external_type_specification]
#[verifier::external_body]
pub struct ExJsonDocument(serde_json::Value);

/// What serde_json reads from `text`, or `None` where `text` is not one JSON document.
pub uninterp spec fn json_parse(text: Seq<char>) -> Option<JsonValue>;

/// Relies on serde_json::from_str into serde_json::Value: it succeeds exactly on a
/// JSON document, and the document it yields depends on the text alone.
#[verifier::external_body]
pub(crate) fn parse_json(text: &str) -> (r: Option<JsonValue>)
    ensures
        r == json_parse(text@),
{
    match serde_json::from_str::<serde_json::Value>(text) {
        Ok(v) => Some(JsonValue::from_serde(v)),
        Err(_) => None,
    }
}

/// The index of the first field named `key`.
pub open spec fn field_index(fields: Seq<(String, JsonValue)>, key: Seq<char>) -> Option<int>
    decreases fields.len(),
{
    if fields.len() == 0 {
        None
    } else if fields[0].0@ == key {
        Some(0)
    } else {
        match field_index(fields.skip(1), key) {
            Some(i) => Some(i + 1),
            None => None,
        }
    }
}

/// The value of the first field named `key`.
pub open spec fn json_field(fields: Seq<(String, JsonValue)>, key: Seq<char>) -> Option<JsonValue> {
    match field_index(fields, key) {
        Some(i) => Some(fields[i].1),
        None => None,
    }
}

pub proof fn lemma_field_index_bounds(fields: Seq<(String, JsonValue)>, key: Seq<char>)
    ensures
        field_index(fields, key) matches Some(i) ==> 0 <= i < fields.len() && fields[i].0@ == key
            && forall|j: int| 0 <= j < i ==> fields[j].0@ != key,
        field_index(fields, key) is None ==> forall|j: int|
            0 <= j < fields.len() ==> fields[j].0@ != key,
    decreases fields.len(),
{
    if fields.len() > 0 {
        lemma_field_index_bounds(fields.skip(1), key);
        if fields[0].0@ != key {
            assert forall|j: int| 1 <= j < fields.len() implies fields[j] == fields.skip(1)[j - 1] by {}
        }
    }
}

impl JsonValue {
    /// Converts serde_json's tree into this type, one node for one node.
    #[verifier::external_body]
    fn from_serde(v: serde_json::Value) -> JsonValue {
        match v {
            serde_json::Value::Null => JsonValue::Null,
            serde_json::Value::Bool(b) => JsonValue::Bool(b),
            serde_json::Value::Number(n) => JsonValue::Number(n.to_string()),
            serde_json::Value::String(s) => JsonValue::Str(s),
            serde_json::Value::Array(a) => JsonValue::Array(a.into_iter().map(JsonValue::from_serde).collect()),
            serde_json::Value::Object(o) => JsonValue::Object(o.into_iter().map(|(k, x)| (k, JsonValue::from_serde(x))).collect()),
        }
    }

    /// Finds the first field named `key` in an object's fields.
    pub fn find_field(fields: &Vec<(String, JsonValue)>, key: &str) -> (r: Option<usize>)
        ensures
            match r {
                Some(i) => field_index(fields@, key@) == Some(i as int),
                None => field_index(fields@, key@) is None,
            },
    {
        let k = String::from_str(key);
        let mut i: usize = 0;
        proof { lemma_field_index_bounds(fields@, key@); }
        while i < fields.len()
            invariant
                0 <= i <= fields.len(),
                k@ == key@,
                forall|j: int| 0 <= j < i ==> fields@[j].0@ != key@,
                field_index(fields@, key@) matches Some(x) ==> 0 <= x < fields@.len() && fields@[x].0@ == key@
                    && forall|j: int| 0 <= j < x ==> fields@[j].0@ != key@,
                field_index(fields@, key@) is None ==> forall|j: int| 0 <= j < fields@.len() ==> fields@[j].0@ != key@,
            decreases fields.len() - i,
        {
            if fields[i].0 == k {
                return Some(i);
            }
            i = i + 1;
        }
        None
    }
}

} // verus!
