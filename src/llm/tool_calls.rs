//! Finding tool-call requests in a model's raw text.
//!
//! The text is read as JSON, or failing that, the span from its first `{` to its
//! last `}` is. A document `{"tool_calls": [{"name": ..., "args": {...}}, ...]}`
//! yields one call per entry that has a string `name`; other entries are dropped.

use vstd::prelude::*;
use crate::json::{JsonValue, json_parse, parse_json, json_field, lemma_field_index_bounds};
use crate::llm::CallInfo;

verus! {

/// The name and, where it is an object, the arguments of one `tool_calls` entry.
pub open spec fn entry_call(e: JsonValue) -> Option<(Seq<char>, Option<JsonValue>)> {
    match e {
        JsonValue::Object(fields) => match json_field(fields@, "name"@) {
            Some(JsonValue::Str(n)) => Some(
                (
                    n@,
                    match json_field(fields@, "args"@) {
                        Some(JsonValue::Object(a)) => Some(JsonValue::Object(a)),
                        _ => None,
                    },
                ),
            ),
            _ => None,
        },
        _ => None,
    }
}

/// The calls of a `tool_calls` array, in order, skipping unusable entries.
pub open spec fn calls_in_entries(entries: Seq<JsonValue>) -> Seq<(Seq<char>, Option<JsonValue>)>
    decreases entries.len(),
{
    if entries.len() == 0 {
        seq![]
    } else {
        let rest = calls_in_entries(entries.drop_last());
        match entry_call(entries.last()) {
            Some(c) => rest.push(c),
            None => rest,
        }
    }
}

/// The entries of the document's `tool_calls` array, where it is an object that has one.
pub open spec fn tool_call_entries(doc: JsonValue) -> Option<Seq<JsonValue>> {
    match doc {
        JsonValue::Object(fields) => match json_field(fields@, "tool_calls"@) {
            Some(JsonValue::Array(a)) => Some(a@),
            _ => None,
        },
        _ => None,
    }
}

pub open spec fn calls_in(doc: JsonValue) -> Seq<(Seq<char>, Option<JsonValue>)> {
    match tool_call_entries(doc) {
        Some(entries) => calls_in_entries(entries),
        None => seq![],
    }
}

/// A call agrees with its description: same name, and the arguments found or `{}`.
pub open spec fn call_agrees(c: CallInfo, want: (Seq<char>, Option<JsonValue>)) -> bool {
    &&& c.name@ == want.0
    &&& match want.1 {
        Some(a) => c.args == a,
        None => c.args matches JsonValue::Object(f) && f@.len() == 0,
    }
}

pub open spec fn calls_agree(cs: Seq<CallInfo>, want: Seq<(Seq<char>, Option<JsonValue>)>) -> bool {
    &&& cs.len() == want.len()
    &&& forall|i: int| 0 <= i < cs.len() ==> call_agrees(#[trigger] cs[i], want[i])
}

pub open spec fn is_first(s: Seq<char>, c: char, i: int) -> bool {
    &&& 0 <= i < s.len()
    &&& s[i] == c
    &&& forall|j: int| 0 <= j < i ==> s[j] != c
}

pub open spec fn is_last(s: Seq<char>, c: char, i: int) -> bool {
    &&& 0 <= i < s.len()
    &&& s[i] == c
    &&& forall|j: int| i < j < s.len() ==> s[j] != c
}

/// The text from its first `{` to its last `}`, both included, where that is a span.
pub open spec fn braced_span(s: Seq<char>) -> Option<Seq<char>> {
    if exists|a: int, b: int| is_first(s, '{', a) && is_last(s, '}', b) && a <= b {
        let (a, b) = choose|a: int, b: int| is_first(s, '{', a) && is_last(s, '}', b) && a <= b;
        Some(s.subrange(a, b + 1))
    } else {
        None
    }
}

/// The JSON document that a model's text holds: the whole text, or its braced span.
pub open spec fn recovered_document(text: Seq<char>) -> Option<JsonValue> {
    match json_parse(text) {
        Some(d) => Some(d),
        None => match braced_span(text) {
            Some(t) => json_parse(t),
            None => None,
        },
    }
}

/// The tool calls that a model's text requests.
pub open spec fn extracted_calls(text: Seq<char>) -> Seq<(Seq<char>, Option<JsonValue>)> {
    match recovered_document(text) {
        Some(d) => calls_in(d),
        None => seq![],
    }
}

/// The call described by one `tool_calls` entry, if it names a tool.
pub fn entry_to_call(e: JsonValue) -> (r: Option<CallInfo>)
    ensures
        match entry_call(e) {
            Some(w) => r matches Some(c) && call_agrees(c, w),
            None => r is None,
        },
{
    match e {
        JsonValue::Object(mut fields) => {
            let ghost fs = fields@;
            match JsonValue::find_field(&fields, "name") {
                Some(i) => {
                    proof { lemma_field_index_bounds(fs, "name"@); }
                    let name = match &fields[i].1 {
                        JsonValue::Str(s) => s.clone(),
                        _ => {
                            return None;
                        },
                    };
                    let args = match JsonValue::find_field(&fields, "args") {
                        Some(j) => {
                            proof { lemma_field_index_bounds(fs, "args"@); }
                            let (_, a) = fields.remove(j);
                            match a {
                                JsonValue::Object(f) => JsonValue::Object(f),
                                _ => JsonValue::Object(Vec::new()),
                            }
                        },
                        None => JsonValue::Object(Vec::new()),
                    };
                    Some(CallInfo { name, args })
                },
                None => None,
            }
        },
        _ => None,
    }
}

/// The calls requested by an already parsed document.
pub fn calls_in_document(doc: JsonValue) -> (r: Vec<CallInfo>)
    ensures
        calls_agree(r@, calls_in(doc)),
{
    let mut fields = match doc {
        JsonValue::Object(fields) => fields,
        _ => {
            return Vec::new();
        },
    };
    let ghost fs = fields@;
    let i = match JsonValue::find_field(&fields, "tool_calls") {
        Some(i) => i,
        None => {
            return Vec::new();
        },
    };
    proof { lemma_field_index_bounds(fs, "tool_calls"@); }
    let (_, v) = fields.remove(i);
    let mut entries = match v {
        JsonValue::Array(a) => a,
        _ => {
            return Vec::new();
        },
    };
    let ghost all = entries@;
    let n = entries.len();
    let mut out: Vec<CallInfo> = Vec::new();
    let mut k: usize = 0;
    assert(all.take(0) =~= seq![]);
    while entries.len() > 0
        invariant
            k <= all.len(),
            all.len() == n,
            entries@ == all.skip(k as int),
            calls_agree(out@, calls_in_entries(all.take(k as int))),
        decreases entries.len(),
    {
        assert(entries@.len() == all.len() - k);
        let e = entries.remove(0);
        proof {
            assert(all.take(k + 1).drop_last() =~= all.take(k as int));
            assert(all.take(k + 1).last() == e);
        }
        let ghost before = out@;
        match entry_to_call(e) {
            Some(c) => {
                out.push(c);
                assert(forall|x: int| 0 <= x < before.len() ==> out@[x] == before[x]);
            },
            None => {},
        }
        k = k + 1;
    }
    assert(all.take(k as int) =~= all);
    out
}

proof fn lemma_first_unique(s: Seq<char>, c: char, a: int, b: int)
    requires
        is_first(s, c, a),
        is_first(s, c, b),
    ensures
        a == b,
{
    if a < b {
        assert(s[a] != c);
    }
    if b < a {
        assert(s[b] != c);
    }
}

proof fn lemma_last_unique(s: Seq<char>, c: char, a: int, b: int)
    requires
        is_last(s, c, a),
        is_last(s, c, b),
    ensures
        a == b,
{
    if a < b {
        assert(s[b] != c);
    }
    if b < a {
        assert(s[a] != c);
    }
}

/// The position of the first `c` in `text`, counted in characters.
pub fn first_index_of(text: &str, c: char) -> (r: Option<usize>)
    ensures
        match r {
            Some(i) => is_first(text@, c, i as int),
            None => forall|j: int| 0 <= j < text@.len() ==> text@[j] != c,
        },
{
    let n = text.unicode_len();
    let mut i: usize = 0;
    while i < n
        invariant
            n == text@.len(),
            i <= n,
            forall|j: int| 0 <= j < i ==> text@[j] != c,
        decreases n - i,
    {
        if text.get_char(i) == c {
            return Some(i);
        }
        i = i + 1;
    }
    None
}

/// The position of the last `c` in `text`, counted in characters.
pub fn last_index_of(text: &str, c: char) -> (r: Option<usize>)
    ensures
        match r {
            Some(i) => is_last(text@, c, i as int) && i < usize::MAX,
            None => forall|j: int| 0 <= j < text@.len() ==> text@[j] != c,
        },
{
    let n = text.unicode_len();
    let mut i: usize = n;
    while i > 0
        invariant
            n == text@.len(),
            i <= n,
            forall|j: int| i <= j < n ==> text@[j] != c,
        decreases i,
    {
        if text.get_char(i - 1) == c {
            return Some(i - 1);
        }
        i = i - 1;
    }
    None
}

/// The span from the first `{` to the last `}` of `text`, where the one comes before the other.
pub fn json_span(text: &str) -> (r: Option<&str>)
    ensures
        match r {
            Some(t) => braced_span(text@) == Some(t@),
            None => braced_span(text@) is None,
        },
{
    let s = Ghost(text@);
    let first = first_index_of(text, '{');
    let last = last_index_of(text, '}');
    match (first, last) {
        (Some(a), Some(b)) => {
            if a <= b {
                let t = text.substring_char(a, b + 1);
                proof {
                    assert(is_first(s@, '{', a as int) && is_last(s@, '}', b as int) && a <= b);
                    let (x, y) = choose|x: int, y: int|
                        is_first(s@, '{', x) && is_last(s@, '}', y) && x <= y;
                    lemma_first_unique(s@, '{', x, a as int);
                    lemma_last_unique(s@, '}', y, b as int);
                }
                Some(t)
            } else {
                proof {
                    assert forall|x: int, y: int|
                        is_first(s@, '{', x) && is_last(s@, '}', y) implies !(x <= y) by {
                        lemma_first_unique(s@, '{', x, a as int);
                        lemma_last_unique(s@, '}', y, b as int);
                    }
                }
                None
            }
        },
        _ => None,
    }
}

/// The tool calls requested in a model's raw text. Text that holds no such request
/// yields none: this never fails.
pub fn extract_tool_calls(text: &str) -> (r: Vec<CallInfo>)
    ensures
        calls_agree(r@, extracted_calls(text@)),
{
    let doc = match parse_json(text) {
        Some(d) => Some(d),
        None => match json_span(text) {
            Some(t) => parse_json(t),
            None => None,
        },
    };
    match doc {
        Some(d) => calls_in_document(d),
        None => Vec::new(),
    }
}

/// Text that holds no JSON object with a `tool_calls` array, whether plain prose,
/// malformed JSON or JSON without that key, yields no tool calls.
pub proof fn lemma_no_tool_calls_array(text: Seq<char>)
    requires
        match recovered_document(text) {
            Some(d) => tool_call_entries(d) is None,
            None => true,
        },
    ensures
        extracted_calls(text) == Seq::<(Seq<char>, Option<JsonValue>)>::empty(),
{
}

/// A `tool_calls` array of one entry with a string `name` yields exactly one call, with
/// that name and with the entry's `args` object (an empty object where it has none).
pub proof fn lemma_single_named_entry(text: Seq<char>, e: JsonValue, name: Seq<char>)
    requires
        recovered_document(text) matches Some(d) && tool_call_entries(d) == Some(seq![e]),
        e matches JsonValue::Object(fields) && json_field(fields@, "name"@) matches Some(
            JsonValue::Str(n),
        ) && n@ == name,
    ensures
        extracted_calls(text).len() == 1,
        extracted_calls(text)[0].0 == name,
        extracted_calls(text)[0].1 == match e {
            JsonValue::Object(fields) => match json_field(fields@, "args"@) {
                Some(JsonValue::Object(a)) => Some(JsonValue::Object(a)),
                _ => None,
            },
            _ => None,
        },
{
    assert(seq![e].drop_last() =~= Seq::<JsonValue>::empty());
    assert(calls_in_entries(Seq::<JsonValue>::empty()) == Seq::<(Seq<char>, Option<JsonValue>)>::empty());
}

} // verus!
