use mini_langchain::json::JsonValue;
use mini_langchain::llm::tool_calls::{calls_in_document, entry_to_call, extract_tool_calls, first_index_of, json_span, last_index_of};
use mini_langchain::llm::CallInfo;

fn field<'a>(v: &'a JsonValue, key: &str) -> Option<&'a JsonValue> {
    match v {
        JsonValue::Object(fields) => fields.iter().find(|(k, _)| k == key).map(|(_, x)| x),
        _ => None,
    }
}

fn is_empty_object(v: &JsonValue) -> bool {
    matches!(v, JsonValue::Object(f) if f.is_empty())
}

fn str_field(c: &CallInfo, key: &str) -> Option<String> {
    match field(&c.args, key) {
        Some(JsonValue::Str(s)) => Some(s.clone()),
        _ => None,
    }
}

#[test]
fn plain_prose_has_no_calls() {
    assert!(extract_tool_calls("The weather in Beijing is sunny.").is_empty());
}

#[test]
fn malformed_json_has_no_calls() {
    assert!(extract_tool_calls("{\"tool_calls\": [ {\"name\": \"x\" ").is_empty());
    assert!(extract_tool_calls("here: {not json at all}").is_empty());
}

#[test]
fn json_without_tool_calls_key_has_no_calls() {
    assert!(extract_tool_calls("{\"answer\": 42}").is_empty());
    assert!(extract_tool_calls("[1, 2, 3]").is_empty());
    assert!(extract_tool_calls("{\"tool_calls\": \"get_weather\"}").is_empty());
}

#[test]
fn single_named_entry_gives_one_call() {
    let calls = extract_tool_calls("{\"tool_calls\":[{\"name\":\"get_weather\",\"args\":{\"city\":\"Beijing\"}}]}");
    assert_eq!(calls.len(), 1);
    assert_eq!(calls[0].name, "get_weather");
    assert_eq!(str_field(&calls[0], "city"), Some("Beijing".to_string()));
}

#[test]
fn missing_args_default_to_empty_object() {
    let calls = extract_tool_calls("{\"tool_calls\":[{\"name\":\"now\"}]}");
    assert_eq!(calls.len(), 1);
    assert_eq!(calls[0].name, "now");
    assert!(is_empty_object(&calls[0].args));
}

#[test]
fn non_object_args_default_to_empty_object() {
    let calls = extract_tool_calls("{\"tool_calls\":[{\"name\":\"now\",\"args\":\"soon\"}]}");
    assert_eq!(calls.len(), 1);
    assert!(is_empty_object(&calls[0].args));
}

#[test]
fn empty_tool_calls_array_has_no_calls() {
    assert!(extract_tool_calls("{\"tool_calls\":[]}").is_empty());
}

#[test]
fn entry_without_name_is_dropped() {
    assert!(extract_tool_calls("{\"tool_calls\":[{\"args\":{\"x\":1}}]}").is_empty());
}

#[test]
fn unusable_entries_are_skipped_and_order_kept() {
    let text = "{\"tool_calls\":[{\"name\":\"a\"},7,{\"name\":3},{\"args\":{}},{\"name\":\"b\",\"args\":{\"n\":2}}]}";
    let calls = extract_tool_calls(text);
    assert_eq!(calls.len(), 2);
    assert_eq!(calls[0].name, "a");
    assert_eq!(calls[1].name, "b");
    match field(&calls[1].args, "n") {
        Some(JsonValue::Number(n)) => assert_eq!(n, "2"),
        _ => panic!("argument n missing"),
    }
}

#[test]
fn json_wrapped_in_prose_is_recovered() {
    let text = "Sure, I will check. {\"tool_calls\":[{\"name\":\"get_weather\",\"args\":{\"city\":\"Paris\"}}]} Done.";
    let calls = extract_tool_calls(text);
    assert_eq!(calls.len(), 1);
    assert_eq!(calls[0].name, "get_weather");
    assert_eq!(str_field(&calls[0], "city"), Some("Paris".to_string()));
}

#[test]
fn two_unrelated_objects_defeat_recovery() {
    let text = "{\"a\":1} and {\"tool_calls\":[{\"name\":\"x\"}]}";
    assert!(extract_tool_calls(text).is_empty());
}

#[test]
fn braces_out_of_order_give_no_span() {
    assert_eq!(json_span("} then {"), None);
    assert!(extract_tool_calls("} then {").is_empty());
}

#[test]
fn span_runs_from_first_open_to_last_close() {
    assert_eq!(json_span("ab{c}d}e"), Some("{c}d}"));
    assert_eq!(json_span("no braces"), None);
    assert_eq!(first_index_of("x{y{", '{'), Some(1));
    assert_eq!(last_index_of("}x}y", '}'), Some(2));
    assert_eq!(first_index_of("é{", '{'), Some(1));
}

#[test]
fn document_without_array_gives_no_calls() {
    let doc = JsonValue::Object(vec![("tool_calls".to_string(), JsonValue::Null)]);
    assert!(calls_in_document(doc).is_empty());
    assert!(calls_in_document(JsonValue::Bool(true)).is_empty());
}

#[test]
fn entry_with_name_and_args_becomes_call() {
    let e = JsonValue::Object(vec![
        ("args".to_string(), JsonValue::Object(vec![("q".to_string(), JsonValue::Str("v".to_string()))])),
        ("name".to_string(), JsonValue::Str("search".to_string())),
    ]);
    let c = entry_to_call(e).expect("entry names a tool");
    assert_eq!(c.name, "search");
    assert_eq!(str_field(&c, "q"), Some("v".to_string()));
    assert!(entry_to_call(JsonValue::Str("search".to_string())).is_none());
}
