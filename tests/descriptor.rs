use mini_langchain::json::JsonValue;
use mini_langchain::tools::descriptor::{tool_definition, DescriptorError, FnParam};
use mini_langchain::tools::error::ToolError;
use mini_langchain::tools::registry::ToolRegistry;

type Handler = fn(&JsonValue) -> Result<String, ToolError>;

fn param(name: &str, ty: Option<&str>) -> FnParam {
    FnParam { name: name.to_string(), type_ident: ty.map(|t| t.to_string()) }
}

fn docs(pairs: &[(&str, &str)]) -> Vec<(String, String)> {
    pairs.iter().map(|(k, v)| (k.to_string(), v.to_string())).collect()
}

#[test]
fn weather_function_becomes_a_tool() {
    let d = tool_definition(
        "get_weather",
        Some("get_weather"),
        Some("Get weather for a given city"),
        &docs(&[("city", "City name, e.g. 'San Francisco'")]),
        &vec![param("city", Some("String"))],
    )
    .expect("valid tool");
    assert_eq!(d.schema.name, "get_weather");
    assert_eq!(d.schema.description, "Get weather for a given city");
    assert_eq!(d.schema.args.len(), 1);
    assert_eq!(d.schema.args[0].name, "city");
    assert_eq!(d.schema.args[0].arg_type, "string");
    assert_eq!(d.schema.args[0].description, "City name, e.g. 'San Francisco'");
    assert!(d.schema.args[0].required);
    assert_eq!(d.params_struct, "GetWeatherParams");
    assert_eq!(d.tool_struct, "GetWeatherTool");
}

#[test]
fn tool_name_defaults_to_function_name() {
    let d = tool_definition(
        "add_numbers",
        None,
        Some("Adds"),
        &docs(&[("a", "first"), ("b", "second")]),
        &vec![param("a", Some("i64")), param("b", None)],
    )
    .expect("valid tool");
    assert_eq!(d.schema.name, "add_numbers");
    assert_eq!(d.schema.args[0].arg_type, "integer");
    assert_eq!(d.schema.args[1].arg_type, "object");
    assert_eq!(d.schema.args[1].description, "second");
}

#[test]
fn missing_description_is_refused() {
    let r = tool_definition("f", None, None, &docs(&[("x", "y")]), &vec![param("nope", None)]);
    assert!(matches!(r, Err(DescriptorError::MissingDescription)));
}

#[test]
fn documented_name_must_be_a_parameter() {
    let r = tool_definition("f", None, Some("d"), &docs(&[("x", "ok"), ("ghost", "no"), ("other", "no")]), &vec![param("x", None)]);
    assert!(matches!(r, Err(DescriptorError::UnknownParam(ref n)) if n == "ghost"));
}

#[test]
fn every_parameter_needs_a_description() {
    let r = tool_definition("f", None, Some("d"), &docs(&[("a", "ok"), ("b", "")]), &vec![param("a", None), param("b", None), param("c", None)]);
    assert!(matches!(r, Err(DescriptorError::MissingParamDescription(ref n)) if n == "b"));
    let r = tool_definition("f", None, Some("d"), &docs(&[]), &vec![param("c", None)]);
    assert!(matches!(r, Err(DescriptorError::MissingParamDescription(ref n)) if n == "c"));
}

#[test]
fn first_description_of_a_parameter_wins() {
    let d = tool_definition("f", None, Some("d"), &docs(&[("a", "one"), ("a", "two")]), &vec![param("a", Some("bool"))])
        .expect("valid tool");
    assert_eq!(d.schema.args[0].description, "one");
    assert_eq!(d.schema.args[0].arg_type, "boolean");
}

fn get_weather(args: &JsonValue) -> Result<String, ToolError> {
    match args {
        JsonValue::Object(fields) => match fields.iter().find(|(k, _)| k == "city") {
            Some((_, JsonValue::Str(city))) => Ok(format!("It's always sunny in {}!", city)),
            _ => Err(ToolError::ParamsNotMatched("missing field `city`".to_string())),
        },
        _ => Err(ToolError::ParamsNotMatched("expected an object".to_string())),
    }
}

#[test]
fn proc_macro_generated_tool_runs() {
    let d = tool_definition(
        "get_weather",
        Some("get_weather"),
        Some("Get weather for a given city"),
        &docs(&[("city", "City name, e.g. 'San Francisco'")]),
        &vec![param("city", Some("String"))],
    )
    .expect("valid tool");
    assert_eq!(d.tool_struct, "GetWeatherTool");
    let mut reg: ToolRegistry<Handler> = ToolRegistry::new();
    reg.register(None, d.schema, get_weather as Handler);
    let tool = reg.get("get_weather").expect("registered");
    let args = JsonValue::Object(vec![("city".to_string(), JsonValue::Str("sf".to_string()))]);
    let got = (tool.tool)(&args).expect("tool run failed");
    assert_eq!(got, "It's always sunny in sf!");
}
