use mini_langchain::agent::error::AgentError;
use mini_langchain::agent::run::{AgentAction, AgentRun};
use mini_langchain::agent::types::{Agent, AgentResult};
use mini_langchain::agent::{DEFAULT_MAX_ITERATIONS, TOOL_PROTOCOL_NOTE};
use mini_langchain::json::JsonValue;
use mini_langchain::llm::error::LLMError;
use mini_langchain::llm::ollama::{chat_role, generation_result, ChatRole};
use mini_langchain::llm::tool_calls::extract_tool_calls;
use mini_langchain::llm::{GenerateResult, TokenUsage};
use mini_langchain::message::MessageRole;
use mini_langchain::tools::error::ToolError;
use mini_langchain::tools::schema::{ArgSchema, ToolSchema};

type Handler = fn(&JsonValue) -> Result<String, ToolError>;

fn get_weather(args: &JsonValue) -> Result<String, ToolError> {
    match args {
        JsonValue::Object(fields) => match fields.iter().find(|(k, _)| k == "city") {
            Some((_, JsonValue::Str(city))) => Ok(format!("It's always sunny in {}!", city)),
            _ => Err(ToolError::ParamsNotMatched("missing field `city`".to_string())),
        },
        _ => Err(ToolError::ParamsNotMatched("expected an object".to_string())),
    }
}

fn broken(_args: &JsonValue) -> Result<String, ToolError> {
    Err(ToolError::ExecutionError { name: "broken".to_string(), reason: "disk full".to_string() })
}

fn weather_schema() -> ToolSchema {
    ToolSchema {
        name: "get_weather".to_string(),
        description: "Get weather for a given city".to_string(),
        args: vec![ArgSchema {
            name: "city".to_string(),
            arg_type: "string".to_string(),
            description: "City name, e.g. 'San Francisco'".to_string(),
            required: true,
        }],
    }
}

fn weather_agent(max: Option<usize>) -> Agent<Handler> {
    let mut agent: Agent<Handler> = Agent::new("weather".to_string(), max);
    agent.register_tool(None, weather_schema(), get_weather as Handler);
    agent
}

struct Outcome {
    result: Result<AgentResult, AgentError>,
    run: AgentRun,
    generations: usize,
    invoked: Vec<String>,
}

/// Runs the agent against a model whose k-th turn is `model(k)`.
fn drive(agent: &Agent<Handler>, prompt: &str, model: &dyn Fn(usize) -> GenerateResult) -> Outcome {
    let (mut run, mut action) = agent.start(prompt);
    let mut generations = 0;
    let mut invoked = Vec::new();
    loop {
        action = match action {
            AgentAction::Generate => {
                let res = model(generations);
                generations += 1;
                assert!(run.can_absorb(&res.tokens));
                run.on_generation(agent, Ok(res))
            }
            AgentAction::InvokeTool(call) => {
                let tool = agent.get_tool(&call.name).expect("invoked tools are registered");
                invoked.push(call.name.clone());
                let out = tool(&call.args);
                assert!(run.awaits_tool());
                run.on_tool_result(agent, out)
            }
            AgentAction::Finished(r) => return Outcome { result: Ok(r), run, generations, invoked },
            AgentAction::Failed(e) => return Outcome { result: Err(e), run, generations, invoked },
        };
    }
}

fn turn(text: &str) -> GenerateResult {
    generation_result(text.to_string(), Some((10, 5)))
}

#[test]
fn scenario_weather_tool_then_answer() {
    let agent = weather_agent(None);
    let model = |k: usize| {
        if k == 0 {
            turn("{\"tool_calls\":[{\"name\":\"get_weather\",\"args\":{\"city\":\"Beijing\"}}]}")
        } else {
            turn("The weather in Beijing is sunny.")
        }
    };
    let out = drive(&agent, "What's the weather in Beijing?", &model);
    let r = out.result.expect("run succeeds");
    assert_eq!(r.generation, "The weather in Beijing is sunny.");
    assert_eq!(out.generations, 2);
    assert_eq!(out.invoked, vec!["get_weather".to_string()]);
    assert_eq!(r.tokens, TokenUsage { prompt_tokens: 20, completion_tokens: 10, total_tokens: 30 });
    let msgs = out.run.messages();
    assert_eq!(msgs.len(), 5);
    assert_eq!(msgs[0].role, MessageRole::Developer);
    assert_eq!(msgs[0].content, TOOL_PROTOCOL_NOTE);
    assert_eq!(msgs[1].role, MessageRole::System);
    assert_eq!(msgs[1].content, weather_schema().to_json());
    assert_eq!(msgs[2].role, MessageRole::User);
    assert_eq!(msgs[2].content, "What's the weather in Beijing?");
    assert_eq!(msgs[3].role, MessageRole::Assistant);
    assert_eq!(msgs[4].role, MessageRole::ToolResponce);
    assert_eq!(chat_role(msgs[4].role), ChatRole::Tool);
    assert_eq!(msgs[4].content, "Tool get_weather returned: It's always sunny in Beijing!");
    assert_eq!(msgs[4].name.as_deref(), Some("get_weather"));
    assert_eq!(out.run.iterations(), 2);
}

#[test]
fn scenario_empty_tool_calls_array_is_final() {
    let agent: Agent<Handler> = Agent::new("plain".to_string(), None);
    let text = "{\"tool_calls\":[]}";
    let out = drive(&agent, "hi", &|_| turn(text));
    assert_eq!(out.result.expect("run succeeds").generation, text);
    assert_eq!(out.generations, 1);
}

#[test]
fn scenario_entry_without_name_is_final() {
    let agent = weather_agent(None);
    let text = "{\"tool_calls\":[{\"args\":{\"x\":1}}]}";
    let out = drive(&agent, "hi", &|_| turn(text));
    assert_eq!(out.result.expect("run succeeds").generation, text);
    assert_eq!(out.generations, 1);
    assert!(out.invoked.is_empty());
}

#[test]
fn no_tools_one_generation_success_without_calls() {
    let agent: Agent<Handler> = Agent::new("plain".to_string(), Some(5));
    let out = drive(&agent, "hi", &|_| turn("Hello there."));
    assert_eq!(out.result.expect("run succeeds").generation, "Hello there.");
    assert_eq!(out.generations, 1);
    assert_eq!(out.run.messages().len(), 1);
}

#[test]
fn no_tools_one_generation_failure_with_calls() {
    let agent: Agent<Handler> = Agent::new("plain".to_string(), Some(5));
    let out = drive(&agent, "hi", &|_| turn("{\"tool_calls\":[{\"name\":\"get_weather\"}]}"));
    assert!(matches!(out.result, Err(AgentError::ToolNotFound(ref n)) if n == "get_weather"));
    assert_eq!(out.generations, 1);
}

#[test]
fn iteration_bound_is_reached_after_n_generations() {
    let agent = weather_agent(Some(3));
    let model = |k: usize| turn(&format!("{{\"tool_calls\":[{{\"name\":\"get_weather\",\"args\":{{\"city\":\"City{}\"}}}}]}}", k));
    let out = drive(&agent, "loop", &model);
    assert!(matches!(out.result, Err(AgentError::MaxIterationsExceeded(3))));
    let msgs = out.run.messages();
    assert_eq!(msgs.last().map(|m| m.content.as_str()), Some("Tool get_weather returned: It's always sunny in City2!"));
    assert_eq!(out.generations, 3);
    assert_eq!(out.invoked.len(), 3);
}

#[test]
fn zero_bound_fails_before_any_generation() {
    let agent = weather_agent(Some(0));
    let out = drive(&agent, "loop", &|_| turn("never asked"));
    assert!(matches!(out.result, Err(AgentError::MaxIterationsExceeded(0))));
    assert_eq!(out.generations, 0);
}

#[test]
fn unknown_tool_fails_without_invocation() {
    let agent = weather_agent(None);
    let out = drive(&agent, "hi", &|_| turn("{\"tool_calls\":[{\"name\":\"get_time\"}]}"));
    assert!(matches!(out.result, Err(AgentError::ToolNotFound(ref n)) if n == "get_time"));
    assert_eq!(out.generations, 1);
    assert!(out.invoked.is_empty());
}

#[test]
fn tool_names_match_case_sensitively() {
    let agent = weather_agent(None);
    let out = drive(&agent, "hi", &|_| turn("{\"tool_calls\":[{\"name\":\"Get_Weather\"}]}"));
    assert!(matches!(out.result, Err(AgentError::ToolNotFound(_))));
}

#[test]
fn calls_run_in_order_until_an_unknown_one() {
    let agent = weather_agent(None);
    let text = "{\"tool_calls\":[{\"name\":\"get_weather\",\"args\":{\"city\":\"A\"}},{\"name\":\"nope\"},{\"name\":\"get_weather\",\"args\":{\"city\":\"B\"}}]}";
    let out = drive(&agent, "hi", &|_| turn(text));
    assert!(matches!(out.result, Err(AgentError::ToolNotFound(ref n)) if n == "nope"));
    assert_eq!(out.invoked, vec!["get_weather".to_string()]);
}

#[test]
fn tool_failure_ends_the_run() {
    let mut agent = weather_agent(None);
    agent.register_tool(Some("broken"), weather_schema(), broken as Handler);
    let out = drive(&agent, "hi", &|_| turn("{\"tool_calls\":[{\"name\":\"broken\"}]}"));
    assert!(matches!(
        out.result,
        Err(AgentError::ToolExecutionError(ToolError::ExecutionError { ref reason, .. })) if reason == "disk full"
    ));
}

#[test]
fn parameters_that_do_not_match_fail_the_run() {
    let agent = weather_agent(None);
    let out = drive(&agent, "hi", &|_| turn("{\"tool_calls\":[{\"name\":\"get_weather\"}]}"));
    assert!(matches!(out.result, Err(AgentError::ToolExecutionError(ToolError::ParamsNotMatched(_)))));
}

#[test]
fn model_failure_ends_the_run() {
    let agent = weather_agent(None);
    let (mut run, action) = agent.start("hi");
    assert!(matches!(action, AgentAction::Generate));
    let next = run.on_generation(&agent, Err(LLMError::RateLimitExceeded("slow down".to_string())));
    assert!(matches!(next, AgentAction::Failed(AgentError::LLMExecutionError(LLMError::RateLimitExceeded(_)))));
}

#[test]
fn opening_messages_follow_configuration() {
    let mut agent: Agent<Handler> = Agent::new("a".to_string(), None);
    assert_eq!(agent.max_iterations, DEFAULT_MAX_ITERATIONS);
    assert_eq!(agent.max_iterations, 100);
    assert!(agent.generate_system_prompt().is_empty());
    agent.set_system_prompt("You forecast weather.".to_string());
    let sys = agent.generate_system_prompt();
    assert_eq!(sys.len(), 1);
    assert_eq!(sys[0].role, MessageRole::System);
    assert_eq!(sys[0].content, "You forecast weather.");
    agent.register_tool(None, weather_schema(), get_weather as Handler);
    let sys = agent.generate_system_prompt();
    assert_eq!(sys.len(), 2);
    assert_eq!(sys[1].role, MessageRole::Developer);
    let tools = agent.generate_tools_prompt();
    assert_eq!(tools.len(), 1);
    assert_eq!(tools[0].role, MessageRole::System);
    agent.change_max_iterations(7);
    assert_eq!(agent.max_iterations, 7);
    let (run, _) = agent.start("p");
    assert_eq!(run.messages().len(), 4);
    assert_eq!(run.tokens(), TokenUsage::default());
}

#[test]
fn protocol_note_example_parses_back_as_a_call() {
    let calls = extract_tool_calls(TOOL_PROTOCOL_NOTE);
    assert_eq!(calls.len(), 1);
    assert_eq!(calls[0].name, "tool_name");
    match &calls[0].args {
        JsonValue::Object(f) => assert_eq!(f.len(), 2),
        _ => panic!("args should be an object"),
    }
}

#[test]
fn registering_under_a_given_name_replaces() {
    let mut agent = weather_agent(None);
    agent.register_tool(Some("get_weather"), weather_schema(), broken as Handler);
    assert_eq!(agent.tools.len(), 1);
    let t = agent.get_tool("get_weather").expect("registered");
    assert!(t(&JsonValue::Null).is_err());
    assert!(agent.get_tool("other").is_none());
}

#[test]
fn default_result_is_empty() {
    let r = AgentResult::default();
    assert_eq!(r.generation, "");
    assert_eq!(r.tokens.total_tokens, 0);
}
