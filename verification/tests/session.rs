use serde_json::Value;
use workflow_executor::context::{ValueMap, WorkflowContext};
use workflow_executor::error::WorkflowError;
use workflow_executor::protocol::{Action, Event, ModelReply};
use workflow_executor::session::{tools_action, Session};
use workflow_executor::tool_calls::FinalRequest;
use workflow_executor::workflow::{NodeType, Workflow, WorkflowNode};

fn json(text: &str) -> Value {
    serde_json::from_str(text).unwrap()
}

fn node(id: &str, name: &str, node_type: NodeType) -> (String, WorkflowNode) {
    let mut config = ValueMap::new();
    config.insert("tools".to_string(), json(r#"["add"]"#));
    config.insert("temperature".to_string(), json("0.25"));
    let node = WorkflowNode { id: id.to_string(), name: name.to_string(), node_type, config };
    (id.to_string(), node)
}

fn workflow() -> Workflow {
    Workflow {
        nodes: vec![
            node("id-1", "first", NodeType::Agent),
            node("id-2", "second", NodeType::Other),
            node("id-3", "third", NodeType::Agent),
        ],
    }
}

const ASKING: &str = r#"{
    "type": "tool_calls_required",
    "tool_calls": [{"name": "add", "parameters": {"a": "<A>"}}, {"name": "add", "parameters": {"a": "<B>"}}],
    "original_prompt": "Sum up.",
    "initial_tokens_used": 60,
    "max_tokens_configured": 100
}"#;

const RESULTS: &str =
    r#"[{"tool_name": "add", "success": true, "output": "3", "latency_ms": 5}]"#;

fn context(outputs: &[(&str, &str)]) -> WorkflowContext {
    let mut context = WorkflowContext::new();
    for (key, value) in outputs {
        context.set_node_output(key, json(value));
    }
    context
}

fn configured(outputs: &[(&str, &str)]) -> WorkflowContext {
    let mut context = context(outputs);
    context.set_metadata("llm_config".to_string(), json(r#"{"model": "m"}"#));
    context
}

fn run_tools(action: Action) -> (String, Vec<String>) {
    match action {
        Action::RunTools { calls, tools } => (calls, tools),
        _ => panic!("the tools are not run"),
    }
}

fn ask_model(action: Action) -> (Value, FinalRequest) {
    match action {
        Action::AskModel { llm_config, request } => (llm_config, request),
        _ => panic!("the model is not asked"),
    }
}

fn parameters(action: Action) -> Value {
    match action {
        Action::DecodeParameters(parameters) => parameters,
        _ => panic!("no parameters are decoded"),
    }
}

fn failure(action: Action) -> String {
    match action {
        Action::Fail(WorkflowError::WorkflowExecution(message)) => message,
        _ => panic!("no failure"),
    }
}

fn completed(content: &str, response: Option<&str>) -> Event {
    Event::ModelAnswered(ModelReply::Completed {
        content: content.to_string(),
        response: response.map(json),
    })
}

#[test]
fn nothing_pending_finishes_at_once() {
    let start = configured(&[("id-1", r#""done""#), ("unknown", ASKING)]);
    let (session, action) = Session::begin(start, workflow(), true);
    assert!(matches!(action, Action::Finish));
    let context = session.into_context();
    assert_eq!(context.node_outputs.get("id-1"), Some(&json(r#""done""#)));
    assert_eq!(context.node_outputs.len(), 2);
}

#[test]
fn a_session_without_guardrail() {
    let mut start = configured(&[("id-1", ASKING)]);
    start.set_metadata(
        "node_response_id-1".to_string(),
        json(r#"{"prompt": "Sum up.", "content": "", "duration_ms": 8}"#),
    );
    let (session, action) = Session::begin(start, workflow(), false);
    let (calls, tools) = run_tools(action);
    assert_eq!(
        calls,
        r#"[{"parameters":{"a":"<A>"},"tool_name":"add"},{"parameters":{"a":"<B>"},"tool_name":"add"}]"#
    );
    assert_eq!(tools, vec!["add".to_string()]);

    let (session, action) = session.advance(Event::ToolsRan(Ok(RESULTS.to_string())));
    let (llm_config, request) = ask_model(action);
    let prompt = "Sum up.\n\nTool execution results:\nadd: 3\n\nPlease provide a comprehensive \
                  response based on the tool results.";
    assert_eq!(llm_config, json(r#"{"model": "m"}"#));
    assert_eq!(request.prompt, prompt);
    assert_eq!(request.max_tokens, Some(40));
    assert_eq!(request.temperature, Some(json("0.25")));
    assert_eq!(request.top_p, None);

    let (session, action) = session.advance(completed("It is 3.", Some(r#"{"content": "It is 3."}"#)));
    assert!(matches!(action, Action::Finish));
    let context = session.into_context();
    let answer = json(r#""It is 3.""#);
    assert_eq!(context.node_outputs.get("id-1"), Some(&answer));
    assert_eq!(context.node_outputs.get("first"), Some(&answer));
    assert_eq!(context.variables.get("first"), Some(&answer));
    assert_eq!(context.variables.get("id-1"), Some(&answer));
    let mut record = serde_json::Map::new();
    record.insert("content".to_string(), answer);
    record.insert("prompt".to_string(), json(r#""Sum up.""#));
    record.insert("duration_ms".to_string(), json("8"));
    record.insert(
        "tool_calls".to_string(),
        json(
            r#"[{"name": "add", "parameters": {"a": "<A>"}, "latency_ms": 5,
                 "output": {"success": true, "output": "3"}},
                {"name": "add", "parameters": {"a": "<B>"}}]"#,
        ),
    );
    record.insert("initial_response".to_string(), json(r#"{"prompt": "Sum up."}"#));
    record.insert("final_input".to_string(), Value::String(prompt.to_string()));
    let record = Value::Object(record);
    assert_eq!(context.metadata.get("node_response_id-1"), Some(&record));
    assert_eq!(context.metadata.get("node_response_first"), Some(&record));
    assert_eq!(context.metadata.get("llm_config"), Some(&json(r#"{"model": "m"}"#)));
}

#[test]
fn a_session_with_guardrail() {
    let (session, action) = Session::begin(configured(&[("id-1", ASKING)]), workflow(), true);
    assert_eq!(parameters(action), json(r#"{"a": "<A>"}"#));
    let (session, action) = session.advance(Event::ParametersDecoded(json(r#"{"a": "Ann"}"#)));
    assert_eq!(parameters(action), json(r#"{"a": "<B>"}"#));
    let (session, action) = session.advance(Event::ParametersDecoded(json(r#"{"a": "Bob"}"#)));
    assert_eq!(
        run_tools(action).0,
        r#"[{"parameters":{"a":"Ann"},"tool_name":"add"},{"parameters":{"a":"Bob"},"tool_name":"add"}]"#
    );
    let (session, action) = session.advance(Event::ToolsRan(Ok(RESULTS.to_string())));
    match action {
        Action::EncodePrompt(prompt) => {
            assert!(prompt.starts_with("Sum up.\n\nTool execution results:\nadd: 3\n\n"))
        }
        _ => panic!("the prompt is not encoded"),
    }
    let (session, action) = session.advance(Event::PromptEncoded {
        signature: "[sig]".to_string(),
        payload: json(r#""coded""#),
    });
    assert_eq!(ask_model(action).1.prompt, "[sig]coded");
    let (session, action) = session.advance(completed("<A> wins", None));
    match action {
        Action::DecodeAnswer(payload) => assert_eq!(payload, json(r#"{"content": "<A> wins"}"#)),
        _ => panic!("the answer is not decoded"),
    }
    let (session, action) =
        session.advance(Event::AnswerDecoded(json(r#"{"content": "Ann wins"}"#)));
    assert!(matches!(action, Action::Finish));
    let context = session.into_context();
    assert_eq!(context.node_outputs.get("id-1"), Some(&json(r#""Ann wins""#)));
    assert_eq!(context.metadata.get("node_response_id-1"), None);
}

#[test]
fn no_calls_need_no_decoding() {
    let output = r#"{"type": "tool_calls_required", "tool_calls": [], "original_prompt": "p"}"#;
    let (_, action) = Session::begin(configured(&[("id-1", output)]), workflow(), true);
    assert_eq!(run_tools(action).0, "[]");
}

#[test]
fn failing_tools_end_the_session() {
    let (session, _) = Session::begin(configured(&[("id-1", ASKING)]), workflow(), false);
    let (session, action) = session.advance(Event::ToolsRan(Err("no python".to_string())));
    assert_eq!(failure(action), "Failed to execute tools: no python");
    assert_eq!(session.into_context().node_outputs.get("id-1"), Some(&json(ASKING)));
}

#[test]
fn calls_that_do_not_print_fail() {
    let action = tools_action(Err("too deep".to_string()), vec![]);
    assert_eq!(failure(action), "Failed to serialize tool calls: too deep");
    let action = tools_action(Ok("[]".to_string()), vec!["add".to_string()]);
    assert_eq!(run_tools(action), ("[]".to_string(), vec!["add".to_string()]));
}

#[test]
fn without_configuration_the_summary_is_kept() {
    let (session, _) = Session::begin(context(&[("id-1", ASKING)]), workflow(), false);
    let (session, action) = session.advance(Event::ToolsRan(Ok(RESULTS.to_string())));
    assert!(matches!(action, Action::Finish));
    let context = session.into_context();
    assert_eq!(context.node_outputs.get("id-1"), Some(&json(r#""add: 3""#)));
    assert_eq!(context.node_outputs.get("first"), None);
    assert_eq!(context.variables.len(), 0);
}

#[test]
fn without_an_answer_the_summary_is_kept() {
    let replies = [
        ModelReply::ConfigRejected,
        ModelReply::ProviderUnavailable,
        ModelReply::CompletionFailed,
    ];
    for reply in replies {
        let (session, _) = Session::begin(configured(&[("id-1", ASKING)]), workflow(), false);
        let (session, _) = session.advance(Event::ToolsRan(Ok("nothing".to_string())));
        let (session, action) = session.advance(Event::ModelAnswered(reply));
        assert!(matches!(action, Action::Finish));
        assert_eq!(
            session.into_context().node_outputs.get("id-1"),
            Some(&json(r#""No tool results available""#))
        );
    }
}

#[test]
fn nodes_that_are_no_agents_keep_their_output() {
    let (session, _) = Session::begin(configured(&[("id-2", ASKING)]), workflow(), false);
    let (session, action) = session.advance(Event::ToolsRan(Ok(RESULTS.to_string())));
    assert!(matches!(action, Action::Finish));
    assert_eq!(session.into_context().node_outputs.get("id-2"), Some(&json(ASKING)));
}

#[test]
fn prompts_are_encoded_for_every_node() {
    let output = r#"{"type": "tool_calls_required", "tool_calls": [], "original_prompt": "p"}"#;
    let (session, _) = Session::begin(configured(&[("id-2", output)]), workflow(), true);
    let (session, action) = session.advance(Event::ToolsRan(Ok("[]".to_string())));
    assert!(matches!(action, Action::EncodePrompt(_)));
    let (_, action) = session.advance(Event::PromptEncoded {
        signature: String::new(),
        payload: json("null"),
    });
    assert!(matches!(action, Action::Finish));
}

#[test]
fn outputs_are_taken_up_one_after_the_other_as_they_were() {
    let start = configured(&[("id-1", ASKING), ("x", "1"), ("id-3", ASKING)]);
    let (session, _) = Session::begin(start, workflow(), false);
    let (session, _) = session.advance(Event::ToolsRan(Ok("[]".to_string())));
    let (session, action) = session.advance(completed("one", None));
    run_tools(action);
    let (session, action) = session.advance_with_results(vec![]);
    assert_eq!(ask_model(action).0, json(r#"{"model": "m"}"#));
    let (session, action) = session.advance(completed("three", None));
    assert!(matches!(action, Action::Finish));
    let context = session.into_context();
    assert_eq!(context.node_outputs.get("id-1"), Some(&json(r#""one""#)));
    assert_eq!(context.node_outputs.get("third"), Some(&json(r#""three""#)));
    assert_eq!(context.node_outputs.get("x"), Some(&json("1")));
    assert_eq!(context.node_outputs.len(), 5);
}

#[test]
fn names_come_from_the_node_listed_under_the_id() {
    let mut workflow = workflow();
    workflow.nodes[0].1.id = "id-3".to_string();
    let (session, _) = Session::begin(configured(&[("id-1", ASKING)]), workflow, false);
    let (session, _) = session.advance(Event::ToolsRan(Ok("[]".to_string())));
    let (session, _) = session.advance(completed("x", Some("{}")));
    let context = session.into_context();
    assert_eq!(context.node_outputs.get("id-3"), Some(&json(r#""x""#)));
    assert_eq!(context.node_outputs.get("third"), Some(&json(r#""x""#)));
    assert_eq!(context.node_outputs.get("id-1"), Some(&json(ASKING)));
    assert!(context.metadata.get("node_response_third").is_some());
}

#[test]
fn the_engine_comes_first() {
    let failed =
        Err(WorkflowError::Engine { kind: "Network".to_string(), message: "no".to_string() });
    match Session::after_engine(failed, None, workflow(), false) {
        Err(WorkflowError::Engine { kind, message }) => {
            assert_eq!(kind, "Network");
            assert_eq!(message, "no");
        }
        _ => panic!("not the error of the engine"),
    }
    let llm_config = Some(json(r#"{"model": "n"}"#));
    match Session::after_engine(Ok(context(&[("id-1", ASKING)])), llm_config, workflow(), false) {
        Ok((session, action)) => {
            run_tools(action);
            let (_, action) = session.advance(Event::ToolsRan(Ok("[]".to_string())));
            assert_eq!(ask_model(action).0, json(r#"{"model": "n"}"#));
        }
        Err(_) => panic!("failed"),
    }
    match Session::after_engine(Ok(context(&[])), None, workflow(), false) {
        Ok((session, _)) => assert_eq!(session.into_context().metadata.len(), 0),
        Err(_) => panic!("failed"),
    }
}

#[test]
fn nothing_is_left_pending() {
    let start = configured(&[("id-1", ASKING), ("id-3", ASKING)]);
    let (session, _) = Session::begin(start, workflow(), false);
    let (session, _) = session.advance(Event::ToolsRan(Ok("[]".to_string())));
    let (session, _) = session.advance(completed("one", None));
    let (session, _) = session.advance(Event::ToolsRan(Ok("[]".to_string())));
    let (session, action) = session.advance(Event::ModelAnswered(ModelReply::CompletionFailed));
    assert!(matches!(action, Action::Finish));
    let (session, action) = Session::begin(session.into_context(), workflow(), true);
    assert!(matches!(action, Action::Finish));
    let context = session.into_context();
    assert_eq!(context.node_outputs.get("id-1"), Some(&json(r#""one""#)));
    assert_eq!(
        context.node_outputs.get("id-3"),
        Some(&json(r#""No tool results available""#))
    );
}

#[test]
fn nodes_are_found_in_any_order() {
    let mut reversed = workflow();
    reversed.nodes.reverse();
    for nodes in [workflow(), reversed] {
        let (session, _) = Session::begin(configured(&[("id-3", ASKING)]), nodes, false);
        let (session, _) = session.advance(Event::ToolsRan(Ok("[]".to_string())));
        let (session, _) = session.advance(completed("x", None));
        assert_eq!(session.into_context().variables.get("third"), Some(&json(r#""x""#)));
    }
}

#[test]
fn nothing_else_is_changed() {
    let mut start = configured(&[("id-1", ASKING), ("id-2", ASKING), ("other", "[1]")]);
    start.set_variable("other", json("2"));
    start.set_variable("id-2", json("3"));
    start.set_metadata("node_response_id-2".to_string(), json("4"));
    start.set_metadata("origin".to_string(), json(r#""here""#));
    let (session, action) = Session::begin(start, workflow(), false);
    run_tools(action);
    let (session, action) = session.advance(Event::ToolsRan(Ok(RESULTS.to_string())));
    ask_model(action);
    let (session, action) = session.advance(completed("Three.", Some(r#"{"content": "Three."}"#)));
    run_tools(action);
    let (session, action) = session.advance(Event::ToolsRan(Ok(RESULTS.to_string())));
    assert!(matches!(action, Action::Finish));
    let context = session.into_context();
    assert_eq!(context.node_outputs.get("id-1"), Some(&json(r#""Three.""#)));
    assert_eq!(context.node_outputs.get("id-2"), Some(&json(ASKING)));
    assert_eq!(context.node_outputs.get("other"), Some(&json("[1]")));
    assert_eq!(context.variables.get("other"), Some(&json("2")));
    assert_eq!(context.variables.get("id-2"), Some(&json("3")));
    assert_eq!(context.metadata.get("node_response_id-2"), Some(&json("4")));
    assert_eq!(context.metadata.get("origin"), Some(&json(r#""here""#)));
    assert_eq!(context.metadata.get("llm_config"), Some(&json(r#"{"model": "m"}"#)));
}
