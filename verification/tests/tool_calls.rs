use serde_json::Value;
use workflow_executor::context::{ValueMap, WorkflowContext};
use workflow_executor::response::{enrich_calls, response_record};
use workflow_executor::tool_calls::{
    calls_text, content_payload, decoded_content, encoded_prompt, final_prompt, final_request,
    pending_calls, planned_calls, remaining_budget, tool_results, tool_summary,
    MINIMUM_FINAL_TOKENS,
};
use workflow_executor::workflow::{NodeType, Workflow, WorkflowNode};

fn json(text: &str) -> Value {
    serde_json::from_str(text).unwrap()
}

fn map(entries: &[(&str, &str)]) -> ValueMap {
    let mut map = ValueMap::new();
    for (key, value) in entries {
        map.insert(key.to_string(), json(value));
    }
    map
}

fn node(id: &str, config: ValueMap) -> WorkflowNode {
    WorkflowNode {
        id: id.to_string(),
        name: "name".to_string(),
        node_type: NodeType::Agent,
        config,
    }
}

#[test]
fn maps_read_back_what_was_written() {
    let mut entries = map(&[("a", "1"), ("b", "2")]);
    assert_eq!(entries.get("a"), Some(&json("1")));
    assert_eq!(entries.get("c"), None);
    entries.insert("a".to_string(), json("[3]"));
    entries.insert("c".to_string(), json("null"));
    assert_eq!(entries.get("a"), Some(&json("[3]")));
    assert_eq!(entries.get("b"), Some(&json("2")));
    assert_eq!(entries.get("c"), Some(&json("null")));
    assert_eq!(entries.len(), 3);
    assert_eq!(entries.entry_at(0), (&"a".to_string(), &json("[3]")));
    assert_eq!(entries.entry_at(2).0, "c");
    let copy = entries.snapshot();
    entries.insert("b".to_string(), json("9"));
    assert_eq!(copy.get("b"), Some(&json("2")));
    assert_eq!(copy.len(), 3);
}

#[test]
fn contexts_keep_three_maps() {
    let mut context = WorkflowContext::new();
    context.set_node_output("n", json("1"));
    context.set_variable("n", json("2"));
    context.set_metadata("n".to_string(), json("3"));
    assert_eq!(context.node_outputs.get("n"), Some(&json("1")));
    assert_eq!(context.variables.get("n"), Some(&json("2")));
    assert_eq!(context.metadata.get("n"), Some(&json("3")));
}

#[test]
fn nodes_are_found_by_the_id_they_are_listed_under() {
    let workflow = Workflow {
        nodes: vec![
            ("a".to_string(), node("a", ValueMap::new())),
            ("b".to_string(), node("b", ValueMap::new())),
            ("b".to_string(), node("again", ValueMap::new())),
        ],
    };
    assert_eq!(workflow.find_node("a"), Some(0));
    assert_eq!(workflow.find_node("b"), Some(1));
    assert_eq!(workflow.find_node("again"), None);
}

#[test]
fn tools_are_the_strings_in_the_list() {
    let listed = node("n", map(&[("tools", r#"["add", 3, null, "sub", ["x"]]"#)]));
    assert_eq!(listed.tools(), vec!["add".to_string(), "sub".to_string()]);
    assert!(node("n", map(&[("tools", r#""add""#)])).tools().is_empty());
    assert!(node("n", ValueMap::new()).tools().is_empty());
}

#[test]
fn pending_calls_need_type_calls_and_prompt() {
    let output = json(
        r#"{"type": "tool_calls_required", "tool_calls": [{"name": "add"}], "original_prompt": "p"}"#,
    );
    match pending_calls(&output) {
        Some(pending) => {
            assert_eq!(pending.tool_calls, json(r#"[{"name": "add"}]"#));
            assert_eq!(pending.original_prompt, "p");
        }
        None => panic!("nothing pending"),
    }
    for other in [
        r#"{"type": "text", "tool_calls": [], "original_prompt": "p"}"#,
        r#"{"type": 3, "tool_calls": [], "original_prompt": "p"}"#,
        r#"{"tool_calls": [], "original_prompt": "p"}"#,
        r#"{"type": "tool_calls_required", "original_prompt": "p"}"#,
        r#"{"type": "tool_calls_required", "tool_calls": []}"#,
        r#"{"type": "tool_calls_required", "tool_calls": [], "original_prompt": 1}"#,
        r#""tool_calls_required""#,
        "null",
    ] {
        assert!(pending_calls(&json(other)).is_none());
    }
}

#[test]
fn calls_are_planned_with_defaults() {
    let calls = planned_calls(&json(
        r#"[{"name": "add", "parameters": {"a": 1}}, {"name": 4}, "text"]"#,
    ));
    assert_eq!(calls.len(), 3);
    assert_eq!(calls[0].name, "add");
    assert_eq!(calls[0].parameters, json(r#"{"a": 1}"#));
    assert_eq!(calls[1].name, "unknown");
    assert_eq!(calls[1].parameters, json("{}"));
    assert_eq!(calls[2].name, "unknown");
    assert!(planned_calls(&json(r#"{"name": "add"}"#)).is_empty());
}

#[test]
fn calls_are_listed_for_the_tools() {
    let calls = planned_calls(&json(r#"[{"name": "add", "parameters": {"b": 2, "a": 1}}]"#));
    assert_eq!(
        calls_text(&calls),
        Ok(r#"[{"parameters":{"a":1,"b":2},"tool_name":"add"}]"#.to_string())
    );
    assert_eq!(calls_text(&vec![]), Ok("[]".to_string()));
}

#[test]
fn results_are_read_from_an_array() {
    let results = tool_results(r#" [{"tool_name": "add"}, 2] "#);
    assert_eq!(results, vec![json(r#"{"tool_name": "add"}"#), json("2")]);
    assert!(tool_results("{}").is_empty());
    assert!(tool_results("not json").is_empty());
    assert!(tool_results("").is_empty());
}

#[test]
fn summaries_report_results_line_by_line() {
    let results = tool_results(
        r#"[
            {"tool_name": "add", "success": true, "output": "3"},
            {"tool_name": "sub", "success": true, "output": 7},
            {"tool_name": "mul", "success": false, "error": "overflow"},
            {"tool_name": "div", "success": false},
            {"tool_name": "mod"},
            {"success": true, "output": "lost"},
            {"tool_name": "odd", "success": "yes"},
            5
        ]"#,
    );
    assert_eq!(
        tool_summary(&results),
        "add: 3\nsub: \nmul: Error - overflow\ndiv: Error - Unknown error"
    );
    assert_eq!(tool_summary(&vec![]), "No tool results available");
    assert_eq!(tool_summary(&vec![json("5")]), "No tool results available");
}

#[test]
fn summaries_of_two_lists_follow_each_other() {
    let first = tool_results(r#"[{"tool_name": "a", "success": true, "output": "1"}]"#);
    let second = tool_results(r#"[{"tool_name": "b", "success": false}]"#);
    let mut both = first.clone();
    both.extend(second.clone());
    let expected = tool_summary(&first) + "\n" + &tool_summary(&second);
    assert_eq!(tool_summary(&both), expected);
}

#[test]
fn the_final_prompt_holds_prompt_and_summary() {
    assert_eq!(
        final_prompt("What is 1+2?", "add: 3"),
        "What is 1+2?\n\nTool execution results:\nadd: 3\n\nPlease provide a comprehensive \
         response based on the tool results."
    );
}

#[test]
fn encoded_prompts_start_with_the_signature() {
    assert_eq!(encoded_prompt("sig ", &json(r#""body""#)), "sig body");
    assert_eq!(encoded_prompt("sig ", &json(r#"{"a": 1}"#)), "sig ");
}

#[test]
fn budgets_are_cumulative() {
    assert_eq!(remaining_budget(30, Some(100)), Some(70));
    assert_eq!(remaining_budget(99, Some(100)), Some(1));
    assert_eq!(remaining_budget(100, Some(100)), Some(MINIMUM_FINAL_TOKENS));
    assert_eq!(remaining_budget(u32::MAX, Some(0)), Some(10));
    assert_eq!(remaining_budget(30, None), None);
}

#[test]
fn requests_are_limited_by_the_budget_first() {
    let config = map(&[
        ("max_tokens", "500"),
        ("temperature", "0.5"),
        ("top_p", r#""high""#),
    ]);
    let output = json(r#"{"initial_tokens_used": 30, "max_tokens_configured": 100}"#);
    let request = final_request("p".to_string(), &output, &config);
    assert_eq!(request.prompt, "p");
    assert_eq!(request.max_tokens, Some(70));
    assert_eq!(request.temperature, Some(json("0.5")));
    assert_eq!(request.top_p, None);
    let request = final_request("p".to_string(), &json("{}"), &config);
    assert_eq!(request.max_tokens, Some(500));
    let request = final_request("p".to_string(), &json("{}"), &ValueMap::new());
    assert_eq!(request.max_tokens, None);
    assert_eq!(request.temperature, None);
}

#[test]
fn token_counts_keep_their_low_bits() {
    let output = json(r#"{"initial_tokens_used": 4294967299, "max_tokens_configured": 4294967396}"#);
    let request = final_request("p".to_string(), &output, &ValueMap::new());
    assert_eq!(request.max_tokens, Some(97));
    let output = json(r#"{"initial_tokens_used": -5, "max_tokens_configured": 100}"#);
    let request = final_request("p".to_string(), &output, &ValueMap::new());
    assert_eq!(request.max_tokens, Some(100));
    let output = json(r#"{"initial_tokens_used": 5, "max_tokens_configured": 100.5}"#);
    let config = map(&[("max_tokens", "4294967303")]);
    let request = final_request("p".to_string(), &output, &config);
    assert_eq!(request.max_tokens, Some(7));
}

#[test]
fn answers_are_decoded_under_content() {
    assert_eq!(content_payload("hi"), json(r#"{"content": "hi"}"#));
    assert_eq!(decoded_content(&json(r#"{"content": "clear"}"#), "coded"), "clear");
    assert_eq!(decoded_content(&json(r#"{"content": 1}"#), "coded"), "coded");
    assert_eq!(decoded_content(&json("[]"), "coded"), "coded");
}

#[test]
fn calls_are_enriched_with_their_results() {
    let calls = json(r#"[{"name": "add", "output": "old"}, {"name": "sub"}, "odd", {"name": "mul"}]"#);
    let results = tool_results(
        r#"[
            {"tool_name": "add", "success": true, "output": "3",
             "start_time": "s", "end_time": "e", "latency_ms": 4},
            "plain",
            {"tool_name": "odd"}
        ]"#,
    );
    assert_eq!(
        enrich_calls(&calls, &results),
        json(
            r#"[
                {"name": "add", "start_time": "s", "end_time": "e", "latency_ms": 4,
                 "output": {"success": true, "output": "3"}},
                {"name": "sub", "output": "plain"},
                "odd",
                {"name": "mul"}
            ]"#
        )
    );
    assert_eq!(enrich_calls(&json("7"), &results), json("7"));
}

#[test]
fn records_preserve_the_first_answer() {
    let response = json(r#"{"content": "closing", "prompt": "new", "model": "m", "tool_calls": []}"#);
    let existing = json(
        r#"{"content": "first", "prompt": "old", "duration_ms": 12, "execution_timestamp": "t",
            "metadata": {"k": 1}, "usage": {"n": 2}}"#,
    );
    let record = response_record(
        response,
        &Some(existing),
        &json(r#"[{"name": "add"}]"#),
        &vec![json(r#"{"tool_name": "add", "latency_ms": 1}"#)],
        "final",
    );
    assert_eq!(
        record,
        json(
            r#"{
                "content": "closing", "prompt": "old", "model": "m", "duration_ms": 12,
                "execution_timestamp": "t",
                "tool_calls": [{"name": "add", "latency_ms": 1, "output": {}}],
                "initial_response": {"prompt": "old", "usage": {"n": 2}},
                "final_input": "final"
            }"#
        )
    );
}

#[test]
fn records_of_a_first_answer_that_is_missing_or_odd() {
    let record = response_record(json("{}"), &None, &json("[]"), &vec![], "f");
    assert_eq!(
        record,
        json(r#"{"tool_calls": [], "initial_response": null, "final_input": "f"}"#)
    );
    let record = response_record(json("{}"), &Some(json("[1]")), &json("[]"), &vec![], "f");
    assert_eq!(
        record,
        json(r#"{"tool_calls": [], "initial_response": [1], "final_input": "f"}"#)
    );
    assert_eq!(response_record(json("3"), &None, &json("[]"), &vec![], "f"), json("3"));
}
