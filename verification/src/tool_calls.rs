//! What a node output asks of the tools, and what the tools' results make of it: the calls to
//! run, the summary of their results, and the request for the closing answer.
use crate::context::ValueMap;
use crate::json::{
    array_text, boolean_member_of, entries_of, json_of, jsons_of, member_of, no_entries,
    object_value, parse_array, parsed_array, print_array, text_member_of, text_value,
    unsigned_member_of, Json,
};
use crate::text::{join_lines, joined_lines, same_text, texts_of};
use serde_json::Value;
use vstd::prelude::*;
use vstd::string::*;

verus! {

/// The limit set on the closing answer where the first call has used up the whole budget.
pub const MINIMUM_FINAL_TOKENS: u32 = 10;

/// What a node output that asks for tools asks.
pub struct PendingCalls {
    pub tool_calls: Value,
    pub original_prompt: String,
}

/// The content of [`PendingCalls`].
pub struct PendingView {
    pub tool_calls: Json,
    pub original_prompt: Seq<char>,
}

impl View for PendingCalls {
    type V = PendingView;

    open spec fn view(&self) -> PendingView {
        PendingView {
            tool_calls: json_of(self.tool_calls),
            original_prompt: self.original_prompt@,
        }
    }
}

/// A node output asks for tools where its `type` is `tool_calls_required` and it has both
/// `tool_calls` and a text as `original_prompt`.
pub open spec fn pending_in(output: Json) -> Option<PendingView> {
    if output.text_member("type"@) == Some("tool_calls_required"@) {
        match (output.member("tool_calls"@), output.text_member("original_prompt"@)) {
            (Some(tool_calls), Some(original_prompt)) => Some(
                PendingView { tool_calls, original_prompt },
            ),
            _ => None,
        }
    } else {
        None
    }
}

/// What a node output asks of the tools, if anything.
pub fn pending_calls(output: &Value) -> (pending: Option<PendingCalls>)
    ensures
        match pending {
            Some(found) => pending_in(json_of(*output)) == Some(found@),
            None => pending_in(json_of(*output)) is None,
        },
{
    match text_member_of(output, "type") {
        Some(kind) => if !same_text(kind, "tool_calls_required") {
            return None;
        },
        None => return None,
    }
    match (member_of(output, "tool_calls"), text_member_of(output, "original_prompt")) {
        (Some(tool_calls), Some(original_prompt)) => Some(
            PendingCalls {
                tool_calls: tool_calls.clone(),
                original_prompt: original_prompt.to_owned(),
            },
        ),
        _ => None,
    }
}

/// One call of a tool: its name, and the parameters it is called with.
pub struct PlannedCall {
    pub name: String,
    pub parameters: Value,
}

/// The content of a [`PlannedCall`].
pub struct PlannedView {
    pub name: Seq<char>,
    pub parameters: Json,
}

impl View for PlannedCall {
    type V = PlannedView;

    open spec fn view(&self) -> PlannedView {
        PlannedView { name: self.name@, parameters: json_of(self.parameters) }
    }
}

/// The contents of several planned calls, in order.
pub open spec fn plans_of(calls: Seq<PlannedCall>) -> Seq<PlannedView> {
    calls.map_values(|call: PlannedCall| call@)
}

/// The call that one entry of `tool_calls` asks for: a missing name reads `unknown`, missing
/// parameters read as an empty object.
pub open spec fn planned_from(call: Json) -> PlannedView {
    PlannedView {
        name: match call.text_member("name"@) {
            Some(name) => name,
            None => "unknown"@,
        },
        parameters: match call.member("parameters"@) {
            Some(parameters) => parameters,
            None => Json::Object(no_entries()),
        },
    }
}

/// The calls that `tool_calls` asks for: one for each of its entries, none where it is no array.
pub open spec fn planned_all(tool_calls: Json) -> Seq<PlannedView> {
    match tool_calls {
        Json::Array(calls) => calls.map_values(|call: Json| planned_from(call)),
        _ => Seq::empty(),
    }
}

fn planned_call(call: &Value) -> (planned: PlannedCall)
    ensures
        planned@ == planned_from(json_of(*call)),
{
    let name = match text_member_of(call, "name") {
        Some(name) => name.to_owned(),
        None => "unknown".to_owned(),
    };
    let parameters = match member_of(call, "parameters") {
        Some(parameters) => parameters.clone(),
        None => object_value(serde_json::Map::new()),
    };
    PlannedCall { name, parameters }
}

/// The calls that `tool_calls` asks for.
pub fn planned_calls(tool_calls: &Value) -> (planned: Vec<PlannedCall>)
    ensures
        plans_of(planned@) == planned_all(json_of(*tool_calls)),
{
    let mut planned: Vec<PlannedCall> = Vec::new();
    if let Some(calls) = tool_calls.as_array() {
        let mut i: usize = 0;
        while i < calls.len()
            invariant
                i <= calls.len(),
                planned.len() == i,
                forall|j: int|
                    0 <= j < i ==> (#[trigger] planned[j])@ == planned_from(json_of(calls[j])),
            decreases calls.len() - i,
        {
            planned.push(planned_call(&calls[i]));
            i += 1;
        }
        assert(plans_of(planned@) =~= jsons_of(calls@).map_values(|call: Json| planned_from(call)));
    }
    assert(!(json_of(*tool_calls) is Array) ==> plans_of(planned@) =~= Seq::empty());
    planned
}

/// A call in the form in which tools are handed it.
pub open spec fn call_record(call: PlannedView) -> Json {
    Json::Object(
        map!["tool_name"@ => Json::Text(call.name), "parameters"@ => call.parameters],
    )
}

/// Several calls in the form in which tools are handed them.
pub open spec fn call_records(calls: Seq<PlannedView>) -> Seq<Json> {
    calls.map_values(|call: PlannedView| call_record(call))
}

fn record_of(call: &PlannedCall) -> (record: Value)
    ensures
        json_of(record) == call_record(call@),
{
    let mut entries = serde_json::Map::new();
    entries.insert("tool_name".to_owned(), text_value(call.name.clone()));
    entries.insert("parameters".to_owned(), call.parameters.clone());
    assert(entries_of(entries) =~= map![
        "tool_name"@ => Json::Text(call@.name),
        "parameters"@ => call@.parameters,
    ]);
    object_value(entries)
}

/// The text that hands several calls to the tools. There is always one.
pub fn calls_text(calls: &Vec<PlannedCall>) -> (text: Result<String, String>)
    ensures
        text is Ok && text->Ok_0@ == array_text(call_records(plans_of(calls@))),
{
    let mut records: Vec<Value> = Vec::new();
    let mut i: usize = 0;
    while i < calls.len()
        invariant
            i <= calls.len(),
            records.len() == i,
            forall|j: int|
                0 <= j < i ==> json_of(#[trigger] records[j]) == call_record(calls[j]@),
        decreases calls.len() - i,
    {
        records.push(record_of(&calls[i]));
        i += 1;
    }
    assert(jsons_of(records@) =~= call_records(plans_of(calls@)));
    print_array(&records)
}

/// The results that a text holds: none where it holds no array.
pub open spec fn results_in(text: Seq<char>) -> Seq<Json> {
    match parsed_array(text) {
        Some(results) => results,
        None => Seq::empty(),
    }
}

/// The results that a text holds.
pub fn tool_results(text: &str) -> (results: Vec<Value>)
    ensures
        jsons_of(results@) == results_in(text@),
{
    match parse_array(text) {
        Ok(results) => results,
        Err(_) => {
            let results: Vec<Value> = Vec::new();
            assert(jsons_of(results@) =~= Seq::empty());
            results
        },
    }
}

/// The line that reports one result. A result without a tool name or without a verdict on its
/// success is not reported.
pub open spec fn summary_line(result: Json) -> Option<Seq<char>> {
    match (result.text_member("tool_name"@), result.boolean_member("success"@)) {
        (Some(name), Some(true)) => Some(
            name + ": "@ + match result.text_member("output"@) {
                Some(output) => output,
                None => ""@,
            },
        ),
        (Some(name), Some(false)) => Some(
            name + ": Error - "@ + match result.text_member("error"@) {
                Some(error) => error,
                None => "Unknown error"@,
            },
        ),
        _ => None,
    }
}

/// The lines that report several results, in order.
pub open spec fn summary_lines(results: Seq<Json>) -> Seq<Seq<char>>
    decreases results.len(),
{
    if results.len() == 0 {
        Seq::empty()
    } else {
        match summary_line(results.last()) {
            Some(line) => summary_lines(results.drop_last()).push(line),
            None => summary_lines(results.drop_last()),
        }
    }
}

/// The report on several results.
pub open spec fn summary_of(results: Seq<Json>) -> Seq<char> {
    if summary_lines(results).len() == 0 {
        "No tool results available"@
    } else {
        joined_lines(summary_lines(results))
    }
}

fn line_for(result: &Value) -> (line: Option<String>)
    ensures
        match line {
            Some(text) => summary_line(json_of(*result)) == Some(text@),
            None => summary_line(json_of(*result)) is None,
        },
{
    match (text_member_of(result, "tool_name"), boolean_member_of(result, "success")) {
        (Some(name), Some(success)) => {
            if success {
                let output = match text_member_of(result, "output") {
                    Some(output) => output,
                    None => "",
                };
                Some(name.to_owned().concat(": ").concat(output))
            } else {
                let error = match text_member_of(result, "error") {
                    Some(error) => error,
                    None => "Unknown error",
                };
                Some(name.to_owned().concat(": Error - ").concat(error))
            }
        },
        _ => None,
    }
}

/// The report on several results.
pub fn tool_summary(results: &Vec<Value>) -> (summary: String)
    ensures
        summary@ == summary_of(jsons_of(results@)),
{
    let mut lines: Vec<String> = Vec::new();
    let ghost all = jsons_of(results@);
    let mut i: usize = 0;
    assert(all.take(0) =~= Seq::empty());
    assert(texts_of(lines@) =~= Seq::empty());
    while i < results.len()
        invariant
            i <= results.len(),
            all == jsons_of(results@),
            texts_of(lines@) == summary_lines(all.take(i as int)),
        decreases results.len() - i,
    {
        let ghost before = lines@;
        if let Some(line) = line_for(&results[i]) {
            lines.push(line);
            assert(texts_of(lines@) =~= texts_of(before).push(line@));
        }
        assert(all.take(i + 1).drop_last() == all.take(i as int));
        assert(all.take(i + 1).last() == json_of(results[i as int]));
        i += 1;
    }
    assert(all.take(results.len() as int) == all);
    assert(texts_of(lines@).len() == lines@.len());
    if lines.len() == 0 {
        "No tool results available".to_owned()
    } else {
        join_lines(&lines)
    }
}

/// The prompt that asks for the closing answer.
pub open spec fn final_prompt_of(original_prompt: Seq<char>, summary: Seq<char>) -> Seq<char> {
    original_prompt + "\n\nTool execution results:\n"@ + summary
        + "\n\nPlease provide a comprehensive response based on the tool results."@
}

/// The prompt that asks for the closing answer.
pub fn final_prompt(original_prompt: &str, summary: &str) -> (prompt: String)
    ensures
        prompt@ == final_prompt_of(original_prompt@, summary@),
{
    original_prompt.to_owned().concat("\n\nTool execution results:\n").concat(summary).concat(
        "\n\nPlease provide a comprehensive response based on the tool results.",
    )
}

/// What of an encoded prompt is sent: the signature text, then the payload where it is a text.
pub open spec fn encoded_prompt_of(signature: Seq<char>, payload: Json) -> Seq<char> {
    signature + match payload.text() {
        Some(text) => text,
        None => ""@,
    }
}

/// What of an encoded prompt is sent.
pub fn encoded_prompt(signature: &str, payload: &Value) -> (prompt: String)
    ensures
        prompt@ == encoded_prompt_of(signature@, json_of(*payload)),
{
    match payload.as_str() {
        Some(text) => signature.to_owned().concat(text),
        None => signature.to_owned().concat(""),
    }
}

/// The low 32 bits of a number.
pub open spec fn low_word(n: u64) -> u32 {
    (n % 0x1_0000_0000) as u32
}

fn low_word_of(n: u64) -> (word: u32)
    ensures
        word == low_word(n),
{
    assert(n as u32 == (n % 0x1_0000_0000) as u32) by (bit_vector);
    n as u32
}

/// The tokens that the first call used, as its output reports them.
pub open spec fn initial_tokens_in(output: Json) -> u32 {
    match output.unsigned_member("initial_tokens_used"@) {
        Some(used) => low_word(used),
        None => 0,
    }
}

/// The token limit of the first call, as its output reports it.
pub open spec fn max_tokens_in(output: Json) -> Option<u32> {
    match output.unsigned_member("max_tokens_configured"@) {
        Some(limit) => Some(low_word(limit)),
        None => None,
    }
}

/// What a token limit leaves for the closing answer: the tokens that the first call did not use,
/// or a minimum where it used them all.
pub open spec fn remaining_of(used: u32, limit: Option<u32>) -> Option<u32> {
    match limit {
        Some(max) => if used < max {
            Some((max - used) as u32)
        } else {
            Some(MINIMUM_FINAL_TOKENS)
        },
        None => None,
    }
}

/// What a token limit leaves for the closing answer.
pub fn remaining_budget(used: u32, limit: Option<u32>) -> (remaining: Option<u32>)
    ensures
        remaining == remaining_of(used, limit),
{
    match limit {
        Some(max) => if used < max {
            Some(max - used)
        } else {
            Some(MINIMUM_FINAL_TOKENS)
        },
        None => None,
    }
}

/// The request for the closing answer. Sampling settings are handed on as the numbers that the
/// node's configuration holds.
pub struct FinalRequest {
    pub prompt: String,
    pub temperature: Option<Value>,
    pub max_tokens: Option<u32>,
    pub top_p: Option<Value>,
}

/// The content of a [`FinalRequest`].
pub struct RequestView {
    pub prompt: Seq<char>,
    pub temperature: Option<Json>,
    pub max_tokens: Option<u32>,
    pub top_p: Option<Json>,
}

/// The content of an optional value.
pub open spec fn optional_json(value: Option<Value>) -> Option<Json> {
    match value {
        Some(value) => Some(json_of(value)),
        None => None,
    }
}

impl View for FinalRequest {
    type V = RequestView;

    open spec fn view(&self) -> RequestView {
        RequestView {
            prompt: self.prompt@,
            temperature: optional_json(self.temperature),
            max_tokens: self.max_tokens,
            top_p: optional_json(self.top_p),
        }
    }
}

/// The entry `key` of a node's configuration, if it is a number.
pub open spec fn configured_number(config: Map<Seq<char>, Json>, key: Seq<char>) -> Option<Json> {
    match Json::Object(config).member(key) {
        Some(Json::Number(number)) => Some(Json::Number(number)),
        _ => None,
    }
}

/// The request for the closing answer: what is left of the token budget that the first call's
/// output reports limits it, or the node's own limit where no budget is reported.
pub open spec fn request_for(
    prompt: Seq<char>,
    output: Json,
    config: Map<Seq<char>, Json>,
) -> RequestView {
    RequestView {
        prompt,
        temperature: configured_number(config, "temperature"@),
        max_tokens: match remaining_of(initial_tokens_in(output), max_tokens_in(output)) {
            Some(remaining) => Some(remaining),
            None => match Json::Object(config).unsigned_member("max_tokens"@) {
                Some(limit) => Some(low_word(limit)),
                None => None,
            },
        },
        top_p: configured_number(config, "top_p"@),
    }
}

fn number_setting(config: &ValueMap, key: &str) -> (setting: Option<Value>)
    ensures
        optional_json(setting) == configured_number(config@, key@),
{
    match config.get(key) {
        Some(value) => if value.is_number() {
            Some(value.clone())
        } else {
            None
        },
        None => None,
    }
}

/// The request for the closing answer.
pub fn final_request(prompt: String, output: &Value, config: &ValueMap) -> (request: FinalRequest)
    ensures
        request@ == request_for(prompt@, json_of(*output), config@),
{
    let used: u32 = match unsigned_member_of(output, "initial_tokens_used") {
        Some(used) => low_word_of(used),
        None => 0,
    };
    let limit: Option<u32> = match unsigned_member_of(output, "max_tokens_configured") {
        Some(limit) => Some(low_word_of(limit)),
        None => None,
    };
    let max_tokens: Option<u32> = match remaining_budget(used, limit) {
        Some(remaining) => Some(remaining),
        None => match config.get("max_tokens") {
            Some(value) => match value.as_u64() {
                Some(limit) => Some(low_word_of(limit)),
                None => None,
            },
            None => None,
        },
    };
    FinalRequest {
        prompt,
        temperature: number_setting(config, "temperature"),
        max_tokens,
        top_p: number_setting(config, "top_p"),
    }
}

/// A text under the key `content`: the form in which an answer is decoded.
pub open spec fn content_object(content: Seq<char>) -> Json {
    Json::Object(map!["content"@ => Json::Text(content)])
}

/// A text under the key `content`.
pub fn content_payload(content: &str) -> (payload: Value)
    ensures
        json_of(payload) == content_object(content@),
{
    let mut entries = serde_json::Map::new();
    entries.insert("content".to_owned(), text_value(content.to_owned()));
    assert(entries_of(entries) =~= map!["content"@ => Json::Text(content@)]);
    object_value(entries)
}

/// The text of a decoded answer: its `content`, or the answer itself where that is no text.
pub open spec fn decoded_content_of(decoded: Json, content: Seq<char>) -> Seq<char> {
    match decoded.text_member("content"@) {
        Some(text) => text,
        None => content,
    }
}

/// The text of a decoded answer.
pub fn decoded_content(decoded: &Value, content: &str) -> (text: String)
    ensures
        text@ == decoded_content_of(json_of(*decoded), content@),
{
    match text_member_of(decoded, "content") {
        Some(text) => text.to_owned(),
        None => content.to_owned(),
    }
}

} // verus!
