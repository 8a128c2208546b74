//! The record that is kept of a closing answer: the answer itself, what is preserved of the
//! first answer, and the tool calls with their results.
use crate::json::{
    entries_of, json_of, jsons_of, member_of, null_value, remove_entry, text_value, Json,
};
use crate::tool_calls::optional_json;
use serde_json::Value;
use vstd::prelude::*;

verus! {

/// `entries` with the member `key` of another value, where that has one.
pub open spec fn carried(
    entries: Map<Seq<char>, Json>,
    source: Json,
    key: Seq<char>,
) -> Map<Seq<char>, Json> {
    match source.member(key) {
        Some(value) => entries.insert(key, value),
        None => entries,
    }
}

/// A tool's result without what the call itself records of it.
pub open spec fn trimmed_result(result: Json) -> Json {
    match result {
        Json::Object(entries) => Json::Object(
            entries.remove("start_time"@).remove("end_time"@).remove("latency_ms"@).remove(
                "tool_name"@,
            ),
        ),
        other => other,
    }
}

/// A tool call with its result: the timing stands beside the call, the rest under `output`.
pub open spec fn enriched_call(call: Json, result: Json) -> Json {
    match call {
        Json::Object(entries) => Json::Object(
            carried(
                carried(
                    carried(entries, result, "start_time"@),
                    result,
                    "end_time"@,
                ),
                result,
                "latency_ms"@,
            ).insert("output"@, trimmed_result(result)),
        ),
        other => other,
    }
}

/// The tool calls, each with the result at its own position, where there is one.
pub open spec fn enriched_calls(tool_calls: Json, results: Seq<Json>) -> Json {
    match tool_calls {
        Json::Array(calls) => Json::Array(
            Seq::new(
                calls.len(),
                |i: int|
                    if i < results.len() {
                        enriched_call(calls[i], results[i])
                    } else {
                        calls[i]
                    },
            ),
        ),
        other => other,
    }
}

/// What is kept of the record of the first answer.
pub open spec fn trimmed_initial(existing: Option<Json>) -> Json {
    match existing {
        Some(Json::Object(entries)) => Json::Object(
            entries.remove("content"@).remove("duration_ms"@).remove("execution_timestamp"@).remove(
                "metadata"@,
            ),
        ),
        Some(other) => other,
        None => Json::Null,
    }
}

/// The fields that are preserved from the record of the first answer.
pub open spec fn preserved(
    entries: Map<Seq<char>, Json>,
    existing: Option<Json>,
) -> Map<Seq<char>, Json> {
    match existing {
        Some(record) => carried(
            carried(carried(entries, record, "prompt"@), record, "duration_ms"@),
            record,
            "execution_timestamp"@,
        ),
        None => entries,
    }
}

/// The record of a closing answer. An answer that is no object is kept as it is.
pub open spec fn response_record_of(
    response: Json,
    existing: Option<Json>,
    tool_calls: Json,
    results: Seq<Json>,
    final_prompt: Seq<char>,
) -> Json {
    match response {
        Json::Object(entries) => Json::Object(
            preserved(entries, existing).insert(
                "tool_calls"@,
                enriched_calls(tool_calls, results),
            ).insert("initial_response"@, trimmed_initial(existing)).insert(
                "final_input"@,
                Json::Text(final_prompt),
            ),
        ),
        other => other,
    }
}

fn carry(entries: &mut serde_json::Map<String, Value>, source: &Value, key: &str)
    ensures
        entries_of(*final(entries)) == carried(entries_of(*old(entries)), json_of(*source), key@),
{
    if let Some(value) = member_of(source, key) {
        entries.insert(key.to_owned(), value.clone());
    }
}

fn trim_result(result: &Value) -> (trimmed: Value)
    ensures
        json_of(trimmed) == trimmed_result(json_of(*result)),
{
    let mut trimmed = result.clone();
    if let Some(entries) = trimmed.as_object_mut() {
        remove_entry(entries, "start_time");
        remove_entry(entries, "end_time");
        remove_entry(entries, "latency_ms");
        remove_entry(entries, "tool_name");
    }
    trimmed
}

fn trim_initial(existing: &Option<Value>) -> (trimmed: Value)
    ensures
        json_of(trimmed) == trimmed_initial(optional_json(*existing)),
{
    let mut trimmed = match existing {
        Some(record) => record.clone(),
        None => null_value(),
    };
    if let Some(entries) = trimmed.as_object_mut() {
        remove_entry(entries, "content");
        remove_entry(entries, "duration_ms");
        remove_entry(entries, "execution_timestamp");
        remove_entry(entries, "metadata");
    }
    trimmed
}

fn enrich_call(call: &mut Value, result: &Value)
    ensures
        json_of(*final(call)) == enriched_call(json_of(*old(call)), json_of(*result)),
{
    if let Some(entries) = call.as_object_mut() {
        carry(entries, result, "start_time");
        carry(entries, result, "end_time");
        carry(entries, result, "latency_ms");
        entries.insert("output".to_owned(), trim_result(result));
    }
}

fn enrich_items(calls: &mut Vec<Value>, results: &Vec<Value>)
    ensures
        Json::Array(jsons_of(final(calls)@)) == enriched_calls(
            Json::Array(jsons_of(old(calls)@)),
            jsons_of(results@),
        ),
{
    let mut i: usize = 0;
    let ghost before = calls@;
    while i < calls.len()
        invariant
            i <= calls.len(),
            calls@.len() == before.len(),
            forall|j: int| i <= j < before.len() ==> #[trigger] calls@[j] == before[j],
            forall|j: int|
                0 <= j < i ==> json_of(#[trigger] calls@[j]) == if j < results.len() {
                    enriched_call(json_of(before[j]), json_of(results[j]))
                } else {
                    json_of(before[j])
                },
        decreases calls.len() - i,
    {
        if i < results.len() {
            enrich_call(&mut calls[i], &results[i]);
        }
        i += 1;
    }
    let ghost items = enriched_calls(Json::Array(jsons_of(before)), jsons_of(results@))->Array_0;
    assert(jsons_of(calls@) =~= items);
}

/// The tool calls, each with its result.
pub fn enrich_calls(tool_calls: &Value, results: &Vec<Value>) -> (enriched: Value)
    ensures
        json_of(enriched) == enriched_calls(json_of(*tool_calls), jsons_of(results@)),
{
    let mut enriched = tool_calls.clone();
    if let Some(calls) = enriched.as_array_mut() {
        enrich_items(calls, results);
    }
    enriched
}

/// The record of a closing answer.
pub fn response_record(
    response: Value,
    existing: &Option<Value>,
    tool_calls: &Value,
    results: &Vec<Value>,
    final_prompt: &str,
) -> (record: Value)
    ensures
        json_of(record) == response_record_of(
            json_of(response),
            optional_json(*existing),
            json_of(*tool_calls),
            jsons_of(results@),
            final_prompt@,
        ),
{
    let mut record = response;
    if let Some(entries) = record.as_object_mut() {
        if let Some(first) = existing {
            carry(entries, first, "prompt");
            carry(entries, first, "duration_ms");
            carry(entries, first, "execution_timestamp");
        }
        entries.insert("tool_calls".to_owned(), enrich_calls(tool_calls, results));
        entries.insert("initial_response".to_owned(), trim_initial(existing));
        entries.insert("final_input".to_owned(), text_value(final_prompt.to_owned()));
    }
    record
}

} // verus!
