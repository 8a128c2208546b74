//! What the record of a closing answer holds, and what goes before it.
use crate::json::Json;
use crate::response::{
    enriched_call, enriched_calls, response_record_of, trimmed_initial, trimmed_result,
};
use crate::text::joined_lines;
use crate::tool_calls::{
    remaining_of, summary_line, summary_lines, summary_of, MINIMUM_FINAL_TOKENS,
};
use vstd::prelude::*;

verus! {

/// Whether a key is that of a field which is preserved from the first answer.
pub open spec fn preserved_key(key: Seq<char>) -> bool {
    key == "prompt"@ || key == "duration_ms"@ || key == "execution_timestamp"@
}

/// Whether a key is that of a field which the record adds to an answer.
pub open spec fn added_key(key: Seq<char>) -> bool {
    key == "tool_calls"@ || key == "initial_response"@ || key == "final_input"@
}

proof fn lemma_record_fields_differ()
    ensures
        "prompt"@ != "duration_ms"@,
        "prompt"@ != "execution_timestamp"@,
        "duration_ms"@ != "execution_timestamp"@,
        "tool_calls"@ != "initial_response"@,
        "tool_calls"@ != "final_input"@,
        "initial_response"@ != "final_input"@,
        !added_key("prompt"@),
        !added_key("duration_ms"@),
        !added_key("execution_timestamp"@),
{
    reveal_strlit("prompt");
    reveal_strlit("duration_ms");
    reveal_strlit("execution_timestamp");
    reveal_strlit("tool_calls");
    reveal_strlit("initial_response");
    reveal_strlit("final_input");
    assert("prompt"@[0] == 'p');
    assert("duration_ms"@[0] == 'd');
    assert("execution_timestamp"@[0] == 'e');
    assert("tool_calls"@[0] == 't');
    assert("initial_response"@[0] == 'i');
    assert("final_input"@[0] == 'f');
}

/// The prompt, the duration and the time of the first answer are preserved in the record of the
/// closing answer, where the first answer's record has them.
pub proof fn law_first_answer_is_preserved(
    entries: Map<Seq<char>, Json>,
    existing: Json,
    tool_calls: Json,
    results: Seq<Json>,
    final_prompt: Seq<char>,
    key: Seq<char>,
)
    requires
        preserved_key(key),
    ensures
        response_record_of(
            Json::Object(entries),
            Some(existing),
            tool_calls,
            results,
            final_prompt,
        ).member(key) == match existing.member(key) {
            Some(value) => Some(value),
            None => Json::Object(entries).member(key),
        },
{
    lemma_record_fields_differ();
}

/// The record of a closing answer holds the tool calls with their results, what is kept of the
/// first answer, and the prompt before any encoding.
pub proof fn law_record_adds_the_calls(
    entries: Map<Seq<char>, Json>,
    existing: Option<Json>,
    tool_calls: Json,
    results: Seq<Json>,
    final_prompt: Seq<char>,
)
    ensures
        ({
            let record = response_record_of(
                Json::Object(entries),
                existing,
                tool_calls,
                results,
                final_prompt,
            );
            &&& record.member("tool_calls"@) == Some(enriched_calls(tool_calls, results))
            &&& record.member("initial_response"@) == Some(trimmed_initial(existing))
            &&& record.member("final_input"@) == Some(Json::Text(final_prompt))
        }),
{
    lemma_record_fields_differ();
}

/// Every other field of the closing answer is in its record as it came.
pub proof fn law_record_keeps_the_answer(
    entries: Map<Seq<char>, Json>,
    existing: Option<Json>,
    tool_calls: Json,
    results: Seq<Json>,
    final_prompt: Seq<char>,
    key: Seq<char>,
)
    requires
        !added_key(key),
        !preserved_key(key) || existing is None,
    ensures
        response_record_of(
            Json::Object(entries),
            existing,
            tool_calls,
            results,
            final_prompt,
        ).member(key) == Json::Object(entries).member(key),
{
}

/// Whether a key is that of a field which moves from a result to its call.
pub open spec fn timing_key(key: Seq<char>) -> bool {
    key == "start_time"@ || key == "end_time"@ || key == "latency_ms"@
}

proof fn lemma_call_fields_differ()
    ensures
        "start_time"@ != "end_time"@,
        "start_time"@ != "latency_ms"@,
        "end_time"@ != "latency_ms"@,
        !timing_key("output"@),
        "output"@ != "tool_name"@,
{
    reveal_strlit("start_time");
    reveal_strlit("end_time");
    reveal_strlit("latency_ms");
    reveal_strlit("output");
    reveal_strlit("tool_name");
    assert("start_time"@[0] == 's');
    assert("end_time"@[0] == 'e');
    assert("latency_ms"@[0] == 'l');
    assert("output"@[0] == 'o');
    assert("tool_name"@[0] == 't');
}

/// A result stands under `output` of its call, without the timing and the tool's name; the timing
/// stands beside it, and every other field of the call is as it was.
pub proof fn law_calls_get_their_results(
    entries: Map<Seq<char>, Json>,
    result: Json,
    key: Seq<char>,
)
    ensures
        ({
            let call = Json::Object(entries);
            let enriched = enriched_call(call, result);
            &&& enriched.member("output"@) == Some(trimmed_result(result))
            &&& timing_key(key) ==> enriched.member(key) == match result.member(key) {
                Some(value) => Some(value),
                None => call.member(key),
            }
            &&& !timing_key(key) && key != "output"@ ==> enriched.member(key) == call.member(key)
            &&& timing_key(key) || key == "tool_name"@ ==> trimmed_result(result).member(
                key,
            ) is None
            &&& !timing_key(key) && key != "tool_name"@ ==> trimmed_result(result).member(key)
                == result.member(key)
        }),
{
    lemma_call_fields_differ();
}

/// Results are joined to calls by position; no call is lost, added or moved, and a call without a
/// result is as it was.
pub proof fn law_calls_keep_their_places(calls: Seq<Json>, results: Seq<Json>, i: int)
    requires
        0 <= i < calls.len(),
    ensures
        ({
            let enriched = enriched_calls(Json::Array(calls), results)->Array_0;
            &&& enriched_calls(Json::Array(calls), results) is Array
            &&& enriched.len() == calls.len()
            &&& enriched[i] == if i < results.len() {
                enriched_call(calls[i], results[i])
            } else {
                calls[i]
            }
        }),
{
}

/// What is kept of the first answer has neither its content nor its metadata, its duration or its
/// time, and everything else as it was.
pub proof fn law_initial_response_is_trimmed(existing: Json, key: Seq<char>)
    ensures
        trimmed_initial(Some(existing)).member(key) == if key == "content"@ || key
            == "duration_ms"@ || key == "execution_timestamp"@ || key == "metadata"@ {
            None
        } else {
            existing.member(key)
        },
{
}

/// A token limit is never exceeded by the first call and the closing answer together, unless the
/// first call had reached it by itself; the closing answer is always left some tokens.
pub proof fn law_budget_is_cumulative(used: u32, limit: u32)
    ensures
        remaining_of(used, Some(limit)) is Some,
        remaining_of(used, Some(limit))->0 > 0,
        used < limit ==> used + remaining_of(used, Some(limit))->0 == limit,
        used >= limit ==> remaining_of(used, Some(limit))->0 == MINIMUM_FINAL_TOKENS,
{
}

/// Results are reported in their order, each by itself.
pub proof fn law_results_are_reported_in_order(a: Seq<Json>, b: Seq<Json>)
    ensures
        summary_lines(a + b) == summary_lines(a) + summary_lines(b),
    decreases b.len(),
{
    if b.len() == 0 {
        assert(a + b =~= a);
        assert(summary_lines(a) + summary_lines(b) =~= summary_lines(a));
    } else {
        assert((a + b).drop_last() =~= a + b.drop_last());
        law_results_are_reported_in_order(a, b.drop_last());
        assert(summary_lines(a + b) =~= summary_lines(a) + summary_lines(b));
    }
}

proof fn lemma_lines_are_not_empty(results: Seq<Json>)
    ensures
        forall|i: int|
            0 <= i < summary_lines(results).len() ==> (#[trigger] summary_lines(results)[i]).len()
                > 0,
    decreases results.len(),
{
    reveal_strlit(": ");
    reveal_strlit(": Error - ");
    if results.len() > 0 {
        let earlier = summary_lines(results.drop_last());
        lemma_lines_are_not_empty(results.drop_last());
        if let Some(line) = summary_line(results.last()) {
            assert(line.len() > 0);
            assert forall|i: int| 0 <= i < summary_lines(results).len() implies (
            #[trigger] summary_lines(results)[i]).len() > 0 by {
                if i < earlier.len() {
                    assert(summary_lines(results)[i] == earlier[i]);
                }
            }
        }
    }
}

/// The report on the tools' results always says something.
pub proof fn law_summary_is_never_empty(results: Seq<Json>)
    ensures
        summary_of(results).len() > 0,
{
    reveal_strlit("No tool results available");
    lemma_lines_are_not_empty(results);
    let lines = summary_lines(results);
    if lines.len() > 0 {
        assert(lines.last().len() > 0);
        assert(joined_lines(lines).len() >= lines.last().len());
    }
}

/// Objects stay objects, and what is not of the expected form is kept as it is: a result, a call or
/// an answer that is no object, and calls that are no list. Where there is no first answer, its
/// place in the record is null.
pub proof fn law_odd_values_are_kept(
    value: Json,
    entries: Map<Seq<char>, Json>,
    existing: Option<Json>,
    tool_calls: Json,
    results: Seq<Json>,
    final_prompt: Seq<char>,
)
    ensures
        trimmed_result(Json::Object(entries)) is Object,
        enriched_call(Json::Object(entries), value) is Object,
        trimmed_initial(Some(Json::Object(entries))) is Object,
        response_record_of(
            Json::Object(entries),
            existing,
            tool_calls,
            results,
            final_prompt,
        ) is Object,
        !(value is Object) ==> {
            &&& trimmed_result(value) == value
            &&& enriched_call(value, tool_calls) == value
            &&& trimmed_initial(Some(value)) == value
            &&& response_record_of(value, existing, tool_calls, results, final_prompt) == value
        },
        !(value is Array) ==> enriched_calls(value, results) == value,
        enriched_calls(Json::Array(Seq::empty()), results) == Json::Array(Seq::empty()),
        trimmed_initial(None) is Null,
{
    assert(enriched_calls(Json::Array(Seq::empty()), results)->Array_0 =~= Seq::empty());
}

} // verus!
