//! What is asked of the tools and of the language model.
use crate::json::{array_text, parsed_array, Json, JsonNumber};
use crate::laws::records::law_results_are_reported_in_order;
use crate::laws::values::law_lines_are_joined_by_breaks;
use crate::protocol::{findings_of, hand_out, DeskView, RoundView, StageView};
use crate::tool_calls::{
    call_records, configured_number, content_object, decoded_content_of, encoded_prompt_of,
    final_prompt_of, low_word, pending_in, planned_all, remaining_of, request_for, results_in,
    summary_line, summary_lines, summary_of, PendingView, PlannedView,
};
use crate::workflow::{node_under, texts_among, NodeView};
use vstd::prelude::*;

verus! {

/// Several texts as JSON values.
pub open spec fn as_values(texts: Seq<Seq<char>>) -> Seq<Json> {
    Seq::new(texts.len(), |i: int| Json::Text(texts[i]))
}

proof fn lemma_texts_among(a: Seq<Json>, b: Seq<Json>)
    ensures
        texts_among(a + b) == texts_among(a) + texts_among(b),
    decreases b.len(),
{
    if b.len() == 0 {
        assert(a + b =~= a);
        assert(texts_among(a) + texts_among(b) =~= texts_among(a));
    } else {
        assert((a + b).drop_last() =~= a + b.drop_last());
        lemma_texts_among(a, b.drop_last());
        assert(texts_among(a + b) =~= texts_among(a) + texts_among(b));
    }
}

proof fn lemma_all_texts(texts: Seq<Seq<char>>)
    ensures
        texts_among(as_values(texts)) == texts,
    decreases texts.len(),
{
    if texts.len() > 0 {
        lemma_all_texts(texts.drop_last());
        assert(as_values(texts).drop_last() =~= as_values(texts.drop_last()));
        assert(texts_among(as_values(texts)) =~= texts);
    } else {
        assert(texts_among(as_values(texts)) =~= texts);
    }
}

/// Where the `tools` of a node are a list of texts, the node may use the tools of just these
/// names, in this order.
pub proof fn law_listed_tools_may_be_used(node: NodeView, names: Seq<Seq<char>>)
    requires
        node.config.contains_pair("tools"@, Json::Array(as_values(names))),
    ensures
        node.tools() == names,
{
    lemma_all_texts(names);
}

/// The tools of two lists one after the other are those of the one followed by those of the
/// other.
pub proof fn law_tools_follow_their_list(
    both: NodeView,
    first: NodeView,
    second: NodeView,
    a: Seq<Json>,
    b: Seq<Json>,
)
    requires
        both.config.contains_pair("tools"@, Json::Array(a + b)),
        first.config.contains_pair("tools"@, Json::Array(a)),
        second.config.contains_pair("tools"@, Json::Array(b)),
    ensures
        both.tools() == first.tools() + second.tools(),
{
    lemma_texts_among(a, b);
}

/// What is no text names no tool, and a node whose `tools` are no list may use none.
pub proof fn law_only_listed_texts_name_tools(node: NodeView, value: Json)
    ensures
        !(value is Text) && node.config.contains_pair("tools"@, Json::Array(seq![value]))
            ==> node.tools().len() == 0,
        !node.config.contains_key("tools"@) || !(node.config["tools"@] is Array)
            ==> node.tools().len() == 0,
{
    assert(seq![value].drop_last() =~= Seq::empty());
    assert(texts_among(seq![value].drop_last()).len() == 0);
}

/// The node that is found under an id is the first that is listed under it; none is found where
/// none is listed.
pub proof fn law_first_listed_node_is_found(
    nodes: Seq<(Seq<char>, NodeView)>,
    id: Seq<char>,
    i: int,
)
    requires
        0 <= i <= nodes.len(),
        forall|j: int| 0 <= j < i ==> (#[trigger] nodes[j]).0 != id,
    ensures
        i < nodes.len() && nodes[i].0 == id ==> node_under(nodes, id) == Some(nodes[i].1),
        i == nodes.len() ==> node_under(nodes, id) is None,
    decreases nodes.len(),
{
    if i > 0 {
        assert(nodes[0].0 != id);
        let rest = nodes.drop_first();
        assert forall|j: int| 0 <= j < i - 1 implies (#[trigger] rest[j]).0 != id by {
            assert(rest[j] == nodes[j + 1]);
        }
        law_first_listed_node_is_found(rest, id, i - 1);
        if i < nodes.len() {
            assert(rest[i - 1] == nodes[i]);
        }
    }
}

/// An output asks for tools exactly where it is an object of the type `tool_calls_required` with
/// `tool_calls` and a text as `original_prompt`, and then it asks with these two.
pub proof fn law_outputs_ask_for_tools(
    output: Json,
    tool_calls: Json,
    original_prompt: Seq<char>,
)
    ensures
        pending_in(output) == Some(PendingView { tool_calls, original_prompt }) <==> output
            is Object && output->Object_0.contains_pair(
            "type"@,
            Json::Text("tool_calls_required"@),
        ) && output->Object_0.contains_pair("tool_calls"@, tool_calls)
            && output->Object_0.contains_pair("original_prompt"@, Json::Text(original_prompt)),
{
}

/// Every entry of a list of calls is planned as one call, in the same place: by its `name`, or as
/// `unknown` where that is no text, and with its `parameters`, or an empty object where it has
/// none. What is no list plans no call.
pub proof fn law_every_call_is_planned(
    tool_calls: Json,
    calls: Seq<Json>,
    i: int,
    name: Seq<char>,
    parameters: Json,
)
    requires
        0 <= i < calls.len(),
    ensures
        ({
            let planned = planned_all(Json::Array(calls));
            let entry = calls[i];
            &&& planned.len() == calls.len()
            &&& entry is Object && entry->Object_0.contains_pair("name"@, Json::Text(name))
                ==> planned[i].name == name
            &&& !(entry is Object) || !entry->Object_0.contains_key("name"@) || !(
            entry->Object_0["name"@] is Text) ==> planned[i].name == "unknown"@
            &&& entry is Object && entry->Object_0.contains_pair("parameters"@, parameters)
                ==> planned[i].parameters == parameters
            &&& !(entry is Object) || !entry->Object_0.contains_key("parameters"@)
                ==> planned[i].parameters == Json::Object(Map::empty())
        }),
        !(tool_calls is Array) ==> planned_all(tool_calls).len() == 0,
        planned_all(Json::Array(Seq::empty())).len() == 0,
{
}

/// The calls of an output are those that its `tool_calls` ask for.
pub proof fn law_rounds_hold_the_calls(round: RoundView)
    ensures
        round.calls() == planned_all(round.pending.tool_calls),
{
}

/// The tools are handed the JSON text of all calls, one record for each in the same order, with
/// the tool's name and the parameters and nothing else, and with the names of the node's own
/// tools; then the session waits for them, and nothing else has changed.
pub proof fn law_tools_are_handed_every_call(
    desk: DeskView,
    round: RoundView,
    calls: Seq<PlannedView>,
    records: Seq<Json>,
)
    requires
        records.len() == calls.len(),
        forall|i: int|
            0 <= i < calls.len() ==> #[trigger] records[i] == Json::Object(
                map![
                    "tool_name"@ => Json::Text(calls[i].name),
                    "parameters"@ => calls[i].parameters,
                ],
            ),
    ensures
        hand_out(desk, round, calls).1 is RunTools,
        hand_out(desk, round, calls).1->calls == array_text(records),
        hand_out(desk, round, calls).1->tools == round.node.tools(),
        hand_out(desk, round, calls).0.stage == (StageView::Running { round }),
        hand_out(desk, round, calls).0.desk == desk,
        call_records(calls) == records,
{
    assert(call_records(calls) =~= records);
}

/// The results are the items of the array that the tools' text holds; a text that holds none has
/// no results.
pub proof fn law_results_are_what_the_text_holds(text: Seq<char>, results: Seq<Json>)
    ensures
        parsed_array(text) == Some(results) ==> results_in(text) == results,
        parsed_array(text) is None ==> results_in(text).len() == 0,
{
}

/// Whether a result can be reported: it names a tool and has a verdict on its success.
pub open spec fn reportable(result: Json) -> bool {
    &&& result is Object
    &&& result->Object_0.contains_key("tool_name"@)
    &&& result->Object_0["tool_name"@] is Text
    &&& result->Object_0.contains_key("success"@)
    &&& result->Object_0["success"@] is Bool
}

/// Whether any of several results can be reported.
pub open spec fn any_reportable(results: Seq<Json>) -> bool {
    exists|i: int| 0 <= i < results.len() && reportable(#[trigger] results[i])
}

proof fn lemma_reportable_lines(results: Seq<Json>)
    ensures
        summary_lines(results).len() > 0 <==> any_reportable(results),
    decreases results.len(),
{
    if results.len() > 0 {
        let earlier = results.drop_last();
        lemma_reportable_lines(earlier);
        assert(reportable(results.last()) <==> summary_line(results.last()) is Some);
        if any_reportable(earlier) {
            let i = choose|i: int| 0 <= i < earlier.len() && reportable(#[trigger] earlier[i]);
            assert(reportable(results[i]));
        }
        if any_reportable(results) && !reportable(results.last()) {
            let i = choose|i: int| 0 <= i < results.len() && reportable(#[trigger] results[i]);
            assert(i < earlier.len());
            assert(reportable(earlier[i]));
        }
        if reportable(results.last()) {
            assert(reportable(results[results.len() - 1]));
        }
    }
}

proof fn lemma_single_line(result: Json)
    ensures
        summary_line(result) matches Some(line) ==> summary_of(seq![result]) == line,
        summary_line(result) is None ==> summary_lines(seq![result]).len() == 0,
{
    assert(seq![result].drop_last() =~= Seq::empty());
    assert(summary_lines(seq![result].drop_last()) =~= Seq::empty());
    if let Some(line) = summary_line(result) {
        assert(summary_lines(seq![result]) =~= seq![line]);
    }
}

/// A success is reported as the tool's name and its output, which may be missing; a failure as
/// the tool's name and its error, which reads `Unknown error` where it is missing.
pub proof fn law_results_are_reported_by_name(
    entries: Map<Seq<char>, Json>,
    name: Seq<char>,
    said: Seq<char>,
)
    requires
        entries.contains_pair("tool_name"@, Json::Text(name)),
    ensures
        ({
            let report = summary_of(seq![Json::Object(entries)]);
            let success = entries.contains_pair("success"@, Json::Bool(true));
            let failure = entries.contains_pair("success"@, Json::Bool(false));
            let output = entries.contains_key("output"@) && entries["output"@] is Text;
            let error = entries.contains_key("error"@) && entries["error"@] is Text;
            &&& success && entries.contains_pair("output"@, Json::Text(said)) ==> report == name
                + ": "@ + said
            &&& success && !output ==> report == name + ": "@
            &&& failure && entries.contains_pair("error"@, Json::Text(said)) ==> report == name
                + ": Error - "@ + said
            &&& failure && !error ==> report == name + ": Error - "@ + "Unknown error"@
        }),
{
    reveal_strlit("");
    lemma_single_line(Json::Object(entries));
    assert(name + ": "@ + ""@ =~= name + ": "@);
}

/// The reports on two groups of results follow each other on lines of their own, where there is
/// something to report in both; results that cannot be reported make no difference; and where
/// nothing can be reported, that is said.
pub proof fn law_reports_follow_each_other(a: Seq<Json>, b: Seq<Json>)
    ensures
        any_reportable(a) && any_reportable(b) ==> summary_of(a + b) == summary_of(a) + "\n"@
            + summary_of(b),
        any_reportable(a) && !any_reportable(b) ==> summary_of(a + b) == summary_of(a),
        !any_reportable(a) && any_reportable(b) ==> summary_of(a + b) == summary_of(b),
        !any_reportable(a) ==> summary_of(a) == "No tool results available"@,
{
    lemma_reportable_lines(a);
    lemma_reportable_lines(b);
    law_results_are_reported_in_order(a, b);
    law_lines_are_joined_by_breaks(Seq::empty(), summary_lines(a), summary_lines(b));
    assert(summary_lines(b).len() == 0 ==> summary_lines(a) + summary_lines(b)
        =~= summary_lines(a));
    assert(summary_lines(a).len() == 0 ==> summary_lines(a) + summary_lines(b)
        =~= summary_lines(b));
}

/// The prompt for the closing answer is the question, a heading, the whole report on the results,
/// and the request to answer, each whole and one directly behind the other.
pub proof fn law_prompts_hold_the_question_and_the_results(
    question: Seq<char>,
    summary: Seq<char>,
)
    ensures
        ({
            let heading = "\n\nTool execution results:\n"@;
            let closing =
                "\n\nPlease provide a comprehensive response based on the tool results."@;
            let prompt = final_prompt_of(question, summary);
            let headed = (question.len() + heading.len()) as int;
            let told = headed + summary.len();
            &&& prompt.len() == question.len() + heading.len() + summary.len() + closing.len()
            &&& prompt.subrange(0, question.len() as int) == question
            &&& prompt.subrange(question.len() as int, headed) == heading
            &&& prompt.subrange(headed, told) == summary
            &&& prompt.subrange(told, prompt.len() as int) == closing
        }),
{
    let heading = "\n\nTool execution results:\n"@;
    let closing = "\n\nPlease provide a comprehensive response based on the tool results."@;
    let prompt = final_prompt_of(question, summary);
    let headed = (question.len() + heading.len()) as int;
    let told = headed + summary.len();
    assert(prompt.subrange(0, question.len() as int) =~= question);
    assert(prompt.subrange(question.len() as int, headed) =~= heading);
    assert(prompt.subrange(headed, told) =~= summary);
    assert(prompt.subrange(told, prompt.len() as int) =~= closing);
}

/// What the tools found is their results, the report on them, and the prompt that asks the
/// round's question with that report.
pub proof fn law_findings_are_the_results(round: RoundView, results: Seq<Json>)
    ensures
        findings_of(round, results).results == results,
        findings_of(round, results).summary == summary_of(results),
        findings_of(round, results).prompt == final_prompt_of(
            round.pending.original_prompt,
            summary_of(results),
        ),
{
}

/// An encoded prompt is sent as the signature text followed by the payload, where that is a text,
/// and as the signature text alone where it is none.
pub proof fn law_encoded_prompts_carry_the_payload(
    signature: Seq<char>,
    payload: Json,
    text: Seq<char>,
)
    ensures
        encoded_prompt_of(signature, Json::Text(text)) == signature + text,
        !(payload is Text) ==> encoded_prompt_of(signature, payload) == signature,
{
    reveal_strlit("");
    assert(signature + ""@ =~= signature);
}

/// Of a number of tokens the low 32 bits are taken.
pub proof fn law_tokens_keep_their_low_bits(n: u64)
    ensures
        0 <= low_word(n) < 0x1_0000_0000,
        (n - low_word(n)) % 0x1_0000_0000 == 0,
        n < 0x1_0000_0000 ==> low_word(n) == n,
{
}

/// What is left of a token limit, and the minimum where nothing is; without a limit, nothing is
/// set.
pub proof fn law_budget_is_what_is_left(used: u32, limit: u32)
    ensures
        used < limit ==> remaining_of(used, Some(limit)) is Some && remaining_of(
            used,
            Some(limit),
        )->0 + used == limit,
        used >= limit ==> remaining_of(used, Some(limit)) == Some(10u32),
        remaining_of(used, None) is None,
{
}

/// Whether an object holds a non-negative integer under a key.
pub open spec fn holds_integer(entries: Map<Seq<char>, Json>, key: Seq<char>) -> bool {
    entries.contains_key(key) && entries[key] is Number && entries[key]->Number_0 is PosInt
}

/// The closing answer is limited by what the first call left of the limit that its output
/// reports, or by a minimum of ten tokens where it left nothing; a first call that reports no use
/// has used nothing.
pub proof fn law_closing_answers_keep_to_the_budget(
    prompt: Seq<char>,
    output: Map<Seq<char>, Json>,
    config: Map<Seq<char>, Json>,
    used: u64,
    limit: u64,
)
    requires
        output.contains_pair(
            "max_tokens_configured"@,
            Json::Number(JsonNumber::PosInt(limit)),
        ),
        if holds_integer(output, "initial_tokens_used"@) {
            output["initial_tokens_used"@] == Json::Number(JsonNumber::PosInt(used))
        } else {
            used == 0
        },
    ensures
        ({
            let granted = request_for(prompt, Json::Object(output), config).max_tokens;
            let spent = used % 0x1_0000_0000;
            let allowed = limit % 0x1_0000_0000;
            &&& granted is Some
            &&& spent < allowed ==> spent + granted->0 == allowed
            &&& spent >= allowed ==> granted->0 == 10
        }),
{
}

/// Where the first call reports no limit, the closing answer is limited by the node's own
/// `max_tokens`, where that is a non-negative integer, and not at all where it is none.
pub proof fn law_closing_answers_keep_to_the_node_limit(
    prompt: Seq<char>,
    output: Json,
    config: Map<Seq<char>, Json>,
    limit: u64,
)
    requires
        output is Object ==> !holds_integer(output->Object_0, "max_tokens_configured"@),
    ensures
        config.contains_pair("max_tokens"@, Json::Number(JsonNumber::PosInt(limit)))
            ==> request_for(prompt, output, config).max_tokens == Some(
            (limit % 0x1_0000_0000) as u32,
        ),
        !holds_integer(config, "max_tokens"@) ==> request_for(
            prompt,
            output,
            config,
        ).max_tokens is None,
{
}

/// The language model is asked with the prompt as it is, and with the temperature and the `top_p`
/// of the node's configuration, each where it is a number.
pub proof fn law_requests_carry_prompt_and_settings(
    prompt: Seq<char>,
    output: Json,
    config: Map<Seq<char>, Json>,
    number: JsonNumber,
)
    ensures
        ({
            let request = request_for(prompt, output, config);
            let warm = "temperature"@;
            let top = "top_p"@;
            &&& request.prompt == prompt
            &&& request.temperature == Some(Json::Number(number)) <==> config.contains_pair(
                warm,
                Json::Number(number),
            )
            &&& request.temperature is Some ==> request.temperature->0 is Number
            &&& request.top_p == Some(Json::Number(number)) <==> config.contains_pair(
                top,
                Json::Number(number),
            )
            &&& request.top_p is Some ==> request.top_p->0 is Number
        }),
        configured_number(config, prompt) == Some(Json::Number(number)) <==> config.contains_pair(
            prompt,
            Json::Number(number),
        ),
{
}

/// An answer is handed to the guardrail as the `content` of an object with nothing else in it;
/// the text of the decoded answer is the text under `content`, whatever it and the undecoded
/// answer are, and the undecoded answer where there is no such text.
pub proof fn law_decoded_answers_are_taken(
    decoded: Json,
    entries: Map<Seq<char>, Json>,
    text: Seq<char>,
    content: Seq<char>,
)
    ensures
        content_object(content) == Json::Object(map!["content"@ => Json::Text(content)]),
        entries.contains_pair("content"@, Json::Text(text)) ==> decoded_content_of(
            Json::Object(entries),
            content,
        ) == text,
        decoded_content_of(content_object(text), content) == text,
        !(decoded is Object) || !decoded->Object_0.contains_key("content"@) || !(
        decoded->Object_0["content"@] is Text) ==> decoded_content_of(decoded, content) == content,
{
}

} // verus!
