//! What is read from values and texts, and what their contents leave in.
use crate::context::{distinct_keys, has_key, key_index, map_of, ContextView, WorkflowContext};
use crate::error::{
    optional_text, ExecutorError, ExecutorErrorView, WorkflowError, WorkflowErrorView,
};
use crate::json::{json_of, jsons_of, no_entries, Json, JsonNumber};
use crate::protocol::{Action, ActionView, Event, EventView, ModelReply};
use crate::text::{decimal, joined_lines, texts_of};
use crate::tool_calls::{
    optional_json, plans_of, FinalRequest, PendingCalls, PlannedCall,
};
use crate::workflow::{Workflow, WorkflowNode};
use serde_json::Value;
use vstd::prelude::*;

verus! {

/// A value reads as a text, a boolean, a non-negative integer or an array exactly where it is
/// one, and then as just that.
pub proof fn law_values_read_as_what_they_are(
    value: Json,
    text: Seq<char>,
    boolean: bool,
    number: u64,
    items: Seq<Json>,
)
    ensures
        value.text() == Some(text) <==> value == Json::Text(text),
        value.boolean() == Some(boolean) <==> value == Json::Bool(boolean),
        value.unsigned() == Some(number) <==> value == Json::Number(JsonNumber::PosInt(number)),
        value.array() == Some(items) <==> value == Json::Array(items),
{
}

/// The members of an object are its entries, and nothing else has members. A member reads as a
/// text, a boolean or a non-negative integer exactly where the entry is one.
pub proof fn law_members_are_entries(
    value: Json,
    key: Seq<char>,
    content: Json,
    text: Seq<char>,
    boolean: bool,
    number: u64,
)
    ensures
        value.member(key) == Some(content) <==> value is Object
            && value->Object_0.contains_pair(key, content),
        value.text_member(key) == Some(text) <==> value is Object
            && value->Object_0.contains_pair(key, Json::Text(text)),
        value.boolean_member(key) == Some(boolean) <==> value is Object
            && value->Object_0.contains_pair(key, Json::Bool(boolean)),
        value.unsigned_member(key) == Some(number) <==> value is Object
            && value->Object_0.contains_pair(key, Json::Number(JsonNumber::PosInt(number))),
        !no_entries().contains_key(key),
{
}

/// Contents stand one for one for what they are the contents of, in the same order.
pub proof fn law_contents_are_one_for_one(
    values: Seq<Value>,
    strings: Seq<String>,
    calls: Seq<PlannedCall>,
    i: int,
)
    ensures
        jsons_of(values).len() == values.len(),
        0 <= i < values.len() ==> jsons_of(values)[i] == json_of(values[i]),
        texts_of(strings).len() == strings.len(),
        0 <= i < strings.len() ==> texts_of(strings)[i] == strings[i]@,
        plans_of(calls).len() == calls.len(),
        0 <= i < calls.len() ==> plans_of(calls)[i].name == calls[i].name@,
        0 <= i < calls.len() ==> plans_of(calls)[i].parameters == json_of(calls[i].parameters),
{
}

/// The content of something optional is there exactly where the thing is.
pub proof fn law_optional_contents(value: Value, text: String)
    ensures
        optional_json(Some(value)) == Some(json_of(value)),
        optional_json(None) is None,
        optional_text(Some(text)) == Some(text@),
        optional_text(None) is None,
{
}

/// The content of a workflow holds every node, in order, under the id that it is listed under,
/// and of each node its id, name, type and configuration.
pub proof fn law_workflows_are_seen_whole(workflow: Workflow, node: WorkflowNode, i: int)
    ensures
        workflow@.len() == workflow.nodes.len(),
        0 <= i < workflow.nodes.len() ==> workflow@[i].0 == workflow.nodes[i].0@,
        0 <= i < workflow.nodes.len() ==> workflow@[i].1 == workflow.nodes[i].1@,
        node@.id == node.id@,
        node@.name == node.name@,
        node@.node_type == node.node_type,
        node@.config == node.config@,
{
}

/// The contents of pending calls and of requests hold every field.
pub proof fn law_requests_are_seen_whole(pending: PendingCalls, request: FinalRequest)
    ensures
        pending@.tool_calls == json_of(pending.tool_calls),
        pending@.original_prompt == pending.original_prompt@,
        request@.prompt == request.prompt@,
        request@.max_tokens == request.max_tokens,
        request@.temperature is Some <==> request.temperature is Some,
        request.temperature is Some ==> request@.temperature->0 == json_of(
            request.temperature->0,
        ),
        request@.top_p is Some <==> request.top_p is Some,
        request.top_p is Some ==> request@.top_p->0 == json_of(request.top_p->0),
{
}

/// The content of an action says what is to be done, and with what.
pub proof fn law_actions_are_seen_whole(
    value: Value,
    text: String,
    names: Vec<String>,
    request: FinalRequest,
    error: WorkflowError,
)
    ensures
        Action::DecodeParameters(value)@ == ActionView::DecodeParameters(json_of(value)),
        Action::DecodeAnswer(value)@ == ActionView::DecodeAnswer(json_of(value)),
        Action::EncodePrompt(text)@ == ActionView::EncodePrompt(text@),
        (Action::RunTools { calls: text, tools: names })@ is RunTools,
        (Action::RunTools { calls: text, tools: names })@->calls == text@,
        (Action::RunTools { calls: text, tools: names })@->tools.len() == names.len(),
        forall|i: int|
            0 <= i < names.len() ==> #[trigger] (Action::RunTools {
                calls: text,
                tools: names,
            })@->tools[i] == names[i]@,
        (Action::AskModel { llm_config: value, request })@ is AskModel,
        (Action::AskModel { llm_config: value, request })@->llm_config == json_of(value),
        (Action::AskModel { llm_config: value, request })@->request == request@,
        Action::Finish@ is Finish,
        Action::Fail(error)@ == ActionView::Fail(error@),
{
}

/// The content of an event says what came of an action.
pub proof fn law_events_are_seen_whole(
    value: Value,
    text: String,
    reply: ModelReply,
    response: Option<Value>,
)
    ensures
        Event::ParametersDecoded(value)@ == EventView::ParametersDecoded(json_of(value)),
        Event::AnswerDecoded(value)@ == EventView::AnswerDecoded(json_of(value)),
        Event::ToolsRan(Ok(text))@ == EventView::ToolsRan(Ok(text@)),
        Event::ToolsRan(Err(text))@ == EventView::ToolsRan(Err(text@)),
        (Event::PromptEncoded { signature: text, payload: value })@ == (EventView::PromptEncoded {
            signature: text@,
            payload: json_of(value),
        }),
        Event::ModelAnswered(reply)@ == EventView::ModelAnswered(reply@),
        ModelReply::ConfigRejected@ is ConfigRejected,
        ModelReply::ProviderUnavailable@ is ProviderUnavailable,
        ModelReply::CompletionFailed@ is CompletionFailed,
        (ModelReply::Completed { content: text, response })@ is Completed,
        (ModelReply::Completed { content: text, response })@->content == text@,
        (ModelReply::Completed { content: text, response: Some(value) })@->response == Some(
            json_of(value),
        ),
        (ModelReply::Completed { content: text, response: None })@->response is None,
{
}

/// The content of an error holds its kind and all that it says.
pub proof fn law_errors_are_seen_whole(
    a: String,
    b: String,
    c: String,
    elapsed_ms: u64,
    error: WorkflowError,
)
    ensures
        (WorkflowError::Engine { kind: a, message: b })@ == (WorkflowErrorView::Engine {
            kind: a@,
            message: b@,
        }),
        WorkflowError::WorkflowExecution(a)@ == WorkflowErrorView::WorkflowExecution(a@),
        ExecutorError::Workflow(error)@ == ExecutorErrorView::Workflow(error@),
        (ExecutorError::Timeout { operation: a, elapsed_ms, message: b })@ == (
        ExecutorErrorView::Timeout { operation: a@, elapsed_ms, message: b@ }),
        (ExecutorError::Validation { field: a, value: Some(b), message: c })@ == (
        ExecutorErrorView::Validation { field: a@, value: Some(b@), message: c@ }),
        (ExecutorError::Validation { field: a, value: None, message: b })@ == (
        ExecutorErrorView::Validation { field: a@, value: None, message: b@ }),
{
}

/// The number that decimal digits read as.
pub open spec fn number_read(digits: Seq<char>) -> int
    decreases digits.len(),
{
    if digits.len() == 0 {
        0
    } else {
        10 * number_read(digits.drop_last()) + (digits.last() as int - '0' as int)
    }
}

/// A number in decimal notation reads back as that number; it consists of digits, and does not
/// start with a zero unless it is zero.
pub proof fn law_decimals_read_back(n: nat)
    ensures
        number_read(decimal(n)) == n,
        decimal(n).len() > 0,
        forall|i: int|
            0 <= i < decimal(n).len() ==> '0' as int <= #[trigger] decimal(n)[i] as int
                <= '9' as int,
        n > 0 ==> decimal(n)[0] != '0',
        n == 0 ==> decimal(n).len() == 1,
    decreases n,
{
    if n < 10 {
        assert(decimal(n).drop_last() =~= Seq::empty());
        assert(number_read(decimal(n).drop_last()) == 0);
    } else {
        law_decimals_read_back(n / 10);
        assert(decimal(n).drop_last() =~= decimal(n / 10));
        assert forall|i: int| 0 <= i < decimal(n).len() implies '0' as int
            <= #[trigger] decimal(n)[i] as int <= '9' as int by {
            if i < decimal(n / 10).len() {
                assert(decimal(n)[i] == decimal(n / 10)[i]);
            }
        }
    }
}

/// One line is joined to itself, and two groups of lines are joined with a line break between
/// them.
pub proof fn law_lines_are_joined_by_breaks(
    line: Seq<char>,
    a: Seq<Seq<char>>,
    b: Seq<Seq<char>>,
)
    ensures
        joined_lines(seq![line]) == line,
        joined_lines(Seq::empty()).len() == 0,
        a.len() > 0 && b.len() > 0 ==> joined_lines(a + b) == joined_lines(a) + "\n"@
            + joined_lines(b),
    decreases b.len(),
{
    if a.len() > 0 && b.len() > 0 {
        assert((a + b).drop_last() =~= a + b.drop_last());
        if b.len() == 1 {
            assert(a + b.drop_last() =~= a);
        } else {
            law_lines_are_joined_by_breaks(line, a, b.drop_last());
        }
        assert(joined_lines(a + b) =~= joined_lines(a) + "\n"@ + joined_lines(b));
    }
}

/// A listing in which no key occurs twice is the map of its entries.
pub proof fn law_listings_are_maps(
    listing: Seq<(Seq<char>, Json)>,
    key: Seq<char>,
    content: Json,
)
    requires
        forall|i: int, j: int|
            #![trigger listing[i], listing[j]]
            0 <= i < j < listing.len() ==> listing[i].0 != listing[j].0,
    ensures
        map_of(listing).contains_pair(key, content) <==> listing.contains((key, content)),
        distinct_keys(listing),
        listing.contains((key, content)) ==> has_key(listing, key) && listing[key_index(
            listing,
            key,
        )] == (key, content),
        has_key(listing, key) ==> listing.contains((key, map_of(listing)[key])),
{
    if map_of(listing).contains_pair(key, content) {
        assert(has_key(listing, key));
        let i = key_index(listing, key);
        assert(listing[i] == (key, content));
    }
    if has_key(listing, key) {
        let i = key_index(listing, key);
        assert(listing[i] == (key, map_of(listing)[key]));
    }
    if listing.contains((key, content)) {
        let i = choose|i: int| 0 <= i < listing.len() && listing[i] == (key, content);
        assert(listing[i].0 == key);
        assert(has_key(listing, key));
        let j = key_index(listing, key);
        assert(listing[j].0 == key);
        assert(i == j && listing[j] == (key, content)) by {
            if i < j {
                assert(listing[i].0 != listing[j].0);
            } else if j < i {
                assert(listing[j].0 != listing[i].0);
            }
        }
    }
}

/// A context holds the outputs, the variables and the metadata of a run, apart from one another:
/// setting an entry of one sets that entry and leaves its other entries and the other two.
pub proof fn law_contexts_hold_three_maps(
    run: WorkflowContext,
    context: ContextView,
    key: Seq<char>,
    content: Json,
)
    ensures
        run@.node_outputs == run.node_outputs@,
        run@.variables == run.variables@,
        run@.metadata == run.metadata@,
        context.with_node_output(key, content).node_outputs == context.node_outputs.insert(
            key,
            content,
        ),
        context.with_node_output(key, content).variables == context.variables,
        context.with_node_output(key, content).metadata == context.metadata,
        context.with_variable(key, content).node_outputs == context.node_outputs,
        context.with_variable(key, content).variables == context.variables.insert(key, content),
        context.with_variable(key, content).metadata == context.metadata,
        context.with_metadata(key, content).node_outputs == context.node_outputs,
        context.with_metadata(key, content).variables == context.variables,
        context.with_metadata(key, content).metadata == context.metadata.insert(key, content),
{
}

} // verus!
