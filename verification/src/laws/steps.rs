//! What each step of a session does.
use crate::context::ContextView;
use crate::error::WorkflowErrorView;
use crate::json::Json;
use crate::protocol::{
    agree, ask, begun, findings_of, go_on, hand_out, handed, metadata_under, name_under,
    outputs_left, record_key, round_in, same_task, stored, take_up, tools_requested,
    with_llm_config, ActionView, DeskView, EventView, FindingsView, ModelReplyView, RoundView,
    SessionView, StageView,
};
use crate::session::printed_text;
use crate::tool_calls::{encoded_prompt_of, pending_in, request_for, results_in, PlannedView};
use crate::workflow::{node_under, NodeType, NodeView};
use vstd::prelude::*;

verus! {

/// In each stage a session waits for events of one kind, those that reply to the action of that
/// stage; a session that is over waits for none.
pub proof fn law_sessions_wait_for_replies(
    session: SessionView,
    event: EventView,
    action: ActionView,
)
    ensures
        session.awaits(event) <==> {
            ||| session.stage is Decoding && event is ParametersDecoded
            ||| session.stage is Running && event is ToolsRan
            ||| session.stage is Encoding && event is PromptEncoded
            ||| session.stage is Asking && event is ModelAnswered
            ||| session.stage is DecodingAnswer && event is AnswerDecoded
        },
        agree(session.stage, action) <==> {
            ||| session.stage is Decoding && action is DecodeParameters
            ||| session.stage is Running && action is RunTools
            ||| session.stage is Encoding && action is EncodePrompt
            ||| session.stage is Asking && action is AskModel
            ||| session.stage is DecodingAnswer && action is DecodeAnswer
            ||| session.stage is Finished && action is Finish
            ||| session.stage is Failed && action is Fail
        },
{
}

/// An output is worked on exactly where it asks for tools and a node is listed under its key,
/// and then with that node and with what it asks.
pub proof fn law_asking_outputs_are_worked_on(
    workflow: Seq<(Seq<char>, NodeView)>,
    key: Seq<char>,
    output: Json,
    round: RoundView,
)
    ensures
        round_in(workflow, (key, output)) == Some(round) <==> round.output == output && pending_in(
            output,
        ) == Some(round.pending) && node_under(workflow, key) == Some(round.node),
        round_in(workflow, (key, output)) is None <==> pending_in(output) is None || node_under(
            workflow,
            key,
        ) is None,
{
}

/// Going on takes up the next output that asks for something, and no other; where none is left,
/// the session is over. The context stays as it is.
pub proof fn law_next_asking_output_is_taken_up(desk: DeskView, i: int)
    requires
        0 <= desk.next <= i <= desk.outputs.len(),
        forall|j: int|
            desk.next <= j < i ==> round_in(desk.workflow, #[trigger] desk.outputs[j]) is None,
    ensures
        i < desk.outputs.len() ==> (round_in(desk.workflow, desk.outputs[i]) matches Some(round)
            ==> go_on(desk) == take_up(
            DeskView {
                workflow: desk.workflow,
                outputs: desk.outputs,
                guarded: desk.guarded,
                next: i + 1,
                context: desk.context,
            },
            round,
        )),
        i == desk.outputs.len() ==> go_on(desk).0.stage is Finished && go_on(desk).1 is Finish
            && go_on(desk).0.desk.context == desk.context,
    decreases i - desk.next,
{
    if desk.next < i {
        assert(round_in(desk.workflow, desk.outputs[desk.next]) is None);
        law_next_asking_output_is_taken_up(DeskView { next: desk.next + 1, ..desk }, i);
    }
}

/// A session begins with the first output, on the context as it is.
pub proof fn law_sessions_begin_with_the_first_output(
    workflow: Seq<(Seq<char>, NodeView)>,
    outputs: Seq<(Seq<char>, Json)>,
    guarded: bool,
    context: ContextView,
)
    ensures
        begun(workflow, outputs, guarded, context) == go_on(
            DeskView { workflow, outputs, guarded, next: 0, context },
        ),
{
}

/// The calls of an output that is taken up go to the tools at once; with a guardrail, the
/// parameters of the first are decoded before, where there are any calls.
pub proof fn law_outputs_are_taken_up(desk: DeskView, round: RoundView)
    ensures
        !desk.guarded || round.calls().len() == 0 ==> take_up(desk, round) == hand_out(
            desk,
            round,
            round.calls(),
        ),
        desk.guarded && round.calls().len() > 0 ==> {
            let (session, action) = take_up(desk, round);
            &&& session.desk == desk
            &&& session.stage is Decoding
            &&& session.stage->Decoding_round == round
            &&& session.stage->decoded.len() == 0
            &&& action == ActionView::DecodeParameters(round.calls()[0].parameters)
        },
{
}

/// Decoded parameters go into the call whose turn it is, under its name; then it is the turn of
/// the next call, and when all are decoded, all of them go to the tools.
pub proof fn law_calls_are_decoded_in_turn(
    session: SessionView,
    round: RoundView,
    decoded: Seq<PlannedView>,
    parameters: Json,
)
    requires
        session.stage == (StageView::Decoding { round, decoded }),
        decoded.len() < round.calls().len(),
    ensures
        ({
            let turn = decoded.len() as int;
            let done = decoded + seq![
                PlannedView { name: round.calls()[turn].name, parameters },
            ];
            let (next, action) = session.step(EventView::ParametersDecoded(parameters));
            &&& turn + 1 < round.calls().len() ==> {
                &&& next.desk == session.desk
                &&& next.stage == (StageView::Decoding { round, decoded: done })
                &&& action == ActionView::DecodeParameters(round.calls()[turn + 1].parameters)
            }
            &&& turn + 1 == round.calls().len() ==> (next, action) == hand_out(
                session.desk,
                round,
                done,
            )
        }),
{
    let turn = decoded.len() as int;
    let call = PlannedView { name: round.calls()[turn].name, parameters };
    assert(decoded.push(call) =~= decoded + seq![call]);
}

/// When the tools have run, their results make the prompt; without a guardrail the language
/// model is asked with it at once, with one it is encoded before.
pub proof fn law_results_make_the_prompt(
    session: SessionView,
    round: RoundView,
    text: Seq<char>,
    results: Seq<Json>,
)
    requires
        session.stage == (StageView::Running { round }),
    ensures
        ({
            let findings = findings_of(round, results);
            let (next, action) = session.with_results(results);
            &&& session.desk.guarded ==> {
                &&& next.desk == session.desk
                &&& next.stage == (StageView::Encoding { round, findings })
                &&& action == ActionView::EncodePrompt(findings.prompt)
            }
            &&& !session.desk.guarded ==> (next, action) == ask(
                session.desk,
                round,
                findings,
                findings.prompt,
            )
        }),
        session.step(EventView::ToolsRan(Ok(text))) == session.with_results(results_in(text)),
{
}

/// Where the tools fail, the session fails with their error.
pub proof fn law_failing_tools_are_told_of(session: SessionView, error: Seq<char>)
    requires
        session.stage is Running,
    ensures
        session.step(EventView::ToolsRan(Err(error))).1 == ActionView::Fail(
            WorkflowErrorView::WorkflowExecution("Failed to execute tools: "@ + error),
        ),
        session.step(EventView::ToolsRan(Err(error))).0.desk == session.desk,
        session.step(EventView::ToolsRan(Err(error))).0.stage is Failed,
{
}

/// What is to be done with calls that could be printed is to run them with the tools; calls that
/// could not be printed fail the session with the reason.
pub proof fn law_printed_calls_are_run(
    desk: DeskView,
    round: RoundView,
    text: Seq<char>,
    tools: Seq<Seq<char>>,
    printed: String,
)
    ensures
        tools_requested(Ok(text), tools) == (ActionView::RunTools { calls: text, tools }),
        tools_requested(Err(text), tools) == ActionView::Fail(
            WorkflowErrorView::WorkflowExecution("Failed to serialize tool calls: "@ + text),
        ),
        handed(desk, round, Ok(text)).0.stage == (StageView::Running { round }),
        handed(desk, round, Ok(text)).0.desk == desk,
        handed(desk, round, Ok(text)).1 == (ActionView::RunTools {
            calls: text,
            tools: round.node.tools(),
        }),
        handed(desk, round, Err(text)).0.stage is Failed,
        handed(desk, round, Err(text)).0.desk == desk,
        handed(desk, round, Err(text)).1 is Fail,
        printed_text(Ok(printed)) == Ok::<Seq<char>, Seq<char>>(printed@),
        printed_text(Err(printed)) == Err::<Seq<char>, Seq<char>>(printed@),
{
}

/// An encoded prompt is what the language model is asked with.
pub proof fn law_encoded_prompts_are_asked_with(
    session: SessionView,
    round: RoundView,
    findings: FindingsView,
    signature: Seq<char>,
    payload: Json,
)
    requires
        session.stage == (StageView::Encoding { round, findings }),
    ensures
        session.step(EventView::PromptEncoded { signature, payload }) == ask(
            session.desk,
            round,
            findings,
            encoded_prompt_of(signature, payload),
        ),
{
}

/// For an agent, the language model is asked, with the configuration that the context keeps and
/// the request that the output and the node's configuration make of the prompt. Where the context
/// keeps none, the report on the results becomes the node's output; and for a node that is no
/// agent, nothing is asked and nothing changes.
pub proof fn law_agents_ask_the_model(
    desk: DeskView,
    round: RoundView,
    findings: FindingsView,
    prompt: Seq<char>,
    llm_config: Json,
)
    ensures
        round.node.node_type == NodeType::Agent && desk.context.metadata.contains_pair(
            "llm_config"@,
            llm_config,
        ) ==> {
            let (session, action) = ask(desk, round, findings, prompt);
            &&& session.desk == desk
            &&& session.stage == (StageView::Asking { round, findings })
            &&& action == (ActionView::AskModel {
                llm_config,
                request: request_for(prompt, round.output, round.node.config),
            })
        },
        round.node.node_type == NodeType::Agent && !desk.context.metadata.contains_key(
            "llm_config"@,
        ) ==> ask(desk, round, findings, prompt) == go_on(with_summary(desk, round, findings)),
        round.node.node_type != NodeType::Agent ==> ask(desk, round, findings, prompt) == go_on(
            desk,
        ),
{
}

/// A desk on whose context the report on the results is the output of the round's node.
pub open spec fn with_summary(
    desk: DeskView,
    round: RoundView,
    findings: FindingsView,
) -> DeskView {
    DeskView {
        workflow: desk.workflow,
        outputs: desk.outputs,
        guarded: desk.guarded,
        next: desk.next,
        context: ContextView {
            node_outputs: desk.context.node_outputs.insert(
                round.node.id,
                Json::Text(findings.summary),
            ),
            variables: desk.context.variables,
            metadata: desk.context.metadata,
        },
    }
}

/// Without a guardrail, the text of an answer is stored as it came, and the session goes on; where
/// no answer came, for whatever reason, the report on the results becomes the node's output.
pub proof fn law_answers_are_stored(
    session: SessionView,
    round: RoundView,
    findings: FindingsView,
    content: Seq<char>,
    response: Option<Json>,
    reply: ModelReplyView,
)
    requires
        session.stage == (StageView::Asking { round, findings }),
    ensures
        !session.desk.guarded ==> session.step(
            EventView::ModelAnswered(ModelReplyView::Completed { content, response }),
        ) == go_on(
            DeskView {
                workflow: session.desk.workflow,
                outputs: session.desk.outputs,
                guarded: session.desk.guarded,
                next: session.desk.next,
                context: stored(
                    session.desk.context,
                    session.desk.workflow,
                    round,
                    findings,
                    content,
                    response,
                ),
            },
        ),
        !(reply is Completed) ==> session.step(EventView::ModelAnswered(reply)) == go_on(
            with_summary(session.desk, round, findings),
        ),
{
}

/// With a guardrail, an answer is kept beside what it answers until it is decoded; then the
/// decoded text is stored, and the session goes on.
pub proof fn law_answers_wait_for_the_guardrail(
    session: SessionView,
    round: RoundView,
    findings: FindingsView,
    content: Seq<char>,
    response: Option<Json>,
    text: Seq<char>,
)
    requires
        session.stage == (StageView::Asking { round, findings }),
        session.desk.guarded,
    ensures
        ({
            let (next, action) = session.step(
                EventView::ModelAnswered(ModelReplyView::Completed { content, response }),
            );
            &&& next.stage == (StageView::DecodingAnswer { round, findings, content, response })
            &&& next.desk == session.desk
            &&& action == ActionView::DecodeAnswer(
                Json::Object(map!["content"@ => Json::Text(content)]),
            )
            &&& next.step(
                EventView::AnswerDecoded(Json::Object(map!["content"@ => Json::Text(text)])),
            ) == go_on(
                DeskView {
                    workflow: session.desk.workflow,
                    outputs: session.desk.outputs,
                    guarded: session.desk.guarded,
                    next: session.desk.next,
                    context: stored(
                        session.desk.context,
                        session.desk.workflow,
                        round,
                        findings,
                        text,
                        response,
                    ),
                },
            )
        }),
{
}

/// The configuration of the language model is kept under `llm_config`, where it has a JSON form,
/// and nothing else of the context changes.
pub proof fn law_configuration_is_put_by(context: ContextView, llm_config: Json)
    ensures
        with_llm_config(context, Some(llm_config)).metadata == context.metadata.insert(
            "llm_config"@,
            llm_config,
        ),
        with_llm_config(context, Some(llm_config)).node_outputs == context.node_outputs,
        with_llm_config(context, Some(llm_config)).variables == context.variables,
        with_llm_config(context, None) == context,
{
}

/// A node goes by the name of the first node that is listed under its id; its record is kept
/// under `node_response_` and the id or the name.
pub proof fn law_names_and_keys(
    workflow: Seq<(Seq<char>, NodeView)>,
    id: Seq<char>,
    name: Seq<char>,
    node: NodeView,
    context: ContextView,
    content: Json,
)
    ensures
        node_under(workflow, id) == Some(node) ==> name_under(workflow, id) == Some(node.name),
        node_under(workflow, id) is None ==> name_under(workflow, id) is None,
        record_key(name) == "node_response_"@ + name,
        metadata_under(context, name) == Some(content) <==> context.metadata.contains_pair(
            name,
            content,
        ),
{
}

/// Putting another context on a desk changes nothing else on it. Two desks have the same task
/// where they have the same workflow, outputs and guardrail; what is left of it are the outputs
/// from the next on.
pub proof fn law_desks_hold_a_task(a: DeskView, b: DeskView, context: ContextView)
    ensures
        a.with_context(context).context == context,
        a.with_context(context).workflow == a.workflow,
        a.with_context(context).outputs == a.outputs,
        a.with_context(context).guarded == a.guarded,
        a.with_context(context).next == a.next,
        same_task(a, b) <==> a.workflow == b.workflow && a.outputs == b.outputs && a.guarded
            == b.guarded,
        0 <= a.next <= a.outputs.len() ==> a.next + outputs_left(a) == a.outputs.len(),
{
}

} // verus!
