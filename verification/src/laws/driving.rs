//! Driving a session to its end.
use crate::context::ContextView;
use crate::error::WorkflowErrorView;
use crate::json::Json;
use crate::protocol::{
    ask, begun, findings_of, go_on, hand_out, kept_summary, lemma_go_on, lemma_step_agrees,
    metadata_under, outputs_left, round_in, same_task, stored, take_up, ActionView, DeskView,
    EventView, ModelReplyView, RoundView, SessionView, StageView,
};
use crate::tool_calls::{decoded_content_of, encoded_prompt_of, results_in, PlannedView};
use crate::workflow::{NodeType, NodeView};
use vstd::prelude::*;

verus! {

/// What the outside work for one output comes to.
pub struct Replies {
    /// The decoded parameters, call by call.
    pub decoded: Seq<Json>,
    pub tools: Result<Seq<char>, Seq<char>>,
    pub signature: Seq<char>,
    pub payload: Json,
    pub model: ModelReplyView,
    pub answer: Json,
}

/// The reply that a session is waiting for.
pub open spec fn reply_to(session: SessionView, replies: spec_fn(int) -> Replies) -> EventView {
    let own = replies(session.desk.next - 1);
    match session.stage {
        StageView::Decoding { decoded, .. } => EventView::ParametersDecoded(
            own.decoded[decoded.len() as int],
        ),
        StageView::Running { .. } => EventView::ToolsRan(own.tools),
        StageView::Encoding { .. } => EventView::PromptEncoded {
            signature: own.signature,
            payload: own.payload,
        },
        StageView::Asking { .. } => EventView::ModelAnswered(own.model),
        _ => EventView::AnswerDecoded(own.answer),
    }
}

/// How many kinds of replies a stage is away from the end of its output.
pub open spec fn rank(stage: StageView) -> nat {
    match stage {
        StageView::Decoding { .. } => 5,
        StageView::Running { .. } => 4,
        StageView::Encoding { .. } => 3,
        StageView::Asking { .. } => 2,
        StageView::DecodingAnswer { .. } => 1,
        StageView::Finished => 0,
        StageView::Failed => 0,
    }
}

/// How many calls still wait for their parameters.
pub open spec fn calls_left(stage: StageView) -> nat {
    match stage {
        StageView::Decoding { round, decoded } => if decoded.len() < round.calls().len() {
            (round.calls().len() - decoded.len()) as nat
        } else {
            0
        },
        _ => 0,
    }
}

/// Whether the first session is nearer to its end than the second.
pub open spec fn nearer(a: SessionView, b: SessionView) -> bool {
    ||| outputs_left(a.desk) < outputs_left(b.desk)
    ||| outputs_left(a.desk) == outputs_left(b.desk) && rank(a.stage) < rank(b.stage)
    ||| outputs_left(a.desk) == outputs_left(b.desk) && rank(a.stage) == rank(b.stage)
        && calls_left(a.stage) < calls_left(b.stage)
}

/// Every awaited event brings a session nearer to its end: no session goes on for ever,
/// whatever tools, guardrail and language model reply.
pub proof fn law_sessions_end(session: SessionView, event: EventView)
    requires
        session.awaits(event),
    ensures
        nearer(session.step(event).0, session),
{
    let desk = session.desk;
    match (session.stage, event) {
        (StageView::Running { round }, EventView::ToolsRan(Ok(text))) => {
            let findings = findings_of(round, results_in(text));
            lemma_go_on(desk);
            lemma_go_on(desk.with_context(kept_summary(desk.context, round, findings)));
        },
        (StageView::Encoding { round, findings }, _) => {
            lemma_go_on(desk);
            lemma_go_on(desk.with_context(kept_summary(desk.context, round, findings)));
        },
        (
            StageView::Asking { round, findings },
            EventView::ModelAnswered(ModelReplyView::Completed { content, response }),
        ) => {
            lemma_go_on(
                desk.with_context(
                    stored(desk.context, desk.workflow, round, findings, content, response),
                ),
            );
        },
        (StageView::Asking { round, findings }, _) => {
            lemma_go_on(desk.with_context(kept_summary(desk.context, round, findings)));
        },
        (
            StageView::DecodingAnswer { round, findings, content, response },
            EventView::AnswerDecoded(decoded),
        ) => {
            lemma_go_on(
                desk.with_context(
                    stored(
                        desk.context,
                        desk.workflow,
                        round,
                        findings,
                        decoded_content_of(decoded, content),
                        response,
                    ),
                ),
            );
        },
        _ => {},
    }
}

/// What a session comes to when every action is performed and its reply handed back: the final
/// context, or the error it fails with.
pub open spec fn driven(
    session: SessionView,
    action: ActionView,
    replies: spec_fn(int) -> Replies,
) -> Result<ContextView, WorkflowErrorView>
    decreases outputs_left(session.desk), rank(session.stage), calls_left(session.stage),
{
    match session.stage {
        StageView::Finished => Ok(session.desk.context),
        StageView::Failed => match action {
            ActionView::Fail(error) => Err(error),
            _ => Ok(session.desk.context),
        },
        _ => {
            proof {
                law_sessions_end(session, reply_to(session, replies));
            }
            let (next, following) = session.step(reply_to(session, replies));
            driven(next, following, replies)
        },
    }
}

/// The calls that the tools are handed: with a guardrail, each with its decoded parameters.
pub open spec fn calls_for_tools(
    guarded: bool,
    round: RoundView,
    decoded: Seq<Json>,
) -> Seq<PlannedView> {
    if guarded {
        Seq::new(
            round.calls().len(),
            |i: int| PlannedView { name: round.calls()[i].name, parameters: decoded[i] },
        )
    } else {
        round.calls()
    }
}

/// What carrying out the calls of one output comes to: the context with the closing answer, with
/// the report on the tools' results where no closing answer can be had, unchanged where the node
/// is no agent; or the error that ends everything.
pub open spec fn carried_out(
    workflow: Seq<(Seq<char>, NodeView)>,
    guarded: bool,
    context: ContextView,
    round: RoundView,
    replies: Replies,
) -> Result<ContextView, WorkflowErrorView> {
    match replies.tools {
        Err(error) => Err(
            WorkflowErrorView::WorkflowExecution("Failed to execute tools: "@ + error),
        ),
        Ok(text) => {
            let findings = findings_of(round, results_in(text));
            if round.node.node_type != NodeType::Agent {
                Ok(context)
            } else if metadata_under(context, "llm_config"@) is None {
                Ok(kept_summary(context, round, findings))
            } else {
                match replies.model {
                    ModelReplyView::Completed { content, response } => Ok(
                        stored(
                            context,
                            workflow,
                            round,
                            findings,
                            if guarded {
                                decoded_content_of(replies.answer, content)
                            } else {
                                content
                            },
                            response,
                        ),
                    ),
                    _ => Ok(kept_summary(context, round, findings)),
                }
            }
        },
    }
}

/// What carrying out the calls of all outputs comes to, from the `next`-th on, one output after
/// the other.
pub open spec fn all_carried_out(desk: DeskView, replies: spec_fn(int) -> Replies) -> Result<
    ContextView,
    WorkflowErrorView,
>
    decreases desk.outputs.len() - desk.next,
{
    if desk.next < 0 || desk.next >= desk.outputs.len() {
        Ok(desk.context)
    } else {
        let after = DeskView { next: desk.next + 1, ..desk };
        match round_in(desk.workflow, desk.outputs[desk.next]) {
            None => all_carried_out(after, replies),
            Some(round) => match carried_out(
                desk.workflow,
                desk.guarded,
                desk.context,
                round,
                replies(desk.next),
            ) {
                Ok(context) => all_carried_out(after.with_context(context), replies),
                Err(error) => Err(error),
            },
        }
    }
}

/// Decoding the calls one after the other leads to the tools with all of them decoded.
proof fn lemma_decoding(
    desk: DeskView,
    round: RoundView,
    decoded: Seq<PlannedView>,
    action: ActionView,
    replies: spec_fn(int) -> Replies,
)
    requires
        desk.guarded,
        decoded.len() < round.calls().len(),
        decoded == calls_for_tools(true, round, replies(desk.next - 1).decoded).take(
            decoded.len() as int,
        ),
    ensures
        ({
            let session = SessionView { desk, stage: StageView::Decoding { round, decoded } };
            let (running, request) = hand_out(
                desk,
                round,
                calls_for_tools(true, round, replies(desk.next - 1).decoded),
            );
            driven(session, action, replies) == driven(running, request, replies)
        }),
    decreases round.calls().len() - decoded.len(),
{
    let all = calls_for_tools(true, round, replies(desk.next - 1).decoded);
    let session = SessionView { desk, stage: StageView::Decoding { round, decoded } };
    let event = reply_to(session, replies);
    let (next, following) = session.step(event);
    let done = decoded.push(all[decoded.len() as int]);
    assert(done =~= all.take(done.len() as int));
    if done.len() < round.calls().len() {
        lemma_decoding(desk, round, done, following, replies);
    } else {
        assert(done =~= all);
    }
    assert(driven(session, action, replies) == driven(next, following, replies));
}

/// From the moment at which the tools run, driving a session carries out the rest of the output
/// and goes on.
proof fn lemma_running(
    desk: DeskView,
    round: RoundView,
    action: ActionView,
    replies: spec_fn(int) -> Replies,
)
    ensures
        ({
            let session = SessionView { desk, stage: StageView::Running { round } };
            let outcome = carried_out(
                desk.workflow,
                desk.guarded,
                desk.context,
                round,
                replies(desk.next - 1),
            );
            match outcome {
                Ok(context) => {
                    let (next, following) = go_on(desk.with_context(context));
                    driven(session, action, replies) == driven(next, following, replies)
                },
                Err(error) => driven(session, action, replies) == Err::<
                    ContextView,
                    WorkflowErrorView,
                >(error),
            }
        }),
{
    let own = replies(desk.next - 1);
    let session = SessionView { desk, stage: StageView::Running { round } };
    let (second, request) = session.step(reply_to(session, replies));
    assert(driven(session, action, replies) == driven(second, request, replies));
    match own.tools {
        Err(error) => {},
        Ok(text) => {
            let findings = findings_of(round, results_in(text));
            assert(desk.with_context(desk.context) == desk);
            let prompt = if desk.guarded {
                encoded_prompt_of(own.signature, own.payload)
            } else {
                findings.prompt
            };
            let (third, asking) = ask(desk, round, findings, prompt);
            if desk.guarded {
                assert(second.step(reply_to(second, replies)) == (third, asking));
                assert(driven(second, request, replies) == driven(third, asking, replies));
            }
            if third.stage == (StageView::Asking { round, findings }) && round.node.node_type
                == NodeType::Agent && metadata_under(desk.context, "llm_config"@) is Some {
                let (fourth, following) = third.step(reply_to(third, replies));
                assert(driven(third, asking, replies) == driven(fourth, following, replies));
                if desk.guarded && own.model is Completed {
                    let (fifth, last) = fourth.step(reply_to(fourth, replies));
                    assert(driven(fourth, following, replies) == driven(fifth, last, replies));
                }
            }
        },
    }
}

/// Driving a session from the moment at which it goes on carries out all that is left.
proof fn lemma_going_on(desk: DeskView, replies: spec_fn(int) -> Replies)
    requires
        0 <= desk.next,
    ensures
        driven(go_on(desk).0, go_on(desk).1, replies) == all_carried_out(desk, replies),
    decreases desk.outputs.len() - desk.next,
{
    if desk.next < desk.outputs.len() {
        let after = DeskView { next: desk.next + 1, ..desk };
        match round_in(desk.workflow, desk.outputs[desk.next]) {
            None => {
                lemma_going_on(after, replies);
            },
            Some(round) => {
                let own = replies(desk.next);
                let calls = calls_for_tools(desk.guarded, round, own.decoded);
                let (running, request) = hand_out(after, round, calls);
                let (first, action) = take_up(after, round);
                if desk.guarded && round.calls().len() > 0 {
                    assert(calls.take(0) =~= Seq::empty());
                    lemma_decoding(after, round, Seq::empty(), action, replies);
                } else {
                    assert(calls =~= round.calls());
                }
                assert(driven(first, action, replies) == driven(running, request, replies));
                lemma_running(after, round, request, replies);
                let outcome = carried_out(
                    desk.workflow,
                    desk.guarded,
                    desk.context,
                    round,
                    own,
                );
                if let Ok(context) = outcome {
                    lemma_going_on(after.with_context(context), replies);
                }
            },
        }
    }
}

/// Driving a session to its end, whatever tools, guardrail and language model reply, carries out
/// the calls of every output in turn, each once, as the outputs were when the session began; the
/// first failure ends everything.
pub proof fn law_driving_carries_out_everything(
    workflow: Seq<(Seq<char>, NodeView)>,
    outputs: Seq<(Seq<char>, Json)>,
    guarded: bool,
    context: ContextView,
    replies: spec_fn(int) -> Replies,
)
    ensures
        ({
            let (session, action) = begun(workflow, outputs, guarded, context);
            driven(session, action, replies) == all_carried_out(
                DeskView { workflow, outputs, guarded, next: 0, context },
                replies,
            )
        }),
{
    lemma_going_on(DeskView { workflow, outputs, guarded, next: 0, context }, replies);
}

/// A session keeps the workflow, the outputs and the guardrail that it began with, whatever
/// becomes of them elsewhere in the meantime.
pub proof fn law_sessions_keep_their_task(session: SessionView, event: EventView)
    requires
        session.awaits(event),
    ensures
        same_task(session.step(event).0.desk, session.desk),
{
    lemma_step_agrees(session, event);
}

/// No session fails but where the tools fail: it does not fail as it begins, and no other event
/// makes it fail.
pub proof fn law_only_failing_tools_fail_a_session(
    workflow: Seq<(Seq<char>, NodeView)>,
    outputs: Seq<(Seq<char>, Json)>,
    guarded: bool,
    context: ContextView,
    session: SessionView,
    event: EventView,
)
    requires
        session.awaits(event),
    ensures
        !(begun(workflow, outputs, guarded, context).1 is Fail),
        session.step(event).1 is Fail <==> event is ToolsRan && event->ToolsRan_0 is Err,
{
    lemma_go_on(DeskView { workflow, outputs, guarded, next: 0, context });
    lemma_step_agrees(session, event);
}

/// Everything is carried out exactly where the tools run for every output that asks for them.
pub proof fn law_everything_is_carried_out(desk: DeskView, replies: spec_fn(int) -> Replies)
    requires
        0 <= desk.next,
    ensures
        all_carried_out(desk, replies) is Ok <==> forall|i: int|
            desk.next <= i < desk.outputs.len() && round_in(
                desk.workflow,
                #[trigger] desk.outputs[i],
            ) is Some ==> replies(i).tools is Ok,
    decreases desk.outputs.len() - desk.next,
{
    if desk.next < desk.outputs.len() {
        let after = DeskView { next: desk.next + 1, ..desk };
        match round_in(desk.workflow, desk.outputs[desk.next]) {
            None => {
                law_everything_is_carried_out(after, replies);
            },
            Some(round) => {
                if let Ok(context) = carried_out(
                    desk.workflow,
                    desk.guarded,
                    desk.context,
                    round,
                    replies(desk.next),
                ) {
                    law_everything_is_carried_out(after.with_context(context), replies);
                }
            },
        }
    }
}

} // verus!
