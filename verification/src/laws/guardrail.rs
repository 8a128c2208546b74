//! What the guardrail sees, and what is kept from it.
use crate::context::ContextView;
use crate::json::Json;
use crate::laws::driving::calls_for_tools;
use crate::protocol::{
    begun, findings_of, go_on, hand_out, kept_summary, lemma_go_on, stored, take_up,
    ActionView, DeskView, EventView, ModelReplyView, RoundView, SessionView, StageView,
};
use crate::tool_calls::{
    content_object, decoded_content_of, encoded_prompt_of, final_prompt_of,
    results_in, summary_of,
};
use crate::workflow::NodeView;
use vstd::prelude::*;

verus! {

/// Whether an action is work for the guardrail.
pub open spec fn for_guardrail(action: ActionView) -> bool {
    action is DecodeParameters || action is EncodePrompt || action is DecodeAnswer
}

/// Whether a session in this stage waits for the guardrail.
pub open spec fn at_guardrail(stage: StageView) -> bool {
    stage is Decoding || stage is Encoding || stage is DecodingAnswer
}

proof fn lemma_go_on_unguarded(desk: DeskView)
    requires
        !desk.guarded,
    ensures
        !at_guardrail(go_on(desk).0.stage),
        !for_guardrail(go_on(desk).1),
{
    lemma_go_on(desk);
}

/// Without a guardrail, no session begins with work for one.
pub proof fn law_no_guardrail_at_the_beginning(
    workflow: Seq<(Seq<char>, NodeView)>,
    outputs: Seq<(Seq<char>, Json)>,
    context: ContextView,
)
    ensures
        !at_guardrail(begun(workflow, outputs, false, context).0.stage),
        !for_guardrail(begun(workflow, outputs, false, context).1),
{
    lemma_go_on_unguarded(DeskView { workflow, outputs, guarded: false, next: 0, context });
}

/// Without a guardrail, no step asks for work of one.
pub proof fn law_no_guardrail_ever(session: SessionView, event: EventView)
    requires
        !session.desk.guarded,
        !at_guardrail(session.stage),
        session.awaits(event),
    ensures
        !session.step(event).0.desk.guarded,
        !at_guardrail(session.step(event).0.stage),
        !for_guardrail(session.step(event).1),
{
    let desk = session.desk;
    match (session.stage, event) {
        (StageView::Running { round }, EventView::ToolsRan(Ok(text))) => {
            let findings = findings_of(round, results_in(text));
            let kept = desk.with_context(kept_summary(desk.context, round, findings));
            lemma_go_on_unguarded(desk);
            lemma_go_on(desk);
            lemma_go_on_unguarded(kept);
            lemma_go_on(kept);
        },
        (
            StageView::Asking { round, findings },
            EventView::ModelAnswered(ModelReplyView::Completed { content, response }),
        ) => {
            let after = desk.with_context(
                stored(desk.context, desk.workflow, round, findings, content, response),
            );
            lemma_go_on_unguarded(after);
            lemma_go_on(after);
        },
        (StageView::Asking { round, findings }, _) => {
            let kept = desk.with_context(kept_summary(desk.context, round, findings));
            lemma_go_on_unguarded(kept);
            lemma_go_on(kept);
        },
        _ => {},
    }
}

/// With a guardrail, the language model is asked only with a prompt that the guardrail has just
/// encoded.
pub proof fn law_prompts_are_encoded(session: SessionView, event: EventView)
    requires
        session.desk.guarded,
        session.awaits(event),
        session.step(event).1 is AskModel,
    ensures
        event matches EventView::PromptEncoded { signature, payload } && session.step(
            event,
        ).1->request.prompt == encoded_prompt_of(signature, payload),
{
    let desk = session.desk;
    match (session.stage, event) {
        (StageView::Encoding { round, findings }, _) => {
            lemma_go_on(desk);
            lemma_go_on(desk.with_context(kept_summary(desk.context, round, findings)));
        },
        (
            StageView::Asking { round, findings },
            EventView::ModelAnswered(ModelReplyView::Completed { content, response }),
        ) => {},
        (StageView::Asking { round, findings }, _) => {
            lemma_go_on(desk.with_context(kept_summary(desk.context, round, findings)));
        },
        (
            StageView::DecodingAnswer { round, findings, content, response },
            EventView::AnswerDecoded(decoded),
        ) => {
            lemma_go_on(
                desk.with_context(
                    stored(
                        desk.context,
                        desk.workflow,
                        round,
                        findings,
                        decoded_content_of(decoded, content),
                        response,
                    ),
                ),
            );
        },
        _ => {},
    }
}

/// No session begins by asking the language model.
pub proof fn law_no_prompt_at_the_beginning(
    workflow: Seq<(Seq<char>, NodeView)>,
    outputs: Seq<(Seq<char>, Json)>,
    guarded: bool,
    context: ContextView,
)
    ensures
        !(begun(workflow, outputs, guarded, context).1 is AskModel),
{
    lemma_go_on(DeskView { workflow, outputs, guarded, next: 0, context });
}

/// With a guardrail, what the tools report goes into the prompt as it is, and only the whole
/// prompt is encoded: nothing is encoded between the tools and the prompt.
pub proof fn law_results_are_not_encoded(session: SessionView, text: Seq<char>)
    requires
        session.desk.guarded,
        session.stage is Running,
    ensures
        session.step(EventView::ToolsRan(Ok(text))).1 == ActionView::EncodePrompt(
            final_prompt_of(
                session.stage->Running_round.pending.original_prompt,
                summary_of(results_in(text)),
            ),
        ),
{
}

/// With a guardrail, every answer of the language model is decoded before anything is stored, and
/// the decoded text is what the node's output becomes. The record of the answer keeps it as it
/// came.
pub proof fn law_answers_are_decoded(
    session: SessionView,
    content: Seq<char>,
    response: Option<Json>,
    decoded: Json,
)
    requires
        session.desk.guarded,
        session.stage is Asking,
    ensures
        ({
            let event = EventView::ModelAnswered(ModelReplyView::Completed { content, response });
            let (next, action) = session.step(event);
            &&& action == ActionView::DecodeAnswer(content_object(content))
            &&& next.desk == session.desk
            &&& next.step(EventView::AnswerDecoded(decoded)) == go_on(
                session.desk.with_context(
                    stored(
                        session.desk.context,
                        session.desk.workflow,
                        session.stage->Asking_round,
                        session.stage->Asking_findings,
                        decoded_content_of(decoded, content),
                        response,
                    ),
                ),
            )
        }),
{
}

/// A session after several events, and the last action it gave.
pub open spec fn after_events(
    session: SessionView,
    action: ActionView,
    events: Seq<EventView>,
) -> (SessionView, ActionView)
    decreases events.len(),
{
    if events.len() == 0 {
        (session, action)
    } else {
        let (next, following) = session.step(events[0]);
        after_events(next, following, events.drop_first())
    }
}

/// The events that hand back decoded parameters.
pub open spec fn decoding_events(decoded: Seq<Json>) -> Seq<EventView> {
    decoded.map_values(|parameters: Json| EventView::ParametersDecoded(parameters))
}

proof fn lemma_decoded(
    desk: DeskView,
    round: RoundView,
    decoded: Seq<Json>,
    done: int,
    action: ActionView,
)
    requires
        desk.guarded,
        decoded.len() == round.calls().len(),
        0 <= done < decoded.len(),
    ensures
        after_events(
            SessionView {
                desk,
                stage: StageView::Decoding {
                    round,
                    decoded: calls_for_tools(true, round, decoded).take(done),
                },
            },
            action,
            decoding_events(decoded).skip(done),
        ) == hand_out(desk, round, calls_for_tools(true, round, decoded)),
    decreases decoded.len() - done,
{
    let all = calls_for_tools(true, round, decoded);
    let events = decoding_events(decoded);
    let session = SessionView {
        desk,
        stage: StageView::Decoding { round, decoded: all.take(done) },
    };
    assert(events.skip(done)[0] == events[done]);
    assert(events.skip(done).drop_first() =~= events.skip(done + 1));
    assert(all.take(done).push(all[done]) =~= all.take(done + 1));
    let (next, following) = session.step(events[done]);
    if done + 1 < decoded.len() {
        lemma_decoded(desk, round, decoded, done + 1, following);
    } else {
        assert(all.take(done + 1) =~= all);
        assert(after_events(next, following, events.skip(done + 1)) == (next, following));
    }
}

proof fn lemma_partly_decoded(
    desk: DeskView,
    round: RoundView,
    decoded: Seq<Json>,
    done: int,
    until: int,
)
    requires
        desk.guarded,
        decoded.len() == round.calls().len(),
        0 <= done <= until < decoded.len(),
    ensures
        after_events(
            SessionView {
                desk,
                stage: StageView::Decoding {
                    round,
                    decoded: calls_for_tools(true, round, decoded).take(done),
                },
            },
            ActionView::DecodeParameters(round.calls()[done].parameters),
            decoding_events(decoded).subrange(done, until),
        ).1 == ActionView::DecodeParameters(round.calls()[until].parameters),
    decreases until - done,
{
    let all = calls_for_tools(true, round, decoded);
    let events = decoding_events(decoded).subrange(done, until);
    if done < until {
        assert(events[0] == decoding_events(decoded)[done]);
        assert(events.drop_first() =~= decoding_events(decoded).subrange(done + 1, until));
        assert(all.take(done).push(all[done]) =~= all.take(done + 1));
        lemma_partly_decoded(desk, round, decoded, done + 1, until);
    }
}

/// With a guardrail, the tools are handed each call with its parameters as the guardrail decoded
/// them, and only when those of all calls are decoded.
pub proof fn law_tools_see_decoded_parameters(
    desk: DeskView,
    round: RoundView,
    decoded: Seq<Json>,
)
    requires
        desk.guarded,
        decoded.len() == round.calls().len(),
    ensures
        ({
            let (session, action) = take_up(desk, round);
            &&& after_events(session, action, decoding_events(decoded)) == hand_out(
                desk,
                round,
                calls_for_tools(true, round, decoded),
            )
            &&& forall|k: int|
                0 <= k < decoded.len() ==> (#[trigger] after_events(
                    session,
                    action,
                    decoding_events(decoded).take(k),
                )).1 == ActionView::DecodeParameters(round.calls()[k].parameters)
        }),
{
    let (session, action) = take_up(desk, round);
    let all = calls_for_tools(true, round, decoded);
    assert forall|k: int| 0 <= k < decoded.len() implies (#[trigger] after_events(
        session,
        action,
        decoding_events(decoded).take(k),
    )).1 == ActionView::DecodeParameters(round.calls()[k].parameters) by {
        assert(all.take(0) =~= Seq::empty());
        lemma_partly_decoded(desk, round, decoded, 0, k);
    }
    if decoded.len() > 0 {
        assert(all.take(0) =~= Seq::empty());
        assert(decoding_events(decoded).skip(0) =~= decoding_events(decoded));
        lemma_decoded(desk, round, decoded, 0, action);
    } else {
        assert(all =~= round.calls());
        assert(decoding_events(decoded) =~= Seq::empty());
    }
}

} // verus!
