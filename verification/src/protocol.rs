//! The protocol by which the tool calls that a run has left pending are carried out.
//!
//! A session decides; the outside work (tools, the guardrail, the language model) is done by
//! whoever drives it. Each step takes the event that ended the last piece of outside work and
//! gives the action to perform next. This file says what the actions and events are, and what
//! each step does; [`crate::session`] does it.
use crate::context::ContextView;
use crate::error::{WorkflowError, WorkflowErrorView};
use crate::json::{array_text, json_of, Json};
use crate::response::response_record_of;
use crate::text::texts_of;
use crate::tool_calls::{
    call_records, content_object, decoded_content_of, encoded_prompt_of, final_prompt_of,
    optional_json, pending_in, planned_all, request_for, results_in, summary_of, FinalRequest,
    PendingView, PlannedView, RequestView,
};
use crate::workflow::{node_under, NodeType, NodeView};
use serde_json::Value;
use vstd::prelude::*;

verus! {

/// What the driver is to do next.
pub enum Action {
    /// Let the guardrail decode the parameters of a call before a tool sees them.
    DecodeParameters(Value),
    /// Run the calls that a text lists, with the tools of these names.
    RunTools { calls: String, tools: Vec<String> },
    /// Let the guardrail encode a prompt before the language model sees it.
    EncodePrompt(String),
    /// Ask the language model of this configuration.
    AskModel { llm_config: Value, request: FinalRequest },
    /// Let the guardrail decode an answer of the language model.
    DecodeAnswer(Value),
    /// Nothing: the session is over, and its context is final.
    Finish,
    /// Nothing: the session has failed.
    Fail(WorkflowError),
}

/// The content of an [`Action`].
pub enum ActionView {
    DecodeParameters(Json),
    RunTools { calls: Seq<char>, tools: Seq<Seq<char>> },
    EncodePrompt(Seq<char>),
    AskModel { llm_config: Json, request: RequestView },
    DecodeAnswer(Json),
    Finish,
    Fail(WorkflowErrorView),
}

impl View for Action {
    type V = ActionView;

    open spec fn view(&self) -> ActionView {
        match self {
            Action::DecodeParameters(parameters) => ActionView::DecodeParameters(
                json_of(*parameters),
            ),
            Action::RunTools { calls, tools } => ActionView::RunTools {
                calls: calls@,
                tools: texts_of(tools@),
            },
            Action::EncodePrompt(prompt) => ActionView::EncodePrompt(prompt@),
            Action::AskModel { llm_config, request } => ActionView::AskModel {
                llm_config: json_of(*llm_config),
                request: request@,
            },
            Action::DecodeAnswer(payload) => ActionView::DecodeAnswer(json_of(*payload)),
            Action::Finish => ActionView::Finish,
            Action::Fail(error) => ActionView::Fail(error@),
        }
    }
}

/// How asking the language model ended.
pub enum ModelReply {
    /// The stored configuration is none that the language model can be asked with.
    ConfigRejected,
    /// No provider could be created for the configuration.
    ProviderUnavailable,
    /// The provider did not answer.
    CompletionFailed,
    /// The provider answered with a text. `response` is the whole answer, if it has a JSON form.
    Completed { content: String, response: Option<Value> },
}

/// The content of a [`ModelReply`].
pub enum ModelReplyView {
    ConfigRejected,
    ProviderUnavailable,
    CompletionFailed,
    Completed { content: Seq<char>, response: Option<Json> },
}

impl View for ModelReply {
    type V = ModelReplyView;

    open spec fn view(&self) -> ModelReplyView {
        match self {
            ModelReply::ConfigRejected => ModelReplyView::ConfigRejected,
            ModelReply::ProviderUnavailable => ModelReplyView::ProviderUnavailable,
            ModelReply::CompletionFailed => ModelReplyView::CompletionFailed,
            ModelReply::Completed { content, response } => ModelReplyView::Completed {
                content: content@,
                response: optional_json(*response),
            },
        }
    }
}

/// What came of an action.
pub enum Event {
    /// Of `DecodeParameters`: the decoded parameters.
    ParametersDecoded(Value),
    /// Of `RunTools`: the text that lists the results, or why there is none.
    ToolsRan(Result<String, String>),
    /// Of `EncodePrompt`: the signature text and the encoded prompt.
    PromptEncoded { signature: String, payload: Value },
    /// Of `AskModel`.
    ModelAnswered(ModelReply),
    /// Of `DecodeAnswer`: the decoded answer.
    AnswerDecoded(Value),
}

/// The content of an [`Event`].
pub enum EventView {
    ParametersDecoded(Json),
    ToolsRan(Result<Seq<char>, Seq<char>>),
    PromptEncoded { signature: Seq<char>, payload: Json },
    ModelAnswered(ModelReplyView),
    AnswerDecoded(Json),
}

impl View for Event {
    type V = EventView;

    open spec fn view(&self) -> EventView {
        match self {
            Event::ParametersDecoded(parameters) => EventView::ParametersDecoded(
                json_of(*parameters),
            ),
            Event::ToolsRan(Ok(text)) => EventView::ToolsRan(Ok(text@)),
            Event::ToolsRan(Err(error)) => EventView::ToolsRan(Err(error@)),
            Event::PromptEncoded { signature, payload } => EventView::PromptEncoded {
                signature: signature@,
                payload: json_of(*payload),
            },
            Event::ModelAnswered(reply) => EventView::ModelAnswered(reply@),
            Event::AnswerDecoded(decoded) => EventView::AnswerDecoded(json_of(*decoded)),
        }
    }
}

/// What a session works on: the workflow, the outputs as they were when it began, how many of
/// them it has taken up, and the context that it updates.
#[verifier::ext_equal]
pub struct DeskView {
    pub workflow: Seq<(Seq<char>, NodeView)>,
    pub outputs: Seq<(Seq<char>, Json)>,
    pub guarded: bool,
    pub next: int,
    pub context: ContextView,
}

/// The output that is being worked on: the node that gave it, and what it asks for.
#[verifier::ext_equal]
pub struct RoundView {
    pub node: NodeView,
    pub output: Json,
    pub pending: PendingView,
}

impl RoundView {
    /// The calls that the output asks for.
    pub open spec fn calls(self) -> Seq<PlannedView> {
        planned_all(self.pending.tool_calls)
    }
}

/// What the tools found.
#[verifier::ext_equal]
pub struct FindingsView {
    pub results: Seq<Json>,
    pub summary: Seq<char>,
    pub prompt: Seq<char>,
}

/// What a session is waiting for.
#[verifier::ext_equal]
pub enum StageView {
    /// The decoded parameters of a call; `decoded` holds the calls before it.
    Decoding { round: RoundView, decoded: Seq<PlannedView> },
    /// The results of the tools.
    Running { round: RoundView },
    /// The encoded prompt.
    Encoding { round: RoundView, findings: FindingsView },
    /// The language model.
    Asking { round: RoundView, findings: FindingsView },
    /// The decoded answer.
    DecodingAnswer {
        round: RoundView,
        findings: FindingsView,
        content: Seq<char>,
        response: Option<Json>,
    },
    /// Nothing any more: the context is final.
    Finished,
    /// Nothing any more: the session has failed.
    Failed,
}

/// The state of a session.
#[verifier::ext_equal]
pub struct SessionView {
    pub desk: DeskView,
    pub stage: StageView,
}

impl DeskView {
    pub open spec fn with_context(self, context: ContextView) -> DeskView {
        DeskView { context, ..self }
    }
}

/// What an output asks for: nothing, unless calls are pending in it and its node is known.
pub open spec fn round_in(
    workflow: Seq<(Seq<char>, NodeView)>,
    output: (Seq<char>, Json),
) -> Option<RoundView> {
    match (pending_in(output.1), node_under(workflow, output.0)) {
        (Some(pending), Some(node)) => Some(RoundView { node, output: output.1, pending }),
        _ => None,
    }
}

/// What is to be done with calls, given their text or why there is none.
pub open spec fn tools_requested(
    printed: Result<Seq<char>, Seq<char>>,
    tools: Seq<Seq<char>>,
) -> ActionView {
    match printed {
        Ok(calls) => ActionView::RunTools { calls, tools },
        Err(error) => ActionView::Fail(
            WorkflowErrorView::WorkflowExecution("Failed to serialize tool calls: "@ + error),
        ),
    }
}

/// Hands calls to the tools, given their text or why there is none.
pub open spec fn handed(
    desk: DeskView,
    round: RoundView,
    printed: Result<Seq<char>, Seq<char>>,
) -> (SessionView, ActionView) {
    (
        SessionView {
            desk,
            stage: if printed is Ok {
                StageView::Running { round }
            } else {
                StageView::Failed
            },
        },
        tools_requested(printed, round.node.tools()),
    )
}

/// Hands calls to the tools.
pub open spec fn hand_out(desk: DeskView, round: RoundView, calls: Seq<PlannedView>) -> (
    SessionView,
    ActionView,
) {
    handed(desk, round, Ok(array_text(call_records(calls))))
}

/// Takes up an output: with a guardrail the parameters of each call are decoded first.
pub open spec fn take_up(desk: DeskView, round: RoundView) -> (SessionView, ActionView) {
    if desk.guarded && round.calls().len() > 0 {
        (
            SessionView {
                desk,
                stage: StageView::Decoding { round, decoded: Seq::empty() },
            },
            ActionView::DecodeParameters(round.calls()[0].parameters),
        )
    } else {
        hand_out(desk, round, round.calls())
    }
}

/// Goes on to the next output that asks for something.
pub open spec fn go_on(desk: DeskView) -> (SessionView, ActionView)
    decreases desk.outputs.len() - desk.next,
{
    if desk.next < 0 || desk.next >= desk.outputs.len() {
        (SessionView { desk, stage: StageView::Finished }, ActionView::Finish)
    } else {
        let after = DeskView { next: desk.next + 1, ..desk };
        match round_in(desk.workflow, desk.outputs[desk.next]) {
            Some(round) => take_up(after, round),
            None => go_on(after),
        }
    }
}

/// The outcome where no closing answer can be had: the report on the tools' results becomes the
/// node's output.
pub open spec fn kept_summary(
    context: ContextView,
    round: RoundView,
    findings: FindingsView,
) -> ContextView {
    context.with_node_output(round.node.id, Json::Text(findings.summary))
}

/// The name of the node that is listed under an id.
pub open spec fn name_under(
    workflow: Seq<(Seq<char>, NodeView)>,
    id: Seq<char>,
) -> Option<Seq<char>> {
    match node_under(workflow, id) {
        Some(node) => Some(node.name),
        None => None,
    }
}

/// The key under which the record of a node's answer is kept.
pub open spec fn record_key(node: Seq<char>) -> Seq<char> {
    "node_response_"@ + node
}

/// The entry of the metadata under a key.
pub open spec fn metadata_under(context: ContextView, key: Seq<char>) -> Option<Json> {
    Json::Object(context.metadata).member(key)
}

/// The record of a closing answer, kept under the node's id and under its name.
pub open spec fn recorded(
    context: ContextView,
    workflow: Seq<(Seq<char>, NodeView)>,
    round: RoundView,
    findings: FindingsView,
    response: Option<Json>,
) -> ContextView {
    let key = record_key(round.node.id);
    match response {
        Some(answer) => {
            let record = response_record_of(
                answer,
                metadata_under(context, key),
                round.pending.tool_calls,
                findings.results,
                findings.prompt,
            );
            let by_id = context.with_metadata(key, record);
            match name_under(workflow, round.node.id) {
                Some(name) => by_id.with_metadata(record_key(name), record),
                None => by_id,
            }
        },
        None => context,
    }
}

/// The outcome of a closing answer: its text becomes the node's output, and the variables of
/// the node's name and id.
pub open spec fn stored(
    context: ContextView,
    workflow: Seq<(Seq<char>, NodeView)>,
    round: RoundView,
    findings: FindingsView,
    content: Seq<char>,
    response: Option<Json>,
) -> ContextView {
    let output = Json::Text(content);
    let by_id = recorded(context, workflow, round, findings, response).with_node_output(
        round.node.id,
        output,
    );
    match name_under(workflow, round.node.id) {
        Some(name) => by_id.with_node_output(name, output).with_variable(
            name,
            output,
        ).with_variable(round.node.id, output),
        None => by_id,
    }
}

/// Asks the language model for the closing answer, where the node is an agent and a
/// configuration is known.
pub open spec fn ask(
    desk: DeskView,
    round: RoundView,
    findings: FindingsView,
    prompt: Seq<char>,
) -> (SessionView, ActionView) {
    if round.node.node_type != NodeType::Agent {
        go_on(desk)
    } else {
        match metadata_under(desk.context, "llm_config"@) {
            Some(llm_config) => (
                SessionView { desk, stage: StageView::Asking { round, findings } },
                ActionView::AskModel {
                    llm_config,
                    request: request_for(prompt, round.output, round.node.config),
                },
            ),
            None => go_on(desk.with_context(kept_summary(desk.context, round, findings))),
        }
    }
}

/// What the tools found.
pub open spec fn findings_of(round: RoundView, results: Seq<Json>) -> FindingsView {
    FindingsView {
        results,
        summary: summary_of(results),
        prompt: final_prompt_of(round.pending.original_prompt, summary_of(results)),
    }
}

impl SessionView {
    /// Whether an event is one that the session is waiting for.
    pub open spec fn awaits(self, event: EventView) -> bool {
        match self.stage {
            StageView::Decoding { .. } => event is ParametersDecoded,
            StageView::Running { .. } => event is ToolsRan,
            StageView::Encoding { .. } => event is PromptEncoded,
            StageView::Asking { .. } => event is ModelAnswered,
            StageView::DecodingAnswer { .. } => event is AnswerDecoded,
            StageView::Finished => false,
            StageView::Failed => false,
        }
    }

    /// What becomes of a session that is waiting for the tools, and what is to be done, when their
    /// results come.
    pub open spec fn with_results(self, results: Seq<Json>) -> (SessionView, ActionView) {
        let round = self.stage->Running_round;
        let findings = findings_of(round, results);
        if self.desk.guarded {
            (
                SessionView { stage: StageView::Encoding { round, findings }, ..self },
                ActionView::EncodePrompt(findings.prompt),
            )
        } else {
            ask(self.desk, round, findings, findings.prompt)
        }
    }

    /// What becomes of the session, and what is to be done, when an event comes that the session
    /// is waiting for.
    pub open spec fn step(self, event: EventView) -> (SessionView, ActionView) {
        match (self.stage, event) {
            (
                StageView::Decoding { round, decoded },
                EventView::ParametersDecoded(parameters),
            ) => {
                let name = round.calls()[decoded.len() as int].name;
                let done = decoded.push(PlannedView { name, parameters });
                if done.len() < round.calls().len() {
                    (
                        SessionView {
                            stage: StageView::Decoding { round, decoded: done },
                            ..self
                        },
                        ActionView::DecodeParameters(round.calls()[done.len() as int].parameters),
                    )
                } else {
                    hand_out(self.desk, round, done)
                }
            },
            (StageView::Running { .. }, EventView::ToolsRan(Ok(text))) => self.with_results(
                results_in(text),
            ),
            (StageView::Running { .. }, EventView::ToolsRan(Err(error))) => (
                SessionView { stage: StageView::Failed, ..self },
                ActionView::Fail(
                    WorkflowErrorView::WorkflowExecution("Failed to execute tools: "@ + error),
                ),
            ),
            (
                StageView::Encoding { round, findings },
                EventView::PromptEncoded { signature, payload },
            ) => ask(self.desk, round, findings, encoded_prompt_of(signature, payload)),
            (
                StageView::Asking { round, findings },
                EventView::ModelAnswered(ModelReplyView::Completed { content, response }),
            ) => if self.desk.guarded {
                (
                    SessionView {
                        stage: StageView::DecodingAnswer { round, findings, content, response },
                        ..self
                    },
                    ActionView::DecodeAnswer(content_object(content)),
                )
            } else {
                go_on(
                    self.desk.with_context(
                        stored(
                            self.desk.context,
                            self.desk.workflow,
                            round,
                            findings,
                            content,
                            response,
                        ),
                    ),
                )
            },
            (StageView::Asking { round, findings }, EventView::ModelAnswered(_)) => go_on(
                self.desk.with_context(kept_summary(self.desk.context, round, findings)),
            ),
            (
                StageView::DecodingAnswer { round, findings, content, response },
                EventView::AnswerDecoded(decoded),
            ) => go_on(
                self.desk.with_context(
                    stored(
                        self.desk.context,
                        self.desk.workflow,
                        round,
                        findings,
                        decoded_content_of(decoded, content),
                        response,
                    ),
                ),
            ),
            _ => (self, ActionView::Finish),
        }
    }
}

/// A context in which the configuration of the language model is kept, where it has a JSON form.
pub open spec fn with_llm_config(context: ContextView, llm_config: Option<Json>) -> ContextView {
    match llm_config {
        Some(value) => context.with_metadata("llm_config"@, value),
        None => context,
    }
}

/// The state in which a session on a context begins, and its first action.
pub open spec fn begun(
    workflow: Seq<(Seq<char>, NodeView)>,
    outputs: Seq<(Seq<char>, Json)>,
    guarded: bool,
    context: ContextView,
) -> (SessionView, ActionView) {
    go_on(DeskView { workflow, outputs, guarded, next: 0, context })
}

/// Whether an action is the one whose reply a session in this stage is waiting for.
pub open spec fn agree(stage: StageView, action: ActionView) -> bool {
    match stage {
        StageView::Decoding { .. } => action is DecodeParameters,
        StageView::Running { .. } => action is RunTools,
        StageView::Encoding { .. } => action is EncodePrompt,
        StageView::Asking { .. } => action is AskModel,
        StageView::DecodingAnswer { .. } => action is DecodeAnswer,
        StageView::Finished => action is Finish,
        StageView::Failed => action is Fail,
    }
}

/// Whether two desks differ at most in how far their session has come, and in its context.
pub open spec fn same_task(a: DeskView, b: DeskView) -> bool {
    a.workflow == b.workflow && a.outputs == b.outputs && a.guarded == b.guarded
}

/// How many outputs have not been taken up.
pub open spec fn outputs_left(desk: DeskView) -> nat {
    if desk.next < desk.outputs.len() {
        (desk.outputs.len() - desk.next) as nat
    } else {
        0
    }
}

/// Going on changes nothing but how far the session has come; either it takes up an output, or
/// nothing is left to do.
pub proof fn lemma_go_on(desk: DeskView)
    ensures
        same_task(go_on(desk).0.desk, desk),
        go_on(desk).0.desk.context == desk.context,
        agree(go_on(desk).0.stage, go_on(desk).1),
        outputs_left(go_on(desk).0.desk) < outputs_left(desk) || (go_on(desk).0.stage is Finished
            && outputs_left(go_on(desk).0.desk) == outputs_left(desk)),
        go_on(desk).0.stage is Decoding ==> desk.guarded,
        go_on(desk).0.stage is Decoding || go_on(desk).0.stage is Running || go_on(
            desk,
        ).0.stage is Finished,
    decreases desk.outputs.len() - desk.next,
{
    if 0 <= desk.next < desk.outputs.len() {
        let after = DeskView { next: desk.next + 1, ..desk };
        if round_in(desk.workflow, desk.outputs[desk.next]) is None {
            lemma_go_on(after);
        }
    }
}

/// Taking the results of the tools leaves a session that awaits the reply to the action it gives.
pub proof fn lemma_results_agree(session: SessionView, results: Seq<Json>)
    requires
        session.stage is Running,
    ensures
        same_task(session.with_results(results).0.desk, session.desk),
        agree(session.with_results(results).0.stage, session.with_results(results).1),
        !(session.with_results(results).1 is Fail),
{
    let desk = session.desk;
    let round = session.stage->Running_round;
    let findings = findings_of(round, results);
    lemma_go_on(desk);
    lemma_go_on(desk.with_context(kept_summary(desk.context, round, findings)));
}

/// A step that was awaited leaves a session that awaits the reply to the action it gives.
pub proof fn lemma_step_agrees(session: SessionView, event: EventView)
    requires
        session.awaits(event),
    ensures
        same_task(session.step(event).0.desk, session.desk),
        agree(session.step(event).0.stage, session.step(event).1),
        session.step(event).1 is Fail <==> event is ToolsRan && event->ToolsRan_0 is Err,
{
    let desk = session.desk;
    match (session.stage, event) {
        (StageView::Running { .. }, EventView::ToolsRan(Ok(text))) => {
            lemma_results_agree(session, results_in(text));
        },
        (StageView::Encoding { round, findings }, _) => {
            lemma_go_on(desk);
            lemma_go_on(desk.with_context(kept_summary(desk.context, round, findings)));
        },
        (
            StageView::Asking { round, findings },
            EventView::ModelAnswered(ModelReplyView::Completed { content, response }),
        ) => {
            lemma_go_on(
                desk.with_context(
                    stored(desk.context, desk.workflow, round, findings, content, response),
                ),
            );
        },
        (StageView::Asking { round, findings }, _) => {
            lemma_go_on(desk.with_context(kept_summary(desk.context, round, findings)));
        },
        (
            StageView::DecodingAnswer { round, findings, content, response },
            EventView::AnswerDecoded(decoded),
        ) => {
            lemma_go_on(
                desk.with_context(
                    stored(
                        desk.context,
                        desk.workflow,
                        round,
                        findings,
                        decoded_content_of(decoded, content),
                        response,
                    ),
                ),
            );
        },
        _ => {},
    }
}

} // verus!
