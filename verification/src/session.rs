//! A session that carries out the tool calls which a run has left pending.
use crate::context::{ValueMap, WorkflowContext};
use crate::error::WorkflowError;
use crate::json::{json_of, jsons_of, text_value};
use crate::protocol::{
    agree, ask, begun, findings_of, go_on, handed, kept_summary, lemma_go_on,
    lemma_results_agree, lemma_step_agrees, record_key, round_in, stored, take_up, tools_requested,
    with_llm_config, Action, DeskView, Event, EventView, FindingsView,
    ModelReply, RoundView, SessionView, StageView,
};
use crate::response::response_record;
use crate::text::texts_of;
use crate::tool_calls::{
    calls_text, content_payload, decoded_content, encoded_prompt, final_prompt, final_request,
    optional_json, pending_calls, planned_calls, plans_of, tool_results, tool_summary,
    PendingCalls, PlannedCall, PlannedView,
};
use crate::workflow::{NodeType, Workflow};
use serde_json::Value;
use vstd::prelude::*;
use vstd::string::*;

verus! {

/// What the session works on.
struct Desk {
    workflow: Workflow,
    outputs: ValueMap,
    guarded: bool,
    next: usize,
    context: WorkflowContext,
}

impl View for Desk {
    type V = DeskView;

    closed spec fn view(&self) -> DeskView {
        DeskView {
            workflow: self.workflow@,
            outputs: self.outputs.listing(),
            guarded: self.guarded,
            next: self.next as int,
            context: self.context@,
        }
    }
}

/// The output that is being worked on. `node` and `output` are positions in the workflow and
/// among the outputs.
struct Round {
    node: usize,
    output: usize,
    pending: PendingCalls,
    calls: Vec<PlannedCall>,
}

impl Round {
    spec fn on(self, desk: Desk) -> RoundView {
        RoundView {
            node: desk.workflow.nodes[self.node as int].1@,
            output: desk.outputs.listing()[self.output as int].1,
            pending: self.pending@,
        }
    }

    spec fn fits(self, desk: Desk) -> bool {
        &&& self.node < desk.workflow.nodes.len()
        &&& self.output < desk.outputs.listing().len()
        &&& plans_of(self.calls@) == self.on(desk).calls()
    }
}

/// What the tools found.
struct Findings {
    results: Vec<Value>,
    summary: String,
    prompt: String,
}

impl View for Findings {
    type V = FindingsView;

    closed spec fn view(&self) -> FindingsView {
        FindingsView {
            results: jsons_of(self.results@),
            summary: self.summary@,
            prompt: self.prompt@,
        }
    }
}

/// What the session is waiting for.
enum Stage {
    Decoding { round: Round, decoded: Vec<PlannedCall> },
    Running { round: Round },
    Encoding { round: Round, findings: Findings },
    Asking { round: Round, findings: Findings },
    DecodingAnswer {
        round: Round,
        findings: Findings,
        content: String,
        response: Option<Value>,
    },
    Finished,
    Failed,
}

impl Stage {
    spec fn on(self, desk: Desk) -> StageView {
        match self {
            Stage::Decoding { round, decoded } => StageView::Decoding {
                round: round.on(desk),
                decoded: plans_of(decoded@),
            },
            Stage::Running { round } => StageView::Running { round: round.on(desk) },
            Stage::Encoding { round, findings } => StageView::Encoding {
                round: round.on(desk),
                findings: findings@,
            },
            Stage::Asking { round, findings } => StageView::Asking {
                round: round.on(desk),
                findings: findings@,
            },
            Stage::DecodingAnswer { round, findings, content, response } =>
                StageView::DecodingAnswer {
                round: round.on(desk),
                findings: findings@,
                content: content@,
                response: optional_json(response),
            },
            Stage::Finished => StageView::Finished,
            Stage::Failed => StageView::Failed,
        }
    }

    spec fn fits(self, desk: Desk) -> bool {
        match self {
            Stage::Decoding { round, decoded } => round.fits(desk) && decoded.len()
                < round.calls.len(),
            Stage::Running { round } => round.fits(desk),
            Stage::Encoding { round, .. } => round.fits(desk),
            Stage::Asking { round, .. } => round.fits(desk),
            Stage::DecodingAnswer { round, .. } => round.fits(desk),
            Stage::Finished => true,
            Stage::Failed => true,
        }
    }
}

/// A session that carries out the tool calls which a run has left pending.
pub struct Session {
    desk: Desk,
    stage: Stage,
}

impl View for Session {
    type V = SessionView;

    closed spec fn view(&self) -> SessionView {
        SessionView { desk: self.desk@, stage: self.stage.on(self.desk) }
    }
}


impl Session {
    #[verifier::type_invariant]
    spec fn fits(&self) -> bool {
        self.stage.fits(self.desk)
    }

    /// Begins a session on what a run has produced, and gives its first action. `guarded` says
    /// whether a guardrail is in force.
    pub fn begin(context: WorkflowContext, workflow: Workflow, guarded: bool) -> (begin: (
        Session,
        Action,
    ))
        ensures
            (begin.0@, begin.1@) == begun(
                workflow@,
                context.node_outputs.listing(),
                guarded,
                context@,
            ),
            agree(begin.0@.stage, begin.1@),
            !(begin.1@ is Fail),
    {
        let outputs = context.node_outputs.snapshot();
        proof {
            lemma_go_on(
                DeskView {
                    workflow: workflow@,
                    outputs: outputs.listing(),
                    guarded,
                    next: 0,
                    context: context@,
                },
            );
        }
        proceed(Desk { workflow, outputs, guarded, next: 0, context })
    }

    /// Begins a session after the engine has run the nodes: what the engine gave up with, or the
    /// first action on what it produced. The configuration of the language model is kept in the
    /// metadata, where it has a JSON form.
    pub fn after_engine(
        engine: Result<WorkflowContext, WorkflowError>,
        llm_config: Option<Value>,
        workflow: Workflow,
        guarded: bool,
    ) -> (begin: Result<(Session, Action), WorkflowError>)
        ensures
            match engine {
                Ok(context) => {
                    &&& begin is Ok
                    &&& (begin->Ok_0.0@, begin->Ok_0.1@) == begun(
                        workflow@,
                        context.node_outputs.listing(),
                        guarded,
                        with_llm_config(context@, optional_json(llm_config)),
                    )
                    &&& agree(begin->Ok_0.0@.stage, begin->Ok_0.1@)
                    &&& !(begin->Ok_0.1@ is Fail)
                },
                Err(error) => begin is Err && begin->Err_0 == error,
            },
    {
        match engine {
            Ok(produced) => {
                let mut context = produced;
                if let Some(value) = llm_config {
                    context.set_metadata("llm_config".to_owned(), value);
                }
                Ok(Session::begin(context, workflow, guarded))
            },
            Err(error) => Err(error),
        }
    }

    /// Takes the event that the session is waiting for, and gives the next action.
    pub fn advance(self, event: Event) -> (next: (Session, Action))
        requires
            self@.awaits(event@),
        ensures
            (next.0@, next.1@) == self@.step(event@),
            agree(next.0@.stage, next.1@),
            next.1@ is Fail <==> event@ is ToolsRan && event@->ToolsRan_0 is Err,
    {
        proof {
            use_type_invariant(&self);
            lemma_step_agrees(self@, event@);
        }
        let desk = self.desk;
        match (self.stage, event) {
            (Stage::Decoding { round, decoded }, Event::ParametersDecoded(parameters)) => {
                decode_next(desk, round, decoded, parameters)
            },
            (Stage::Running { round }, Event::ToolsRan(Ok(text))) => {
                take_results(desk, round, tool_results(text.as_str()))
            },
            (Stage::Running { round }, Event::ToolsRan(Err(error))) => {
                let message = "Failed to execute tools: ".to_owned().concat(error.as_str());
                (
                    Session { desk, stage: Stage::Failed },
                    Action::Fail(WorkflowError::WorkflowExecution(message)),
                )
            },
            (Stage::Encoding { round, findings }, Event::PromptEncoded { signature, payload }) => {
                let prompt = encoded_prompt(signature.as_str(), &payload);
                ask_model(desk, round, findings, prompt)
            },
            (
                Stage::Asking { round, findings },
                Event::ModelAnswered(ModelReply::Completed { content, response }),
            ) => {
                if desk.guarded {
                    let payload = content_payload(content.as_str());
                    (
                        Session {
                            desk,
                            stage: Stage::DecodingAnswer { round, findings, content, response },
                        },
                        Action::DecodeAnswer(payload),
                    )
                } else {
                    store(desk, round, findings, content, response)
                }
            },
            (Stage::Asking { round, findings }, Event::ModelAnswered(_)) => {
                keep_summary(desk, round, findings)
            },
            (
                Stage::DecodingAnswer { round, findings, content, response },
                Event::AnswerDecoded(decoded),
            ) => {
                let text = decoded_content(&decoded, content.as_str());
                store(desk, round, findings, text, response)
            },
            (stage, _) => (Session { desk, stage }, Action::Finish),
        }
    }

    /// Takes the results of the tools, for which the session is waiting, and gives the next action.
    pub fn advance_with_results(self, results: Vec<Value>) -> (next: (Session, Action))
        requires
            self@.stage is Running,
        ensures
            (next.0@, next.1@) == self@.with_results(jsons_of(results@)),
            agree(next.0@.stage, next.1@),
            !(next.1@ is Fail),
    {
        proof {
            use_type_invariant(&self);
            lemma_results_agree(self@, jsons_of(results@));
        }
        let desk = self.desk;
        match self.stage {
            Stage::Running { round } => take_results(desk, round, results),
            stage => (Session { desk, stage }, Action::Finish),
        }
    }

    /// What the run has produced, with the outcome of the session so far.
    pub fn into_context(self) -> (context: WorkflowContext)
        ensures
            context@ == self@.desk.context,
    {
        self.desk.context
    }
}

/// Goes on to the next output that asks for something.
fn proceed(from: Desk) -> (next: (Session, Action))
    ensures
        (next.0@, next.1@) == go_on(from@),
{
    let mut desk = from;
    let count = desk.outputs.len();
    while desk.next < count
        invariant
            count == desk.outputs.listing().len(),
            go_on(desk@) == go_on(from@),
        decreases count - desk.next,
    {
        let position = desk.next;
        let entry = desk.outputs.entry_at(position);
        let ghost listed = desk@.outputs[position as int];
        let pending = pending_calls(entry.1);
        let node = desk.workflow.find_node(entry.0.as_str());
        desk.next = position + 1;
        if let Some(pending) = pending {
            if let Some(node) = node {
                let calls = planned_calls(&pending.tool_calls);
                let round = Round { node, output: position, pending, calls };
                assert(round_in(desk@.workflow, listed) == Some(round.on(desk)));
                return open_round(desk, round);
            }
        }
        assert(round_in(desk@.workflow, listed) is None);
    }
    (Session { desk, stage: Stage::Finished }, Action::Finish)
}

/// Takes up an output.
fn open_round(desk: Desk, round: Round) -> (next: (Session, Action))
    requires
        round.fits(desk),
    ensures
        (next.0@, next.1@) == take_up(desk@, round.on(desk)),
{
    assert(plans_of(round.calls@).len() == round.calls@.len());
    if desk.guarded && round.calls.len() > 0 {
        let first = round.calls[0].parameters.clone();
        let decoded: Vec<PlannedCall> = Vec::new();
        assert(plans_of(decoded@) =~= Seq::empty());
        (
            Session { desk, stage: Stage::Decoding { round, decoded } },
            Action::DecodeParameters(first),
        )
    } else {
        let text = calls_text(&round.calls);
        run_tools(desk, round, text)
    }
}

/// The content of a printed list of calls, or of why it could not be printed.
pub open spec fn printed_text(printed: Result<String, String>) -> Result<Seq<char>, Seq<char>> {
    match printed {
        Ok(text) => Ok(text@),
        Err(error) => Err(error@),
    }
}

/// What is to be done with calls, given their text or why there is none.
pub fn tools_action(printed: Result<String, String>, tools: Vec<String>) -> (action: Action)
    ensures
        action@ == tools_requested(printed_text(printed), texts_of(tools@)),
{
    match printed {
        Ok(calls) => Action::RunTools { calls, tools },
        Err(error) => {
            let message = "Failed to serialize tool calls: ".to_owned().concat(error.as_str());
            Action::Fail(WorkflowError::WorkflowExecution(message))
        },
    }
}

/// Hands calls to the tools, given their text or why there is none.
fn run_tools(desk: Desk, round: Round, printed: Result<String, String>) -> (next: (Session, Action))
    requires
        round.fits(desk),
    ensures
        (next.0@, next.1@) == handed(desk@, round.on(desk), printed_text(printed)),
{
    let tools = desk.workflow.nodes[round.node].1.tools();
    let listed = printed.is_ok();
    let action = tools_action(printed, tools);
    let stage = if listed {
        Stage::Running { round }
    } else {
        Stage::Failed
    };
    (Session { desk, stage }, action)
}

/// Takes the decoded parameters of one call, and goes on to the next call or to the tools.
fn decode_next(desk: Desk, round: Round, decoded: Vec<PlannedCall>, parameters: Value) -> (next: (
    Session,
    Action,
))
    requires
        round.fits(desk),
        decoded.len() < round.calls.len(),
    ensures
        (next.0@, next.1@) == (SessionView {
            desk: desk@,
            stage: StageView::Decoding { round: round.on(desk), decoded: plans_of(decoded@) },
        }).step(EventView::ParametersDecoded(json_of(parameters))),
{
    let mut done = decoded;
    let ghost before = plans_of(done@);
    let ghost planned = plans_of(round.calls@);
    let name = round.calls[done.len()].name.clone();
    assert(planned[before.len() as int] == round.calls[done.len() as int]@);
    done.push(PlannedCall { name, parameters });
    assert(plans_of(done@) =~= before.push(
        PlannedView { name: name@, parameters: json_of(parameters) },
    ));
    if done.len() < round.calls.len() {
        let following = round.calls[done.len()].parameters.clone();
        assert(planned[done.len() as int] == round.calls[done.len() as int]@);
        (
            Session { desk, stage: Stage::Decoding { round, decoded: done } },
            Action::DecodeParameters(following),
        )
    } else {
        let text = calls_text(&done);
        run_tools(desk, round, text)
    }
}

/// Takes the results of the tools.
fn take_results(desk: Desk, round: Round, results: Vec<Value>) -> (next: (Session, Action))
    requires
        round.fits(desk),
    ensures
        (next.0@, next.1@) == (SessionView {
            desk: desk@,
            stage: StageView::Running { round: round.on(desk) },
        }).with_results(jsons_of(results@)),
{
    let findings = weigh(&round, results, Ghost(desk));
    let prompt = findings.prompt.clone();
    if desk.guarded {
        (
            Session { desk, stage: Stage::Encoding { round, findings } },
            Action::EncodePrompt(prompt),
        )
    } else {
        ask_model(desk, round, findings, prompt)
    }
}

/// What the tools found.
fn weigh(round: &Round, results: Vec<Value>, Ghost(desk): Ghost<Desk>) -> (findings: Findings)
    ensures
        findings@ == findings_of(round.on(desk), jsons_of(results@)),
{
    let summary = tool_summary(&results);
    let prompt = final_prompt(round.pending.original_prompt.as_str(), summary.as_str());
    Findings { results, summary, prompt }
}

/// Asks the language model for the closing answer, where that can be done.
fn ask_model(desk: Desk, round: Round, findings: Findings, prompt: String) -> (next: (
    Session,
    Action,
))
    requires
        round.fits(desk),
    ensures
        (next.0@, next.1@) == ask(desk@, round.on(desk), findings@, prompt@),
{
    let node = &desk.workflow.nodes[round.node].1;
    if node.node_type != NodeType::Agent {
        return proceed(desk);
    }
    let llm_config = match desk.context.metadata.get("llm_config") {
        Some(llm_config) => Some(llm_config.clone()),
        None => None,
    };
    match llm_config {
        Some(llm_config) => {
            let output = desk.outputs.entry_at(round.output).1;
            let request = final_request(prompt, output, &node.config);
            (
                Session { desk, stage: Stage::Asking { round, findings } },
                Action::AskModel { llm_config, request },
            )
        },
        None => keep_summary(desk, round, findings),
    }
}

/// Makes the report on the tools' results the node's output, and goes on.
fn keep_summary(desk: Desk, round: Round, findings: Findings) -> (next: (Session, Action))
    requires
        round.fits(desk),
    ensures
        (next.0@, next.1@) == go_on(
            desk@.with_context(kept_summary(desk@.context, round.on(desk), findings@)),
        ),
{
    let mut desk = desk;
    desk.context.set_node_output(
        desk.workflow.nodes[round.node].1.id.as_str(),
        text_value(findings.summary),
    );
    proceed(desk)
}

/// The key under which the record of a node's answer is kept.
fn record_key_for(node: &str) -> (key: String)
    ensures
        key@ == record_key(node@),
{
    "node_response_".to_owned().concat(node)
}

/// Stores a closing answer, and goes on.
fn store(
    desk: Desk,
    round: Round,
    findings: Findings,
    content: String,
    response: Option<Value>,
) -> (next: (Session, Action))
    requires
        round.fits(desk),
    ensures
        (next.0@, next.1@) == go_on(
            desk@.with_context(
                stored(
                    desk@.context,
                    desk@.workflow,
                    round.on(desk),
                    findings@,
                    content@,
                    optional_json(response),
                ),
            ),
        ),
{
    let mut desk = desk;
    let ghost before = desk@;
    let id = desk.workflow.nodes[round.node].1.id.clone();
    let name = match desk.workflow.find_node(id.as_str()) {
        Some(i) => Some(desk.workflow.nodes[i].1.name.clone()),
        None => None,
    };
    if let Some(answer) = response {
        let key = record_key_for(id.as_str());
        let existing = match desk.context.metadata.get(key.as_str()) {
            Some(record) => Some(record.clone()),
            None => None,
        };
        let record = response_record(
            answer,
            &existing,
            &round.pending.tool_calls,
            &findings.results,
            findings.prompt.as_str(),
        );
        let copy = record.clone();
        desk.context.set_metadata(key, record);
        if let Some(name) = &name {
            desk.context.set_metadata(record_key_for(name.as_str()), copy);
        }
    }
    desk.context.set_node_output(id.as_str(), text_value(content.clone()));
    if let Some(name) = &name {
        desk.context.set_node_output(name.as_str(), text_value(content.clone()));
        desk.context.set_variable(name.as_str(), text_value(content.clone()));
        desk.context.set_variable(id.as_str(), text_value(content));
    }
    proceed(desk)
}

} // verus!
