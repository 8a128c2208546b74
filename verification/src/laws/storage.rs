//! What a session leaves in the context.
use crate::context::{has_key, key_index, map_of, ContextView};
use crate::error::WorkflowErrorView;
use crate::json::Json;
use crate::laws::driving::{all_carried_out, carried_out, Replies};
use crate::protocol::{
    kept_summary, metadata_under, name_under, record_key, round_in, stored,
    DeskView, EventView, FindingsView, RoundView, SessionView,
};
use crate::response::response_record_of;
use crate::workflow::{node_under, NodeType, NodeView};
use vstd::prelude::*;

verus! {

/// A closing answer can be read back: it is the node's output under its id and under its name,
/// and the variable of both.
pub proof fn law_answers_can_be_read_back(
    context: ContextView,
    workflow: Seq<(Seq<char>, NodeView)>,
    round: RoundView,
    findings: FindingsView,
    content: Seq<char>,
    response: Option<Json>,
)
    ensures
        ({
            let after = stored(context, workflow, round, findings, content, response);
            let id = round.node.id;
            &&& after.node_outputs.contains_key(id)
            &&& after.node_outputs[id] == Json::Text(content)
            &&& name_under(workflow, id) matches Some(name) ==> {
                &&& after.node_outputs.contains_key(name)
                &&& after.node_outputs[name] == Json::Text(content)
                &&& after.variables.contains_key(name)
                &&& after.variables[name] == Json::Text(content)
                &&& after.variables.contains_key(id)
                &&& after.variables[id] == Json::Text(content)
            }
        }),
{
}

/// A closing answer sets no variable where no node is listed under the id of the node that gave
/// it, and leaves the metadata where the answer has no JSON form.
pub proof fn law_answers_without_name_or_record(
    context: ContextView,
    workflow: Seq<(Seq<char>, NodeView)>,
    round: RoundView,
    findings: FindingsView,
    content: Seq<char>,
    response: Option<Json>,
)
    ensures
        node_under(workflow, round.node.id) is None ==> stored(
            context,
            workflow,
            round,
            findings,
            content,
            response,
        ).variables == context.variables,
        stored(context, workflow, round, findings, content, None).metadata == context.metadata,
{
}

/// The record of a closing answer can be read back under the node's id and under its name.
pub proof fn law_records_can_be_read_back(
    context: ContextView,
    workflow: Seq<(Seq<char>, NodeView)>,
    round: RoundView,
    findings: FindingsView,
    content: Seq<char>,
    response: Json,
)
    ensures
        ({
            let after = stored(context, workflow, round, findings, content, Some(response));
            let record = response_record_of(
                response,
                metadata_under(context, record_key(round.node.id)),
                round.pending.tool_calls,
                findings.results,
                findings.prompt,
            );
            &&& metadata_under(after, record_key(round.node.id)) == Some(record)
            &&& name_under(workflow, round.node.id) matches Some(name) ==> metadata_under(
                after,
                record_key(name),
            ) == Some(record)
        }),
{
}

/// Whether carrying out the calls of an output may change what is stored under a key: the key is
/// the id or the name of the output's node, and the node is an agent.
pub open spec fn touches(
    workflow: Seq<(Seq<char>, NodeView)>,
    round: RoundView,
    key: Seq<char>,
) -> bool {
    &&& round.node.node_type == NodeType::Agent
    &&& key == round.node.id || name_under(workflow, round.node.id) == Some(key)
}

/// Whether carrying out the calls of an output may change an entry of the metadata: it is the
/// record of the output's node, under its id or its name.
pub open spec fn touches_entry(
    workflow: Seq<(Seq<char>, NodeView)>,
    round: RoundView,
    entry: Seq<char>,
) -> bool {
    exists|key: Seq<char>| #[trigger] touches(workflow, round, key) && entry == record_key(key)
}

/// Whether a key holds the same variable in two contexts.
pub open spec fn same_variable(a: ContextView, b: ContextView, key: Seq<char>) -> bool {
    Json::Object(a.variables).member(key) == Json::Object(b.variables).member(key)
}

/// Carrying out the calls of one output changes no output and no variable but the node's own, and
/// no metadata but the node's record.
pub proof fn law_carrying_out_changes_nothing_else(
    workflow: Seq<(Seq<char>, NodeView)>,
    guarded: bool,
    context: ContextView,
    round: RoundView,
    replies: Replies,
    key: Seq<char>,
    entry: Seq<char>,
)
    ensures
        carried_out(workflow, guarded, context, round, replies) matches Ok(after) ==> {
            &&& !touches(workflow, round, key) ==> same_output(after, context, key)
                && same_variable(after, context, key)
            &&& !touches_entry(workflow, round, entry) ==> metadata_under(after, entry)
                == metadata_under(context, entry)
        },
{
    if round.node.node_type == NodeType::Agent && !touches_entry(workflow, round, entry) {
        assert(touches(workflow, round, round.node.id));
        if let Some(name) = name_under(workflow, round.node.id) {
            assert(touches(workflow, round, name));
        }
    }
}

/// A whole session changes nothing else: an output, a variable or an entry of the metadata that
/// none of the outputs with pending calls touches is in the end what it was.
pub proof fn law_sessions_change_nothing_else(
    desk: DeskView,
    replies: spec_fn(int) -> Replies,
    key: Seq<char>,
    entry: Seq<char>,
)
    requires
        0 <= desk.next,
    ensures
        all_carried_out(desk, replies) matches Ok(after) ==> {
            &&& (forall|i: int|
                desk.next <= i < desk.outputs.len() ==> (round_in(
                    desk.workflow,
                    #[trigger] desk.outputs[i],
                ) matches Some(round) ==> !touches(desk.workflow, round, key))) ==> same_output(
                after,
                desk.context,
                key,
            ) && same_variable(after, desk.context, key)
            &&& (forall|i: int|
                desk.next <= i < desk.outputs.len() ==> (round_in(
                    desk.workflow,
                    #[trigger] desk.outputs[i],
                ) matches Some(round) ==> !touches_entry(desk.workflow, round, entry)))
                ==> metadata_under(after, entry) == metadata_under(desk.context, entry)
        },
    decreases desk.outputs.len() - desk.next,
{
    if desk.next < desk.outputs.len() {
        let after = DeskView { next: desk.next + 1, ..desk };
        match round_in(desk.workflow, desk.outputs[desk.next]) {
            None => {
                law_sessions_change_nothing_else(after, replies, key, entry);
            },
            Some(round) => {
                let own = replies(desk.next);
                law_carrying_out_changes_nothing_else(
                    desk.workflow,
                    desk.guarded,
                    desk.context,
                    round,
                    own,
                    key,
                    entry,
                );
                if let Ok(context) = carried_out(
                    desk.workflow,
                    desk.guarded,
                    desk.context,
                    round,
                    own,
                ) {
                    law_sessions_change_nothing_else(
                        after.with_context(context),
                        replies,
                        key,
                        entry,
                    );
                }
            },
        }
    }
}

/// A closing answer changes nothing that is stored under other keys than the node's id and name,
/// and no metadata but the node's record under either.
pub proof fn law_answers_change_nothing_else(
    context: ContextView,
    workflow: Seq<(Seq<char>, NodeView)>,
    round: RoundView,
    findings: FindingsView,
    content: Seq<char>,
    response: Option<Json>,
    key: Seq<char>,
    entry: Seq<char>,
)
    ensures
        ({
            let after = stored(context, workflow, round, findings, content, response);
            let name = name_under(workflow, round.node.id);
            &&& key != round.node.id && name != Some(key) ==> same_output(after, context, key)
                && same_variable(after, context, key)
            &&& entry != record_key(round.node.id) && (name is Some ==> entry != record_key(
                name->0,
            )) ==> metadata_under(after, entry) == metadata_under(context, entry)
        }),
{
}

/// Records of different nodes are kept under different keys.
pub proof fn law_record_keys_differ(a: Seq<char>, b: Seq<char>)
    requires
        a != b,
    ensures
        record_key(a) != record_key(b),
{
    let prefix = "node_response_"@;
    assert((prefix + a).skip(prefix.len() as int) =~= a);
    assert((prefix + b).skip(prefix.len() as int) =~= b);
}

/// No record is kept where the configuration of the language model is.
proof fn lemma_config_key_differs(node: Seq<char>)
    ensures
        record_key(node) != "llm_config"@,
{
    reveal_strlit("node_response_");
    reveal_strlit("llm_config");
    assert(record_key(node)[0] == 'n');
    assert("llm_config"@[0] == 'l');
}

proof fn lemma_carried_out_keeps_config(
    workflow: Seq<(Seq<char>, NodeView)>,
    guarded: bool,
    context: ContextView,
    round: RoundView,
    replies: Replies,
)
    ensures
        carried_out(workflow, guarded, context, round, replies) matches Ok(after)
            ==> metadata_under(after, "llm_config"@) == metadata_under(context, "llm_config"@),
{
    lemma_config_key_differs(round.node.id);
    if let Some(name) = name_under(workflow, round.node.id) {
        lemma_config_key_differs(name);
    }
}

/// The configuration of the language model stays in the metadata as it was, whatever a session
/// stores: every output of a session is answered with the same configuration.
pub proof fn law_config_is_kept(desk: DeskView, replies: spec_fn(int) -> Replies)
    ensures
        all_carried_out(desk, replies) matches Ok(after) ==> metadata_under(
            after,
            "llm_config"@,
        ) == metadata_under(desk.context, "llm_config"@),
    decreases desk.outputs.len() - desk.next,
{
    if 0 <= desk.next < desk.outputs.len() {
        let after = DeskView { next: desk.next + 1, ..desk };
        match round_in(desk.workflow, desk.outputs[desk.next]) {
            None => {
                law_config_is_kept(after, replies);
            },
            Some(round) => {
                let own = replies(desk.next);
                lemma_carried_out_keeps_config(
                    desk.workflow,
                    desk.guarded,
                    desk.context,
                    round,
                    own,
                );
                if let Ok(context) = carried_out(
                    desk.workflow,
                    desk.guarded,
                    desk.context,
                    round,
                    own,
                ) {
                    law_config_is_kept(after.with_context(context), replies);
                }
            },
        }
    }
}

/// Whether the output under a key is a text.
pub open spec fn answered(context: ContextView, key: Seq<char>) -> bool {
    Json::Object(context.node_outputs).member(key) is Some && Json::Object(
        context.node_outputs,
    ).member(key)->0 is Text
}

/// Whether a key holds the same output in two contexts.
pub open spec fn same_output(a: ContextView, b: ContextView, key: Seq<char>) -> bool {
    Json::Object(a.node_outputs).member(key) == Json::Object(b.node_outputs).member(key)
}

/// Carrying out the calls of outputs only ever puts texts in their place.
proof fn lemma_outputs_become_texts(
    desk: DeskView,
    replies: spec_fn(int) -> Replies,
    key: Seq<char>,
)
    ensures
        all_carried_out(desk, replies) matches Ok(after) ==> answered(after, key) || same_output(
            after,
            desk.context,
            key,
        ),
    decreases desk.outputs.len() - desk.next,
{
    if 0 <= desk.next < desk.outputs.len() {
        let after = DeskView { next: desk.next + 1, ..desk };
        match round_in(desk.workflow, desk.outputs[desk.next]) {
            None => {
                lemma_outputs_become_texts(after, replies, key);
            },
            Some(round) => {
                if let Ok(context) = carried_out(
                    desk.workflow,
                    desk.guarded,
                    desk.context,
                    round,
                    replies(desk.next),
                ) {
                    assert(answered(context, key) || same_output(context, desk.context, key));
                    lemma_outputs_become_texts(after.with_context(context), replies, key);
                }
            },
        }
    }
}

/// Every agent whose output asks for tools gets a text in its place, whatever the language model
/// and the guardrail reply.
pub proof fn law_every_agent_is_answered(
    desk: DeskView,
    replies: spec_fn(int) -> Replies,
    i: int,
)
    requires
        0 <= desk.next <= i < desk.outputs.len(),
        round_in(desk.workflow, desk.outputs[i]) is Some,
        round_in(desk.workflow, desk.outputs[i])->0.node.node_type == NodeType::Agent,
    ensures
        all_carried_out(desk, replies) matches Ok(after) ==> answered(
            after,
            round_in(desk.workflow, desk.outputs[i])->0.node.id,
        ),
    decreases desk.outputs.len() - desk.next,
{
    let after = DeskView { next: desk.next + 1, ..desk };
    match round_in(desk.workflow, desk.outputs[desk.next]) {
        None => {
            law_every_agent_is_answered(after, replies, i);
        },
        Some(round) => {
            if let Ok(context) = carried_out(
                desk.workflow,
                desk.guarded,
                desk.context,
                round,
                replies(desk.next),
            ) {
                if desk.next == i {
                    assert(answered(context, round.node.id));
                    lemma_outputs_become_texts(
                        after.with_context(context),
                        replies,
                        round.node.id,
                    );
                } else {
                    law_every_agent_is_answered(after.with_context(context), replies, i);
                }
            }
        },
    }
}

/// Where all nodes are agents that are listed under their own ids, nothing is left pending: no
/// output of the final context asks for tools.
pub proof fn law_nothing_is_left_pending(
    desk: DeskView,
    replies: spec_fn(int) -> Replies,
    key: Seq<char>,
)
    requires
        desk.next == 0,
        desk.context.node_outputs == map_of(desk.outputs),
        forall|id: Seq<char>|
            (#[trigger] node_under(desk.workflow, id)) matches Some(node) ==> node.node_type
                == NodeType::Agent && node.id == id,
    ensures
        all_carried_out(desk, replies) matches Ok(after) ==> (Json::Object(
            after.node_outputs,
        ).member(key) matches Some(output) ==> round_in(desk.workflow, (key, output)) is None),
{
    if let Ok(after) = all_carried_out(desk, replies) {
        lemma_outputs_become_texts(desk, replies, key);
        if !answered(after, key) && after.node_outputs.contains_key(key) {
            assert(has_key(desk.outputs, key));
            let i = key_index(desk.outputs, key);
            assert(desk.outputs[i].0 == key);
            assert(desk.outputs[i] == (key, desk.context.node_outputs[key]));
            if round_in(desk.workflow, desk.outputs[i]) is Some {
                assert(node_under(desk.workflow, key) is Some);
                law_every_agent_is_answered(desk, replies, i);
            }
        }
    }
}

/// Where no closing answer can be had, the report on the tools' results is the node's output, and
/// nothing else changes.
pub proof fn law_summary_is_kept(
    context: ContextView,
    round: RoundView,
    findings: FindingsView,
    key: Seq<char>,
)
    ensures
        ({
            let after = kept_summary(context, round, findings);
            &&& after.node_outputs.contains_key(round.node.id)
            &&& after.node_outputs[round.node.id] == Json::Text(findings.summary)
            &&& key != round.node.id ==> Json::Object(after.node_outputs).member(key)
                == Json::Object(context.node_outputs).member(key)
            &&& after.variables == context.variables
            &&& after.metadata == context.metadata
        }),
{
}

/// Outputs that ask for nothing leave the context as it was.
pub proof fn law_nothing_pending_changes_nothing(
    desk: DeskView,
    replies: spec_fn(int) -> Replies,
)
    requires
        forall|i: int|
            0 <= i < desk.outputs.len() ==> round_in(
                desk.workflow,
                #[trigger] desk.outputs[i],
            ) is None,
    ensures
        all_carried_out(desk, replies) == Ok::<
            ContextView,
            WorkflowErrorView,
        >(desk.context),
    decreases desk.outputs.len() - desk.next,
{
    if 0 <= desk.next < desk.outputs.len() {
        assert(round_in(desk.workflow, desk.outputs[desk.next]) is None);
        law_nothing_pending_changes_nothing(DeskView { next: desk.next + 1, ..desk }, replies);
    }
}

/// Whether no two nodes are listed under one id.
pub open spec fn distinct_ids(nodes: Seq<(Seq<char>, NodeView)>) -> bool {
    forall|i: int, j: int|
        #![trigger nodes[i], nodes[j]]
        0 <= i < nodes.len() && 0 <= j < nodes.len() && i != j ==> nodes[i].0 != nodes[j].0
}

proof fn lemma_node_under(nodes: Seq<(Seq<char>, NodeView)>, id: Seq<char>)
    ensures
        match node_under(nodes, id) {
            Some(node) => exists|i: int| 0 <= i < nodes.len() && #[trigger] nodes[i] == (id, node),
            None => forall|i: int| 0 <= i < nodes.len() ==> (#[trigger] nodes[i]).0 != id,
        },
    decreases nodes.len(),
{
    if nodes.len() > 0 && nodes[0].0 != id {
        let rest = nodes.drop_first();
        lemma_node_under(rest, id);
        if let Some(node) = node_under(rest, id) {
            let i = choose|i: int| 0 <= i < rest.len() && #[trigger] rest[i] == (id, node);
            assert(nodes[i + 1] == (id, node));
        } else {
            assert forall|i: int| 0 <= i < nodes.len() implies (#[trigger] nodes[i]).0 != id by {
                if i > 0 {
                    assert(rest[i - 1].0 != id);
                }
            }
        }
    } else if nodes.len() > 0 {
        assert(nodes[0] == (id, nodes[0].1));
    }
}

/// Which node is found under an id does not depend on the order in which nodes are walked, as
/// long as no two are listed under one id.
pub proof fn law_nodes_are_found_in_any_order(
    a: Seq<(Seq<char>, NodeView)>,
    b: Seq<(Seq<char>, NodeView)>,
    id: Seq<char>,
)
    requires
        distinct_ids(a),
        a.to_multiset() == b.to_multiset(),
    ensures
        node_under(a, id) == node_under(b, id),
{
    broadcast use vstd::seq_lib::group_to_multiset_ensures;

    lemma_node_under(a, id);
    lemma_node_under(b, id);
    if let Some(node) = node_under(b, id) {
        let j = choose|j: int| 0 <= j < b.len() && #[trigger] b[j] == (id, node);
        assert(b.contains((id, node)));
        assert(b.to_multiset().count((id, node)) > 0);
        assert(a.contains((id, node)));
        let i = choose|i: int| 0 <= i < a.len() && #[trigger] a[i] == (id, node);
        assert(a[i].0 == id);
    }
    if let Some(node) = node_under(a, id) {
        assert(a.contains((id, node)));
        assert(a.to_multiset().count((id, node)) > 0);
        assert(b.contains((id, node)));
        let j = choose|j: int| 0 <= j < b.len() && #[trigger] b[j] == (id, node);
        assert(b[j].0 == id);
    }
}

/// Where the tools fail, the session ends at once and the context stays as it was.
pub proof fn law_failing_tools_end_the_session(session: SessionView, error: Seq<char>)
    requires
        session.stage is Running,
    ensures
        ({
            let (next, action) = session.step(EventView::ToolsRan(Err(error)));
            &&& next.stage is Failed
            &&& next.desk == session.desk
            &&& action is Fail
            &&& forall|event: EventView| !#[trigger] next.awaits(event)
        }),
{
}

} // verus!
