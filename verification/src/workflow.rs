//! The workflow that is run: its nodes and their configuration.
use crate::context::ValueMap;
use crate::json::{json_of, jsons_of, Json};
use crate::text::{same_text, texts_of};
use serde_json::Value;
use vstd::prelude::*;

verus! {

/// What a node does. Only agents talk to a language model.
#[derive(Clone, Copy, PartialEq, Eq, Structural, Debug)]
pub enum NodeType {
    Agent,
    Other,
}

/// A node of a workflow.
pub struct WorkflowNode {
    pub id: String,
    pub name: String,
    pub node_type: NodeType,
    pub config: ValueMap,
}

/// The content of a [`WorkflowNode`].
#[verifier::ext_equal]
pub struct NodeView {
    pub id: Seq<char>,
    pub name: Seq<char>,
    pub node_type: NodeType,
    pub config: Map<Seq<char>, Json>,
}

impl View for WorkflowNode {
    type V = NodeView;

    open spec fn view(&self) -> NodeView {
        NodeView {
            id: self.id@,
            name: self.name@,
            node_type: self.node_type,
            config: self.config@,
        }
    }
}

/// A workflow: its nodes, each under the id by which it is found, in the order in which they are
/// walked.
pub struct Workflow {
    pub nodes: Vec<(String, WorkflowNode)>,
}

/// The id and the content of a listed node.
pub open spec fn listed_node(entry: (String, WorkflowNode)) -> (Seq<char>, NodeView) {
    (entry.0@, entry.1@)
}

impl View for Workflow {
    type V = Seq<(Seq<char>, NodeView)>;

    open spec fn view(&self) -> Seq<(Seq<char>, NodeView)> {
        self.nodes@.map_values(|entry: (String, WorkflowNode)| listed_node(entry))
    }
}

/// The first node that is listed under an id.
pub open spec fn node_under(nodes: Seq<(Seq<char>, NodeView)>, id: Seq<char>) -> Option<NodeView>
    decreases nodes.len(),
{
    if nodes.len() == 0 {
        None
    } else if nodes[0].0 == id {
        Some(nodes[0].1)
    } else {
        node_under(nodes.drop_first(), id)
    }
}

/// The strings among several values, in order.
pub open spec fn texts_among(values: Seq<Json>) -> Seq<Seq<char>>
    decreases values.len(),
{
    if values.len() == 0 {
        Seq::empty()
    } else {
        match values.last().text() {
            Some(text) => texts_among(values.drop_last()).push(text),
            None => texts_among(values.drop_last()),
        }
    }
}

impl NodeView {
    /// The names of the tools that the node may use: the strings in its `tools` list.
    pub open spec fn tools(self) -> Seq<Seq<char>> {
        match Json::Object(self.config).member("tools"@) {
            Some(Json::Array(values)) => texts_among(values),
            _ => Seq::empty(),
        }
    }
}

impl Workflow {
    /// Where the first node stands that is listed under an id.
    pub fn find_node(&self, id: &str) -> (index: Option<usize>)
        ensures
            match index {
                Some(i) => i < self.nodes.len() && node_under(self@, id@) == Some(
                    self.nodes[i as int].1@,
                ),
                None => node_under(self@, id@) is None,
            },
    {
        let mut i: usize = 0;
        assert(self@.skip(0) == self@);
        while i < self.nodes.len()
            invariant
                i <= self.nodes.len(),
                node_under(self@, id@) == node_under(self@.skip(i as int), id@),
            decreases self.nodes.len() - i,
        {
            assert(self@[i as int] == listed_node(self.nodes[i as int]));
            if same_text(self.nodes[i].0.as_str(), id) {
                return Some(i);
            }
            assert(self@.skip(i as int).drop_first() == self@.skip(i + 1));
            i += 1;
        }
        None
    }
}

impl WorkflowNode {
    /// The names of the tools that the node may use.
    pub fn tools(&self) -> (names: Vec<String>)
        ensures
            texts_of(names@) == self@.tools(),
    {
        let mut names: Vec<String> = Vec::new();
        assert(texts_of(names@) =~= Seq::empty());
        if let Some(listed) = self.config.get("tools") {
            if let Some(values) = listed.as_array() {
                let ghost all = jsons_of(values@);
                let mut i: usize = 0;
                assert(all.take(0) =~= Seq::empty());
                while i < values.len()
                    invariant
                        i <= values.len(),
                        all == jsons_of(values@),
                        texts_of(names@) == texts_among(all.take(i as int)),
                    decreases values.len() - i,
                {
                    let ghost before = names@;
                    if let Some(name) = values[i].as_str() {
                        names.push(name.to_owned());
                        assert(texts_of(names@) =~= texts_of(before).push(name@));
                    }
                    assert(all.take(i + 1).drop_last() == all.take(i as int));
                    assert(all.take(i + 1).last() == json_of(values[i as int]));
                    i += 1;
                }
                assert(all.take(values.len() as int) == all);
            }
        }
        names
    }
}

} // verus!
