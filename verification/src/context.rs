//! What a workflow run has produced so far.
use crate::json::{json_of, Json};
use crate::text::same_text;
use serde_json::Value;
use vstd::prelude::*;

verus! {

/// Whether no two entries of a listing share a key.
pub open spec fn distinct_keys(listing: Seq<(Seq<char>, Json)>) -> bool {
    forall|i: int, j: int|
        #![trigger listing[i], listing[j]]
        0 <= i < listing.len() && 0 <= j < listing.len() && i != j ==> listing[i].0
            != listing[j].0
}

/// Where a key stands in a listing; meaningless where it does not.
pub open spec fn key_index(listing: Seq<(Seq<char>, Json)>, key: Seq<char>) -> int {
    choose|i: int| 0 <= i < listing.len() && (#[trigger] listing[i]).0 == key
}

/// Whether a key stands in a listing.
pub open spec fn has_key(listing: Seq<(Seq<char>, Json)>, key: Seq<char>) -> bool {
    exists|i: int| 0 <= i < listing.len() && (#[trigger] listing[i]).0 == key
}

/// A listing as a map.
pub open spec fn map_of(listing: Seq<(Seq<char>, Json)>) -> Map<Seq<char>, Json> {
    Map::new(
        |key: Seq<char>| has_key(listing, key),
        |key: Seq<char>| listing[key_index(listing, key)].1,
    )
}

/// The key and the content of an entry.
pub open spec fn entry_of(entry: (String, Value)) -> (Seq<char>, Json) {
    (entry.0@, json_of(entry.1))
}

proof fn lemma_listed(listing: Seq<(Seq<char>, Json)>, i: int)
    requires
        distinct_keys(listing),
        0 <= i < listing.len(),
    ensures
        map_of(listing).contains_key(listing[i].0),
        map_of(listing)[listing[i].0] == listing[i].1,
{
    let j = key_index(listing, listing[i].0);
    assert(has_key(listing, listing[i].0));
    assert(listing[j].0 == listing[i].0);
}

proof fn lemma_pushed(listing: Seq<(Seq<char>, Json)>, key: Seq<char>, value: Json)
    requires
        distinct_keys(listing),
        !has_key(listing, key),
    ensures
        distinct_keys(listing.push((key, value))),
        map_of(listing.push((key, value))) == map_of(listing).insert(key, value),
{
    let grown = listing.push((key, value));
    assert forall|k: Seq<char>| has_key(grown, k) == (has_key(listing, k) || k == key) by {
        if has_key(listing, k) {
            let i = key_index(listing, k);
            assert(grown[i].0 == k);
        }
        if k == key {
            assert(grown[listing.len() as int].0 == k);
        }
        if has_key(grown, k) {
            let i = key_index(grown, k);
            if i < listing.len() {
                assert(listing[i].0 == k);
            }
        }
    }
    assert forall|k: Seq<char>| has_key(grown, k) implies map_of(grown)[k] == map_of(
        listing,
    ).insert(key, value)[k] by {
        let i = key_index(grown, k);
        lemma_listed(grown, i);
        if i < listing.len() {
            lemma_listed(listing, i);
        }
    }
    assert(map_of(grown) =~= map_of(listing).insert(key, value));
}

proof fn lemma_replaced(listing: Seq<(Seq<char>, Json)>, i: int, value: Json)
    requires
        distinct_keys(listing),
        0 <= i < listing.len(),
    ensures
        distinct_keys(listing.update(i, (listing[i].0, value))),
        map_of(listing.update(i, (listing[i].0, value))) == map_of(listing).insert(
            listing[i].0,
            value,
        ),
{
    let key = listing[i].0;
    let changed = listing.update(i, (key, value));
    assert forall|j: int| 0 <= j < listing.len() implies (#[trigger] changed[j]).0
        == listing[j].0 by {}
    assert forall|k: Seq<char>| has_key(changed, k) == has_key(listing, k) by {
        if has_key(listing, k) {
            let j = key_index(listing, k);
            assert(changed[j].0 == k);
        }
        if has_key(changed, k) {
            let j = key_index(changed, k);
            assert(listing[j].0 == k);
        }
    }
    assert(has_key(listing, key));
    assert forall|k: Seq<char>| has_key(changed, k) implies map_of(changed)[k] == map_of(
        listing,
    ).insert(key, value)[k] by {
        let j = key_index(changed, k);
        lemma_listed(changed, j);
        lemma_listed(listing, j);
    }
    assert(map_of(changed) =~= map_of(listing).insert(key, value));
}

/// A map from texts to JSON values. It can be walked, in the order in which the keys were first
/// inserted; no key occurs twice.
pub struct ValueMap {
    entries: Vec<(String, Value)>,
}

impl View for ValueMap {
    type V = Map<Seq<char>, Json>;

    open spec fn view(&self) -> Map<Seq<char>, Json> {
        map_of(self.listing())
    }
}

impl ValueMap {
    /// The entries, in the order in which they are walked.
    pub closed spec fn listing(&self) -> Seq<(Seq<char>, Json)> {
        self.entries@.map_values(|entry: (String, Value)| entry_of(entry))
    }

    #[verifier::type_invariant]
    spec fn no_key_twice(&self) -> bool {
        distinct_keys(self.listing())
    }

    /// A map without entries.
    pub fn new() -> (map: ValueMap)
        ensures
            map.listing() == Seq::<(Seq<char>, Json)>::empty(),
            map@ == Map::<Seq<char>, Json>::empty(),
    {
        let map = ValueMap { entries: Vec::new() };
        assert(map.listing() =~= Seq::<(Seq<char>, Json)>::empty());
        assert(map@ =~= Map::<Seq<char>, Json>::empty());
        map
    }

    /// The number of entries.
    pub fn len(&self) -> (len: usize)
        ensures
            len == self.listing().len(),
            distinct_keys(self.listing()),
    {
        proof {
            use_type_invariant(self);
        }
        self.entries.len()
    }

    /// The `i`-th entry of the walk.
    pub fn entry_at(&self, i: usize) -> (entry: (&String, &Value))
        requires
            i < self.listing().len(),
        ensures
            (entry.0@, json_of(*entry.1)) == self.listing()[i as int],
            self@.contains_key(entry.0@),
            self@[entry.0@] == json_of(*entry.1),
    {
        proof {
            use_type_invariant(self);
            lemma_listed(self.listing(), i as int);
        }
        let entry = &self.entries[i];
        (&entry.0, &entry.1)
    }

    /// A map with the same entries in the same order.
    pub fn snapshot(&self) -> (copy: ValueMap)
        ensures
            copy.listing() == self.listing(),
            copy@ == self@,
    {
        let mut entries: Vec<(String, Value)> = Vec::new();
        let mut i: usize = 0;
        while i < self.entries.len()
            invariant
                i <= self.entries.len(),
                entries.len() == i,
                forall|j: int|
                    0 <= j < i ==> entry_of(#[trigger] entries[j]) == entry_of(self.entries[j]),
            decreases self.entries.len() - i,
        {
            let entry = &self.entries[i];
            entries.push((entry.0.clone(), entry.1.clone()));
            i += 1;
        }
        proof {
            use_type_invariant(self);
            assert(entries@.map_values(|entry: (String, Value)| entry_of(entry))
                =~= self.listing());
        }
        ValueMap { entries }
    }

    fn position(&self, key: &str) -> (position: Option<usize>)
        ensures
            match position {
                Some(i) => i < self.listing().len() && self.listing()[i as int].0 == key@,
                None => !has_key(self.listing(), key@),
            },
    {
        let mut i: usize = 0;
        while i < self.entries.len()
            invariant
                i <= self.entries.len(),
                forall|j: int| 0 <= j < i ==> (#[trigger] self.listing()[j]).0 != key@,
            decreases self.entries.len() - i,
        {
            assert(self.listing()[i as int] == entry_of(self.entries[i as int]));
            if same_text(self.entries[i].0.as_str(), key) {
                return Some(i);
            }
            i += 1;
        }
        None
    }

    /// The value of a key.
    pub fn get(&self, key: &str) -> (value: Option<&Value>)
        ensures
            match value {
                Some(found) => self@.contains_key(key@) && json_of(*found) == self@[key@],
                None => !self@.contains_key(key@),
            },
    {
        match self.position(key) {
            Some(i) => {
                proof {
                    use_type_invariant(self);
                    lemma_listed(self.listing(), i as int);
                    assert(self.listing()[i as int] == entry_of(self.entries[i as int]));
                }
                Some(&self.entries[i].1)
            },
            None => None,
        }
    }

    /// Sets the value of a key. A new key comes last in the walk; a known one keeps its place.
    pub fn insert(&mut self, key: String, value: Value)
        ensures
            final(self)@ == old(self)@.insert(key@, json_of(value)),
            final(self).listing() == if old(self)@.contains_key(key@) {
                old(self).listing().update(
                    key_index(old(self).listing(), key@),
                    (key@, json_of(value)),
                )
            } else {
                old(self).listing().push((key@, json_of(value)))
            },
    {
        proof {
            use_type_invariant(&*self);
        }
        let ghost before = self.listing();
        let position = self.position(key.as_str());
        let mut entries: Vec<(String, Value)> = Vec::new();
        std::mem::swap(&mut entries, &mut self.entries);
        let ghost pair = entry_of((key, value));
        match position {
            Some(i) => {
                proof {
                    lemma_replaced(before, i as int, json_of(value));
                    assert(has_key(before, key@));
                    assert(key_index(before, key@) == i);
                }
                entries[i] = (key, value);
                assert(entries@.map_values(|entry: (String, Value)| entry_of(entry))
                    =~= before.update(i as int, pair));
            },
            None => {
                proof {
                    lemma_pushed(before, key@, json_of(value));
                }
                entries.push((key, value));
                assert(entries@.map_values(|entry: (String, Value)| entry_of(entry))
                    =~= before.push(pair));
            },
        }
        self.entries = entries;
    }
}

/// What a run has produced so far: the outputs of its nodes, its variables and its metadata.
pub struct WorkflowContext {
    pub node_outputs: ValueMap,
    pub variables: ValueMap,
    pub metadata: ValueMap,
}

/// The content of a [`WorkflowContext`].
#[verifier::ext_equal]
pub struct ContextView {
    pub node_outputs: Map<Seq<char>, Json>,
    pub variables: Map<Seq<char>, Json>,
    pub metadata: Map<Seq<char>, Json>,
}

impl ContextView {
    pub open spec fn with_node_output(self, node: Seq<char>, output: Json) -> ContextView {
        ContextView { node_outputs: self.node_outputs.insert(node, output), ..self }
    }

    pub open spec fn with_variable(self, name: Seq<char>, value: Json) -> ContextView {
        ContextView { variables: self.variables.insert(name, value), ..self }
    }

    pub open spec fn with_metadata(self, key: Seq<char>, value: Json) -> ContextView {
        ContextView { metadata: self.metadata.insert(key, value), ..self }
    }
}

impl View for WorkflowContext {
    type V = ContextView;

    open spec fn view(&self) -> ContextView {
        ContextView {
            node_outputs: self.node_outputs@,
            variables: self.variables@,
            metadata: self.metadata@,
        }
    }
}

impl WorkflowContext {
    /// Nothing produced yet.
    pub fn new() -> (context: WorkflowContext)
        ensures
            context@.node_outputs == Map::<Seq<char>, Json>::empty(),
            context@.variables == Map::<Seq<char>, Json>::empty(),
            context@.metadata == Map::<Seq<char>, Json>::empty(),
    {
        WorkflowContext {
            node_outputs: ValueMap::new(),
            variables: ValueMap::new(),
            metadata: ValueMap::new(),
        }
    }

    /// Sets the output that is stored under a node's id or name.
    pub fn set_node_output(&mut self, node: &str, output: Value)
        ensures
            final(self)@ == old(self)@.with_node_output(node@, json_of(output)),
            final(self).variables == old(self).variables,
            final(self).metadata == old(self).metadata,
    {
        self.node_outputs.insert(node.to_owned(), output);
    }

    /// Sets a variable.
    pub fn set_variable(&mut self, name: &str, value: Value)
        ensures
            final(self)@ == old(self)@.with_variable(name@, json_of(value)),
            final(self).node_outputs == old(self).node_outputs,
            final(self).metadata == old(self).metadata,
    {
        self.variables.insert(name.to_owned(), value);
    }

    /// Sets an entry of the metadata.
    pub fn set_metadata(&mut self, key: String, value: Value)
        ensures
            final(self)@ == old(self)@.with_metadata(key@, json_of(value)),
            final(self).node_outputs == old(self).node_outputs,
            final(self).variables == old(self).variables,
    {
        self.metadata.insert(key, value);
    }
}

} // verus!
