//! The rules of a Process Definition graph and of a transition: which
//! definitions are well formed, which Object properties hold a process state,
//! and which transition a request names.
use vstd::prelude::*;
use crate::contracts::{PropertyValue, PropertyValueKind, PropertyValueView};
use crate::object_errors::{ObjectRuntimeError, ObjectRuntimeErrorView, ValidationError, ValidationErrorView};
use crate::object_types::{ObjectRecord, ObjectTypeDefinition};
use crate::process_errors::{
    ProcessDefinitionValidationError, ProcessDefinitionValidationErrorView, ProcessEngineError, ProcessEngineErrorView,
};
use crate::process_types::{
    current_node_key, current_node_property_key, last_transaction_key, last_transaction_property_key,
    ProcessDefinition, ProcessDefinitionId, ProcessDefinitionView, ProcessNodeId, ProcessTransitionView, TransactionId,
};
use crate::query_compare::{property_value_token, value_token};
use crate::text::{str_eq, string_of};

verus! {

/// The first failing entry node: empty, or not declared among the nodes.
pub open spec fn entries_failure(nodes: Seq<Seq<char>>, entries: Seq<Seq<char>>) -> Option<ProcessDefinitionValidationErrorView>
    decreases entries.len(),
{
    if entries.len() == 0 {
        None
    } else {
        match entries_failure(nodes, entries.drop_last()) {
            Some(e) => Some(e),
            None => {
                let n = entries.last();
                if n.len() == 0 {
                    Some(ProcessDefinitionValidationErrorView::EmptyNodeId)
                } else if !nodes.contains(n) {
                    Some(ProcessDefinitionValidationErrorView::EntryNodeNotDeclared { node: n })
                } else {
                    None
                }
            },
        }
    }
}

/// Some transition runs from `from` to `to`.
pub open spec fn has_edge(ts: Seq<ProcessTransitionView>, from: Seq<char>, to: Seq<char>) -> bool {
    exists|i: int| 0 <= i < ts.len() && #[trigger] ts[i].from == from && ts[i].to == to
}

/// The first failing transition: an empty node, an empty name, an undeclared
/// source or target, or an edge an earlier transition already has.
pub open spec fn transitions_failure(nodes: Seq<Seq<char>>, ts: Seq<ProcessTransitionView>) -> Option<
    ProcessDefinitionValidationErrorView,
>
    decreases ts.len(),
{
    if ts.len() == 0 {
        None
    } else {
        match transitions_failure(nodes, ts.drop_last()) {
            Some(e) => Some(e),
            None => {
                let t = ts.last();
                if t.from.len() == 0 || t.to.len() == 0 {
                    Some(ProcessDefinitionValidationErrorView::EmptyNodeId)
                } else if t.name.len() == 0 {
                    Some(ProcessDefinitionValidationErrorView::EmptyTransitionName { from: t.from, to: t.to })
                } else if !nodes.contains(t.from) {
                    Some(ProcessDefinitionValidationErrorView::TransitionSourceNotDeclared { node: t.from })
                } else if !nodes.contains(t.to) {
                    Some(ProcessDefinitionValidationErrorView::TransitionTargetNotDeclared { node: t.to })
                } else if has_edge(ts.drop_last(), t.from, t.to) {
                    Some(ProcessDefinitionValidationErrorView::DuplicateTransitionEdge { from: t.from, to: t.to })
                } else {
                    None
                }
            },
        }
    }
}

/// Why a definition is malformed, if it is: an empty identifier, a zero
/// schema version, no nodes, no entry nodes, an empty node, then the first
/// failing entry node and the first failing transition.
pub open spec fn definition_failure(d: ProcessDefinitionView) -> Option<ProcessDefinitionValidationErrorView> {
    if d.id.len() == 0 {
        Some(ProcessDefinitionValidationErrorView::EmptyDefinitionId)
    } else if d.schema_version == 0 {
        Some(ProcessDefinitionValidationErrorView::EmptySchemaVersion)
    } else if d.nodes.len() == 0 {
        Some(ProcessDefinitionValidationErrorView::EmptyNodeSet)
    } else if d.entry_nodes.len() == 0 {
        Some(ProcessDefinitionValidationErrorView::EmptyEntryNodeSet)
    } else if d.nodes.contains(Seq::<char>::empty()) {
        Some(ProcessDefinitionValidationErrorView::EmptyNodeId)
    } else if entries_failure(d.nodes, d.entry_nodes) is Some {
        entries_failure(d.nodes, d.entry_nodes)
    } else {
        transitions_failure(d.nodes, d.transitions)
    }
}

fn malformed(failure: ProcessDefinitionValidationError) -> (r: ProcessEngineError)
    ensures
        r@ == (ProcessEngineErrorView::MalformedDefinition { failure: failure@ }),
{
    ProcessEngineError::MalformedDefinition { failure }
}

/// Checks that a Process Definition is a well-formed graph.
pub fn validate_process_definition(definition: &ProcessDefinition) -> (r: Result<(), ProcessEngineError>)
    ensures
        r is Ok <==> definition_failure(definition@) is None,
        r matches Err(e) ==> e@ == (ProcessEngineErrorView::MalformedDefinition {
            failure: definition_failure(definition@).unwrap(),
        }),
{
    let ghost d = definition@;
    if definition.id.is_empty() {
        return Err(malformed(ProcessDefinitionValidationError::EmptyDefinitionId));
    }
    if definition.schema_version.value() == 0 {
        return Err(malformed(ProcessDefinitionValidationError::EmptySchemaVersion));
    }
    if definition.nodes.is_empty() {
        return Err(malformed(ProcessDefinitionValidationError::EmptyNodeSet));
    }
    if definition.entry_nodes.is_empty() {
        return Err(malformed(ProcessDefinitionValidationError::EmptyEntryNodeSet));
    }
    let n = definition.nodes.len();
    let mut i: usize = 0;
    while i < n
        invariant
            n == d.nodes.len(),
            d == definition@,
            d.id.len() > 0,
            d.schema_version != 0,
            d.nodes.len() > 0,
            d.entry_nodes.len() > 0,
            i <= n,
            forall|k: int| 0 <= k < i ==> (#[trigger] d.nodes[k]).len() > 0,
        decreases n - i,
    {
        if definition.nodes.item_at(i).is_empty() {
            proof {
                assert(d.nodes[i as int] =~= Seq::<char>::empty());
                assert(d.nodes.contains(Seq::<char>::empty()));
            }
            return Err(malformed(ProcessDefinitionValidationError::EmptyNodeId));
        }
        i = i + 1;
    }
    proof {
        if d.nodes.contains(Seq::<char>::empty()) {
            let k = d.nodes.index_of(Seq::<char>::empty());
            assert(d.nodes[k].len() > 0);
        }
    }
    let m = definition.entry_nodes.len();
    let mut j: usize = 0;
    proof {
        assert(d.entry_nodes.take(0) =~= Seq::<Seq<char>>::empty());
    }
    while j < m
        invariant
            m == d.entry_nodes.len(),
            d == definition@,
            d.id.len() > 0,
            d.schema_version != 0,
            d.nodes.len() > 0,
            d.entry_nodes.len() > 0,
            !d.nodes.contains(Seq::<char>::empty()),
            j <= m,
            entries_failure(d.nodes, d.entry_nodes.take(j as int)) is None,
        decreases m - j,
    {
        let entry = definition.entry_nodes.item_at(j);
        proof {
            assert(d.entry_nodes.take(j + 1).drop_last() =~= d.entry_nodes.take(j as int));
        }
        if entry.is_empty() {
            proof {
                lemma_entries_failure_extends(d.nodes, d.entry_nodes, j + 1);
            }
            return Err(malformed(ProcessDefinitionValidationError::EmptyNodeId));
        }
        if !definition.nodes.contains(entry) {
            proof {
                lemma_entries_failure_extends(d.nodes, d.entry_nodes, j + 1);
            }
            return Err(malformed(ProcessDefinitionValidationError::EntryNodeNotDeclared { node: entry.clone() }));
        }
        j = j + 1;
    }
    proof {
        assert(d.entry_nodes.take(m as int) =~= d.entry_nodes);
    }
    let nt = definition.transitions.len();
    let mut t: usize = 0;
    proof {
        assert(d.transitions.take(0) =~= Seq::<ProcessTransitionView>::empty());
    }
    while t < nt
        invariant
            nt == d.transitions.len(),
            d == definition@,
            d.id.len() > 0,
            d.schema_version != 0,
            d.nodes.len() > 0,
            d.entry_nodes.len() > 0,
            !d.nodes.contains(Seq::<char>::empty()),
            entries_failure(d.nodes, d.entry_nodes) is None,
            t <= nt,
            transitions_failure(d.nodes, d.transitions.take(t as int)) is None,
        decreases nt - t,
    {
        let transition = &definition.transitions[t];
        let ghost tv = d.transitions[t as int];
        assert(transition@ == tv);
        proof {
            assert(d.transitions.take(t + 1).drop_last() =~= d.transitions.take(t as int));
            assert(d.transitions.take(t + 1).last() == tv);
        }
        let failure = if transition.from.is_empty() || transition.to.is_empty() {
            Some(ProcessDefinitionValidationError::EmptyNodeId)
        } else if transition.name.as_str().is_empty() {
            Some(
                ProcessDefinitionValidationError::EmptyTransitionName {
                    from: transition.from.clone(),
                    to: transition.to.clone(),
                },
            )
        } else if !definition.nodes.contains(&transition.from) {
            Some(ProcessDefinitionValidationError::TransitionSourceNotDeclared { node: transition.from.clone() })
        } else if !definition.nodes.contains(&transition.to) {
            Some(ProcessDefinitionValidationError::TransitionTargetNotDeclared { node: transition.to.clone() })
        } else if edge_seen(&definition.transitions, t, &transition.from, &transition.to) {
            Some(
                ProcessDefinitionValidationError::DuplicateTransitionEdge {
                    from: transition.from.clone(),
                    to: transition.to.clone(),
                },
            )
        } else {
            None
        };
        match failure {
            Some(f) => {
                proof {
                    lemma_transitions_failure_extends(d.nodes, d.transitions, t + 1);
                }
                return Err(malformed(f));
            },
            None => {},
        }
        t = t + 1;
    }
    proof {
        assert(d.transitions.take(nt as int) =~= d.transitions);
    }
    Ok(())
}

fn edge_seen(transitions: &Vec<crate::process_types::ProcessTransition>, before: usize, from: &ProcessNodeId, to: &ProcessNodeId) -> (b: bool)
    requires
        before <= transitions@.len(),
    ensures
        b == has_edge(crate::process_types::transition_views(transitions@).take(before as int), from@, to@),
{
    let ghost ts = crate::process_types::transition_views(transitions@).take(before as int);
    let mut k: usize = 0;
    while k < before
        invariant
            before <= transitions@.len(),
            ts == crate::process_types::transition_views(transitions@).take(before as int),
            k <= before,
            forall|i: int| 0 <= i < k ==> !(#[trigger] ts[i].from == from@ && ts[i].to == to@),
        decreases before - k,
    {
        let other = &transitions[k];
        assert(ts[k as int] == other@);
        if str_eq(other.from.as_str(), from.as_str()) && str_eq(other.to.as_str(), to.as_str()) {
            assert(ts[k as int].from == from@ && ts[k as int].to == to@);
            return true;
        }
        k = k + 1;
    }
    false
}

proof fn lemma_entries_failure_extends(nodes: Seq<Seq<char>>, entries: Seq<Seq<char>>, j: int)
    requires
        0 <= j <= entries.len(),
        entries_failure(nodes, entries.take(j)) is Some,
    ensures
        entries_failure(nodes, entries) == entries_failure(nodes, entries.take(j)),
    decreases entries.len() - j,
{
    if j < entries.len() {
        assert(entries.take(j + 1).drop_last() =~= entries.take(j));
        lemma_entries_failure_extends(nodes, entries, j + 1);
    } else {
        assert(entries.take(j) =~= entries);
    }
}

proof fn lemma_transitions_failure_extends(nodes: Seq<Seq<char>>, ts: Seq<ProcessTransitionView>, j: int)
    requires
        0 <= j <= ts.len(),
        transitions_failure(nodes, ts.take(j)) is Some,
    ensures
        transitions_failure(nodes, ts) == transitions_failure(nodes, ts.take(j)),
    decreases ts.len() - j,
{
    if j < ts.len() {
        assert(ts.take(j + 1).drop_last() =~= ts.take(j));
        lemma_transitions_failure_extends(nodes, ts, j + 1);
    } else {
        assert(ts.take(j) =~= ts);
    }
}

/// The first transition, in definition order, from `from` to `to`.
pub open spec fn first_edge(ts: Seq<ProcessTransitionView>, from: Seq<char>, to: Seq<char>) -> Option<int>
    decreases ts.len(),
{
    if ts.len() == 0 {
        None
    } else {
        match first_edge(ts.drop_last(), from, to) {
            Some(i) => Some(i),
            None => if ts.last().from == from && ts.last().to == to {
                Some(ts.len() - 1)
            } else {
                None
            },
        }
    }
}

/// The name of the transition a request makes: `entry` from no current node
/// into an entry node, else the first declared transition from the current
/// node to the target; a target outside the graph, a non-entry target of a
/// first transition and a missing edge are `NoSuchTransitionEdge`, and a
/// current node outside the graph is `UnknownCurrentState`.
pub open spec fn transition_name_outcome(d: ProcessDefinitionView, current: Option<Seq<char>>, to: Seq<char>) -> Result<
    Seq<char>,
    ProcessEngineErrorView,
> {
    if !d.nodes.contains(to) {
        Err(ProcessEngineErrorView::NoSuchTransitionEdge { from: current, to })
    } else {
        match current {
            None => if d.entry_nodes.contains(to) {
                Ok("entry"@)
            } else {
                Err(ProcessEngineErrorView::NoSuchTransitionEdge { from: None, to })
            },
            Some(from) => if !d.nodes.contains(from) {
                Err(ProcessEngineErrorView::UnknownCurrentState { recorded_value: from })
            } else {
                match first_edge(d.transitions, from, to) {
                    Some(i) => Ok(d.transitions[i].name),
                    None => Err(ProcessEngineErrorView::NoSuchTransitionEdge { from: Some(from), to }),
                }
            },
        }
    }
}

fn clone_node(n: Option<&ProcessNodeId>) -> (r: Option<ProcessNodeId>)
    ensures
        crate::process_errors::opt_node_view(r) == match n {
            Some(x) => Some(x@),
            None => None::<Seq<char>>,
        },
{
    match n {
        Some(x) => Some(x.clone()),
        None => None,
    }
}

/// Returns the name of the transition from the current node to the target.
pub fn transition_name_for_request(definition: &ProcessDefinition, current_node: Option<&ProcessNodeId>, to: &ProcessNodeId) -> (r:
    Result<String, ProcessEngineError>)
    ensures
        ({
            let current = match current_node {
                Some(x) => Some(x@),
                None => None::<Seq<char>>,
            };
            match transition_name_outcome(definition@, current, to@) {
                Ok(name) => r matches Ok(s) && s@ == name,
                Err(e) => r matches Err(x) && x@ == e,
            }
        }),
{
    let ghost d = definition@;
    if !definition.nodes.contains(to) {
        return Err(ProcessEngineError::NoSuchTransitionEdge { from: clone_node(current_node), to: to.clone() });
    }
    let from = match current_node {
        None => {
            if definition.entry_nodes.contains(to) {
                return Ok(string_of("entry"));
            }
            return Err(ProcessEngineError::NoSuchTransitionEdge { from: None, to: to.clone() });
        },
        Some(from) => from,
    };
    if !definition.nodes.contains(from) {
        return Err(ProcessEngineError::UnknownCurrentState { recorded_value: from.to_string() });
    }
    let n = definition.transitions.len();
    let mut i: usize = 0;
    proof {
        assert(d.transitions.take(0) =~= Seq::<ProcessTransitionView>::empty());
    }
    while i < n
        invariant
            n == d.transitions.len(),
            d == definition@,
            i <= n,
            d.nodes.contains(to@),
            d.nodes.contains(from@),
            current_node == Some(from),
            first_edge(d.transitions.take(i as int), from@, to@) is None,
        decreases n - i,
    {
        let transition = &definition.transitions[i];
        assert(transition@ == d.transitions[i as int]);
        proof {
            assert(d.transitions.take(i + 1).drop_last() =~= d.transitions.take(i as int));
        }
        if str_eq(transition.from.as_str(), from.as_str()) && str_eq(transition.to.as_str(), to.as_str()) {
            proof {
                lemma_first_edge_extends(d.transitions, from@, to@, i + 1);
            }
            return Ok(transition.name.clone());
        }
        i = i + 1;
    }
    proof {
        assert(d.transitions.take(n as int) =~= d.transitions);
    }
    Err(ProcessEngineError::NoSuchTransitionEdge { from: Some(from.clone()), to: to.clone() })
}

proof fn lemma_first_edge_extends(ts: Seq<ProcessTransitionView>, from: Seq<char>, to: Seq<char>, j: int)
    requires
        0 <= j <= ts.len(),
        first_edge(ts.take(j), from, to) is Some,
    ensures
        first_edge(ts, from, to) == first_edge(ts.take(j), from, to),
    decreases ts.len() - j,
{
    if j < ts.len() {
        assert(ts.take(j + 1).drop_last() =~= ts.take(j));
        lemma_first_edge_extends(ts, from, to, j + 1);
    } else {
        assert(ts.take(j) =~= ts);
    }
}

/// The process whose current node a property holds: the middle of a key
/// `process.` + identifier + `.current_node`.
pub open spec fn current_node_owner(key: Seq<char>) -> Option<Seq<char>> {
    if key.len() >= 21 && key.subrange(0, 8) == "process."@ && key.subrange(key.len() - 13, key.len() as int)
        == ".current_node"@ {
        Some(key.subrange(8, key.len() - 13))
    } else {
        None
    }
}

/// Returns the process whose current node a property key holds, if any.
pub fn extract_current_node_definition_id(key: &str) -> (r: Option<ProcessDefinitionId>)
    ensures
        match current_node_owner(key@) {
            Some(id) => r matches Some(x) && x@ == id,
            None => r is None,
        },
{
    let n = key.unicode_len();
    if n < 21 {
        return None;
    }
    let head = key.substring_char(0, 8);
    let tail = key.substring_char(n - 13, n);
    if str_eq(head, "process.") && str_eq(tail, ".current_node") {
        Some(ProcessDefinitionId::new(key.substring_char(8, n - 13)))
    } else {
        None
    }
}

/// The first property key, in key order, that holds the current node of a
/// process other than `definition_id`.
pub open spec fn other_process(keys: Seq<Seq<char>>, definition_id: Seq<char>) -> Option<Seq<char>>
    decreases keys.len(),
{
    if keys.len() == 0 {
        None
    } else {
        match other_process(keys.drop_last(), definition_id) {
            Some(o) => Some(o),
            None => match current_node_owner(keys.last()) {
                Some(o) => if o != definition_id {
                    Some(o)
                } else {
                    None
                },
                None => None,
            },
        }
    }
}

/// Fails when the Object is active in a process other than `definition_id`.
pub fn ensure_no_other_active_process(record: &ObjectRecord, definition_id: &ProcessDefinitionId) -> (r: Result<
    (),
    ProcessEngineError,
>)
    ensures
        match other_process(record@.property_keys, definition_id@) {
            None => r is Ok,
            Some(o) => r matches Err(e) && e@ == (ProcessEngineErrorView::ObjectAlreadyInDifferentProcess {
                active_definition_id: o,
            }),
        },
{
    let ghost keys = record@.property_keys;
    let n = record.properties.len();
    let mut i: usize = 0;
    proof {
        assert(keys.take(0) =~= Seq::<Seq<char>>::empty());
    }
    while i < n
        invariant
            n == keys.len(),
            keys == record@.property_keys,
            i <= n,
            other_process(keys.take(i as int), definition_id@) is None,
        decreases n - i,
    {
        let key = record.properties.key_at(i);
        proof {
            assert(keys.take(i + 1).drop_last() =~= keys.take(i as int));
        }
        match extract_current_node_definition_id(key.as_str()) {
            Some(active) => {
                if !str_eq(active.as_str(), definition_id.as_str()) {
                    proof {
                        lemma_other_process_extends(keys, definition_id@, i + 1);
                    }
                    return Err(ProcessEngineError::ObjectAlreadyInDifferentProcess { active_definition_id: active });
                }
            },
            None => {},
        }
        i = i + 1;
    }
    proof {
        assert(keys.take(n as int) =~= keys);
    }
    Ok(())
}

proof fn lemma_other_process_extends(keys: Seq<Seq<char>>, definition_id: Seq<char>, j: int)
    requires
        0 <= j <= keys.len(),
        other_process(keys.take(j), definition_id) is Some,
    ensures
        other_process(keys, definition_id) == other_process(keys.take(j), definition_id),
    decreases keys.len() - j,
{
    if j < keys.len() {
        assert(keys.take(j + 1).drop_last() =~= keys.take(j));
        lemma_other_process_extends(keys, definition_id, j + 1);
    } else {
        assert(keys.take(j) =~= keys);
    }
}

/// The node a recorded current-node value names: a non-empty enum value or
/// text; any other value is an unknown state, recorded by its canonical token.
pub open spec fn recorded_node(v: PropertyValueView) -> Result<Seq<char>, ProcessEngineErrorView> {
    match v {
        PropertyValueView::EnumValue(x) => if x.len() > 0 {
            Ok(x)
        } else {
            Err(ProcessEngineErrorView::UnknownCurrentState { recorded_value: value_token(v) })
        },
        PropertyValueView::Text { value, language } => if value.len() > 0 {
            Ok(value)
        } else {
            Err(ProcessEngineErrorView::UnknownCurrentState { recorded_value: value_token(v) })
        },
        _ => Err(ProcessEngineErrorView::UnknownCurrentState { recorded_value: value_token(v) }),
    }
}

/// Returns the Object's current node in a process, if it has entered it.
pub fn current_node_from_record(record: &ObjectRecord, definition_id: &ProcessDefinitionId) -> (r: Result<
    Option<ProcessNodeId>,
    ProcessEngineError,
>)
    ensures
        ({
            let key = current_node_key(definition_id@);
            if !record@.properties.contains_key(key) {
                r matches Ok(None)
            } else {
                match recorded_node(record@.properties[key]) {
                    Ok(n) => r matches Ok(Some(x)) && x@ == n,
                    Err(e) => r matches Err(x) && x@ == e,
                }
            }
        }),
{
    let key = current_node_property_key(definition_id);
    let value = match record.properties.get(&key) {
        None => {
            return Ok(None);
        },
        Some(v) => v,
    };
    match value {
        PropertyValue::EnumValue(x) => if !x.as_str().is_empty() {
            return Ok(Some(ProcessNodeId::new(x.as_str())));
        },
        PropertyValue::Text { value: x, language: _ } => if !x.as_str().is_empty() {
            return Ok(Some(ProcessNodeId::new(x.as_str())));
        },
        _ => {},
    }
    Err(ProcessEngineError::UnknownCurrentState { recorded_value: property_value_token(value) })
}

/// The Transaction a recorded last-Transaction value names: non-empty text;
/// any other value is an unknown state, recorded as the key, `=` and the
/// value's canonical token.
pub open spec fn recorded_transaction(key: Seq<char>, v: PropertyValueView) -> Result<Seq<char>, ProcessEngineErrorView> {
    match v {
        PropertyValueView::Text { value, language } => if value.len() > 0 {
            Ok(value)
        } else {
            Err(ProcessEngineErrorView::UnknownCurrentState { recorded_value: key + seq!['='] + value_token(v) })
        },
        _ => Err(ProcessEngineErrorView::UnknownCurrentState { recorded_value: key + seq!['='] + value_token(v) }),
    }
}

/// Returns the last Transaction recorded for the Object's process, if any.
pub fn prior_transaction_from_record(record: &ObjectRecord, definition_id: &ProcessDefinitionId) -> (r: Result<
    Option<TransactionId>,
    ProcessEngineError,
>)
    ensures
        ({
            let key = last_transaction_key(definition_id@);
            if !record@.properties.contains_key(key) {
                r matches Ok(None)
            } else {
                match recorded_transaction(key, record@.properties[key]) {
                    Ok(n) => r matches Ok(Some(x)) && x@ == n,
                    Err(e) => r matches Err(x) && x@ == e,
                }
            }
        }),
{
    let key = last_transaction_property_key(definition_id);
    let value = match record.properties.get(&key) {
        None => {
            return Ok(None);
        },
        Some(v) => v,
    };
    match value {
        PropertyValue::Text { value: x, language: _ } => if !x.as_str().is_empty() {
            return Ok(Some(TransactionId::new(x.as_str())));
        },
        _ => {},
    }
    let mut recorded = key.clone();
    crate::text::push_char(&mut recorded, '=');
    let token = property_value_token(value);
    recorded.append(token.as_str());
    assert(recorded@ =~= key@ + seq!['='] + value_token(value@));
    Err(ProcessEngineError::UnknownCurrentState { recorded_value: recorded })
}

/// Why an Object Type cannot hold a process's state, if it cannot: the
/// current-node property must be declared as an enum value, then the
/// last-Transaction property as text.
pub open spec fn declaration_failure(t: crate::object_types::ObjectTypeDefinitionView, definition_id: Seq<char>) -> Option<
    ProcessEngineErrorView,
> {
    match kind_failure(t, current_node_key(definition_id), PropertyValueKind::EnumValue) {
        Some(e) => Some(e),
        None => kind_failure(t, last_transaction_key(definition_id), PropertyValueKind::Text),
    }
}

/// Why a property is not declared with a kind, if it is not.
pub open spec fn kind_failure(
    t: crate::object_types::ObjectTypeDefinitionView,
    key: Seq<char>,
    expected: PropertyValueKind,
) -> Option<ProcessEngineErrorView> {
    if !t.property_keys.contains(key) {
        Some(ProcessEngineErrorView::ObjectTypeMissingProcessPropertyDeclaration { object_type: t.type_ref, property_key: key })
    } else if t.properties[t.property_keys.index_of(key)].kind != expected {
        Some(
            ProcessEngineErrorView::ObjectTypeProcessPropertyKindMismatch {
                object_type: t.type_ref,
                property_key: key,
                expected,
                actual: t.properties[t.property_keys.index_of(key)].kind,
            },
        )
    } else {
        None
    }
}

fn verify_property_kind(object_type: &ObjectTypeDefinition, property_key: String, expected: PropertyValueKind) -> (r:
    Result<(), ProcessEngineError>)
    ensures
        match kind_failure(object_type@, property_key@, expected) {
            None => r is Ok,
            Some(e) => r matches Err(x) && x@ == e,
        },
{
    proof {
        object_type.properties.lemma_shape();
    }
    match object_type.properties.find(&property_key) {
        None => Err(
            ProcessEngineError::ObjectTypeMissingProcessPropertyDeclaration {
                object_type: object_type.type_ref.clone(),
                property_key,
            },
        ),
        Some(i) => {
            let property = object_type.properties.value_at(i);
            proof {
                crate::collections::lemma_sorted_index_of::<String>(object_type.properties.keys(), i as int);
            }
            if property.kind != expected {
                return Err(
                    ProcessEngineError::ObjectTypeProcessPropertyKindMismatch {
                        object_type: object_type.type_ref.clone(),
                        property_key,
                        expected,
                        actual: property.kind,
                    },
                );
            }
            Ok(())
        },
    }
}

/// Checks that an Object Type declares the properties that hold a process's state.
pub fn verify_process_properties_declared(object_type: &ObjectTypeDefinition, definition_id: &ProcessDefinitionId) -> (r:
    Result<(), ProcessEngineError>)
    ensures
        match declaration_failure(object_type@, definition_id@) {
            None => r is Ok,
            Some(e) => r matches Err(x) && x@ == e,
        },
{
    verify_property_kind(object_type, current_node_property_key(definition_id), PropertyValueKind::EnumValue)?;
    verify_property_kind(object_type, last_transaction_property_key(definition_id), PropertyValueKind::Text)
}

/// The Process Engine error for a failed Object read: a missing Object or
/// Object Type keeps its kind, anything else is an Object Runtime failure.
pub open spec fn read_error(e: ObjectRuntimeErrorView) -> ProcessEngineErrorView {
    match e {
        ObjectRuntimeErrorView::ObjectNotFound { object_id } => ProcessEngineErrorView::ObjectNotFound { object_id },
        ObjectRuntimeErrorView::ObjectTypeNotFound { object_type } => ProcessEngineErrorView::ObjectTypeNotFound {
            object_type,
        },
        _ => ProcessEngineErrorView::ObjectRuntimeFailure { source: e },
    }
}

/// Maps a failed Object read into a Process Engine error.
pub fn map_object_read_error(error: ObjectRuntimeError) -> (r: ProcessEngineError)
    ensures
        r@ == read_error(error@),
{
    match error {
        ObjectRuntimeError::ObjectNotFound { object_id } => ProcessEngineError::ObjectNotFound { object_id },
        ObjectRuntimeError::ObjectTypeNotFound { object_type } => ProcessEngineError::ObjectTypeNotFound { object_type },
        source => ProcessEngineError::ObjectRuntimeFailure { source },
    }
}

/// The Process Engine error for a failed Object update: an unknown reserved
/// property means the precondition checks and the Object Runtime disagreed.
pub open spec fn update_error(e: ObjectRuntimeErrorView, definition_id: Seq<char>) -> ProcessEngineErrorView {
    match e {
        ObjectRuntimeErrorView::ValidationFailed { failure: ValidationErrorView::UnknownProperty { property } } => if property
            == current_node_key(definition_id) || property == last_transaction_key(definition_id) {
            ProcessEngineErrorView::InternalPreconditionInvariantViolated { property_key: property, source: e }
        } else {
            read_error(e)
        },
        _ => read_error(e),
    }
}

/// Maps a failed Object update into a Process Engine error.
pub fn map_object_update_error(error: ObjectRuntimeError, definition_id: &ProcessDefinitionId) -> (r: ProcessEngineError)
    ensures
        r@ == update_error(error@, definition_id@),
{
    let reserved = match &error {
        ObjectRuntimeError::ValidationFailed { failure: ValidationError::UnknownProperty { property } } => {
            let current = current_node_property_key(definition_id);
            let last = last_transaction_property_key(definition_id);
            if str_eq(property.as_str(), current.as_str()) || str_eq(property.as_str(), last.as_str()) {
                Some(property.clone())
            } else {
                None
            }
        },
        _ => None,
    };
    match reserved {
        Some(property_key) => ProcessEngineError::InternalPreconditionInvariantViolated { property_key, source: error },
        None => map_object_read_error(error),
    }
}

proof fn lemma_first_edge_found(ts: Seq<ProcessTransitionView>, from: Seq<char>, to: Seq<char>)
    requires
        first_edge(ts, from, to) is Some,
    ensures
        0 <= first_edge(ts, from, to).unwrap() < ts.len(),
        ts[first_edge(ts, from, to).unwrap()].from == from,
        ts[first_edge(ts, from, to).unwrap()].to == to,
    decreases ts.len(),
{
    if first_edge(ts.drop_last(), from, to) is Some {
        lemma_first_edge_found(ts.drop_last(), from, to);
    }
}

/// A first transition into a process is the `entry` transition, and only
/// into an entry node.
pub proof fn law_entry_transitions_enter_entry_nodes(d: ProcessDefinitionView, to: Seq<char>)
    ensures
        transition_name_outcome(d, None, to) is Ok ==> d.entry_nodes.contains(to) && transition_name_outcome(d, None, to)
            == Ok::<Seq<char>, ProcessEngineErrorView>("entry"@),
{
}

/// A transition from a current node is allowed only along a declared edge,
/// and carries that edge's name.
pub proof fn law_transitions_follow_declared_edges(d: ProcessDefinitionView, from: Seq<char>, to: Seq<char>)
    ensures
        transition_name_outcome(d, Some(from), to) is Ok ==> exists|i: int|
            0 <= i < d.transitions.len() && #[trigger] d.transitions[i] == (ProcessTransitionView {
                from,
                to,
                name: transition_name_outcome(d, Some(from), to)->Ok_0,
            }),
{
    if transition_name_outcome(d, Some(from), to) is Ok {
        lemma_first_edge_found(d.transitions, from, to);
        let i = first_edge(d.transitions, from, to).unwrap();
        assert(d.transitions[i] == (ProcessTransitionView { from, to, name: d.transitions[i].name }));
    }
}

proof fn lemma_transitions_valid(nodes: Seq<Seq<char>>, ts: Seq<ProcessTransitionView>)
    requires
        transitions_failure(nodes, ts) is None,
    ensures
        forall|i: int| 0 <= i < ts.len() ==> nodes.contains(#[trigger] ts[i].from) && nodes.contains(ts[i].to) && ts[i].name.len() > 0,
        forall|i: int, j: int|
            0 <= i < j < ts.len() ==> !(#[trigger] ts[i].from == #[trigger] ts[j].from && ts[i].to == ts[j].to),
    decreases ts.len(),
{
    if ts.len() > 0 {
        let prev = ts.drop_last();
        lemma_transitions_valid(nodes, prev);
        let n = ts.len() - 1;
        assert forall|i: int| 0 <= i < ts.len() implies nodes.contains(#[trigger] ts[i].from) && nodes.contains(ts[i].to)
            && ts[i].name.len() > 0 by {
            if i < n {
                assert(ts[i] == prev[i]);
            }
        }
        assert forall|i: int, j: int| 0 <= i < j < ts.len() implies !(#[trigger] ts[i].from == #[trigger] ts[j].from
            && ts[i].to == ts[j].to) by {
            if j < n {
                assert(ts[i] == prev[i] && ts[j] == prev[j]);
            } else {
                assert(ts[i] == prev[i]);
                if ts[i].from == ts[j].from && ts[i].to == ts[j].to {
                    assert(has_edge(prev, ts.last().from, ts.last().to));
                }
            }
        }
    }
}

/// A valid definition has non-empty identifier, schema version, nodes and
/// entry nodes; its entry nodes are declared; its transitions are named,
/// join declared nodes, and no two share an edge.
pub proof fn law_valid_definitions_are_well_formed_graphs(d: ProcessDefinitionView)
    requires
        definition_failure(d) is None,
    ensures
        d.id.len() > 0,
        d.schema_version > 0,
        d.nodes.len() > 0,
        d.entry_nodes.len() > 0,
        forall|i: int| 0 <= i < d.entry_nodes.len() ==> d.nodes.contains(#[trigger] d.entry_nodes[i]),
        forall|i: int| 0 <= i < d.transitions.len() ==> d.nodes.contains(#[trigger] d.transitions[i].from) && d.nodes.contains(
            d.transitions[i].to,
        ) && d.transitions[i].name.len() > 0,
        forall|i: int, j: int|
            0 <= i < j < d.transitions.len() ==> !(#[trigger] d.transitions[i].from == #[trigger] d.transitions[j].from
                && d.transitions[i].to == d.transitions[j].to),
{
    lemma_transitions_valid(d.nodes, d.transitions);
    lemma_entries_valid(d.nodes, d.entry_nodes);
}

proof fn lemma_entries_valid(nodes: Seq<Seq<char>>, entries: Seq<Seq<char>>)
    requires
        entries_failure(nodes, entries) is None,
    ensures
        forall|i: int| 0 <= i < entries.len() ==> nodes.contains(#[trigger] entries[i]),
    decreases entries.len(),
{
    if entries.len() > 0 {
        lemma_entries_valid(nodes, entries.drop_last());
        assert forall|i: int| 0 <= i < entries.len() implies nodes.contains(#[trigger] entries[i]) by {
            if i < entries.len() - 1 {
                assert(entries[i] == entries.drop_last()[i]);
            }
        }
    }
}

/// The reserved current-node property of a process names that process.
pub proof fn law_current_node_key_names_its_process(id: Seq<char>)
    ensures
        current_node_owner(current_node_key(id)) == Some(id),
{
    reveal_strlit("process.");
    reveal_strlit(".current_node");
    let key = current_node_key(id);
    assert(key.subrange(0, 8) =~= "process."@);
    assert(key.subrange(key.len() - 13, key.len() as int) =~= ".current_node"@);
    assert(key.subrange(8, key.len() - 13) =~= id);
}

} // verus!
