//! The Process Engine: a registry of immutable Process Definitions and the
//! plan of a transition, decided from the definition, the Object's record and
//! its Object Type before anything is written.
use vstd::prelude::*;
use crate::collections::{OrdMap, OrdSet};
use crate::contracts::{ObjectId, PropertyValue, PropertyValueView, Version};
use crate::event_engine::AppendEventRequest;
use crate::event_types::{CausationId, EventSource, EventTimestamp};
use crate::object_runtime::ObjectChanges;
use crate::object_types::{ObjectRecord, ObjectTypeDefinition, PropertyChange};
use crate::process_errors::{ProcessEngineError, ProcessEngineErrorView};
use crate::process_types::{
    absent_node, absent_node_value, current_node_key, current_node_property_key, last_transaction_key,
    last_transaction_property_key, node_value, process_node_value, process_transition_event_type_ref,
    transaction_id_value, ActorRef, ProcessDefinition, ProcessDefinitionId, ProcessDefinitionView, ProcessNodeId,
    TransactionId, TransactionTimestamp, TransitionRequest,
};
use crate::process_validation::{
    current_node_from_record, declaration_failure, definition_failure, ensure_no_other_active_process, other_process,
    prior_transaction_from_record, recorded_node, recorded_transaction, transition_name_for_request,
    transition_name_outcome, validate_process_definition, verify_process_properties_declared,
};
use crate::text::str_eq;

verus! {

/// The registry key of a definition: its identifier and schema version.
pub open spec fn definition_key(d: ProcessDefinitionView) -> (Seq<char>, u64) {
    (d.id, d.schema_version)
}

/// Registry of immutable Process Definition schema versions.
#[derive(Debug)]
pub struct ProcessEngine {
    definitions: Vec<ProcessDefinition>,
}

impl ProcessEngine {
    /// The registered definitions by identifier and schema version.
    pub closed spec fn registry(&self) -> Map<(Seq<char>, u64), ProcessDefinitionView> {
        Map::new(
            |k: (Seq<char>, u64)| exists|i: int| 0 <= i < self.definitions@.len() && definition_key(#[trigger] self.definitions@[i]@) == k,
            |k: (Seq<char>, u64)| self.definitions@[self.position(k)]@,
        )
    }

    closed spec fn position(&self, k: (Seq<char>, u64)) -> int {
        choose|i: int| 0 <= i < self.definitions@.len() && definition_key(#[trigger] self.definitions@[i]@) == k
    }

    #[verifier::type_invariant]
    closed spec fn distinct_keys(&self) -> bool {
        forall|i: int, j: int|
            0 <= i < self.definitions@.len() && 0 <= j < self.definitions@.len() && i != j ==> definition_key(
                #[trigger] self.definitions@[i]@,
            ) != definition_key(#[trigger] self.definitions@[j]@)
    }

    /// Creates an engine without definitions.
    pub fn new() -> (r: Self)
        ensures
            r.registry() == Map::<(Seq<char>, u64), ProcessDefinitionView>::empty(),
    {
        let r = ProcessEngine { definitions: Vec::new() };
        assert(r.registry() =~= Map::<(Seq<char>, u64), ProcessDefinitionView>::empty());
        r
    }

    fn find(&self, definition_id: &ProcessDefinitionId, schema_version: Version) -> (r: Option<usize>)
        ensures
            match r {
                Some(i) => i < self.definitions@.len() && definition_key(self.definitions@[i as int]@) == (
                    definition_id@,
                    schema_version@,
                ),
                None => !self.registry().contains_key((definition_id@, schema_version@)),
            },
    {
        let n = self.definitions.len();
        let mut i: usize = 0;
        while i < n
            invariant
                n == self.definitions@.len(),
                i <= n,
                forall|k: int| 0 <= k < i ==> definition_key(#[trigger] self.definitions@[k]@) != (
                    definition_id@,
                    schema_version@,
                ),
            decreases n - i,
        {
            let d = &self.definitions[i];
            if d.schema_version.value() == schema_version.value() && str_eq(d.id.as_str(), definition_id.as_str()) {
                return Some(i);
            }
            i = i + 1;
        }
        None
    }

    proof fn lemma_lookup(&self, i: int)
        requires
            self.distinct_keys(),
            0 <= i < self.definitions@.len(),
        ensures
            self.registry().contains_key(definition_key(self.definitions@[i]@)),
            self.registry()[definition_key(self.definitions@[i]@)] == self.definitions@[i]@,
    {
        let k = definition_key(self.definitions@[i]@);
        let p = self.position(k);
        assert(0 <= p < self.definitions@.len() && definition_key(self.definitions@[p]@) == k);
    }

    /// Registers one immutable Process Definition schema version.
    pub fn register_process_definition(&mut self, definition: ProcessDefinition) -> (r: Result<(), ProcessEngineError>)
        ensures
            definition_failure(definition@) is Some ==> (r matches Err(e) && e@ == (ProcessEngineErrorView::MalformedDefinition {
                failure: definition_failure(definition@).unwrap(),
            })),
            definition_failure(definition@) is None && old(self).registry().contains_key(definition_key(definition@))
                ==> (r matches Err(e) && e@ == (ProcessEngineErrorView::DuplicateDefinition {
                definition_id: definition@.id,
                schema_version: definition@.schema_version,
            })),
            r is Ok <==> definition_failure(definition@) is None && !old(self).registry().contains_key(
                definition_key(definition@),
            ),
            r is Ok ==> final(self).registry() == old(self).registry().insert(definition_key(definition@), definition@),
            r is Err ==> final(self).registry() == old(self).registry(),
    {
        proof {
            use_type_invariant(&*self);
        }
        validate_process_definition(&definition)?;
        match self.find(&definition.id, definition.schema_version) {
            Some(i) => {
                proof {
                    use_type_invariant(&*self);
                    self.lemma_lookup(i as int);
                }
                return Err(
                    ProcessEngineError::DuplicateDefinition {
                        definition_id: definition.id,
                        schema_version: definition.schema_version,
                    },
                );
            },
            None => {},
        }
        let ghost old_registry = self.registry();
        let ghost old_defs = self.definitions@;
        let ghost dv = definition@;
        let mut defs: Vec<ProcessDefinition> = Vec::new();
        std::mem::swap(&mut defs, &mut self.definitions);
        defs.push(definition);
        proof {
            let n = old_defs.len();
            assert forall|i: int, j: int|
                0 <= i < defs@.len() && 0 <= j < defs@.len() && i != j implies definition_key(#[trigger] defs@[i]@)
                != definition_key(#[trigger] defs@[j]@) by {
                if i < n && j < n {
                    assert(defs@[i] == old_defs[i] && defs@[j] == old_defs[j]);
                } else if i == n {
                    assert(defs@[j] == old_defs[j]);
                    if definition_key(old_defs[j]@) == definition_key(dv) {
                        assert(old_registry.contains_key(definition_key(dv)));
                    }
                } else {
                    assert(defs@[i] == old_defs[i]);
                    if definition_key(old_defs[i]@) == definition_key(dv) {
                        assert(old_registry.contains_key(definition_key(dv)));
                    }
                }
            }
        }
        *self = ProcessEngine { definitions: defs };
        proof {
            let n = old_defs.len();
            assert(self.definitions@[n as int]@ == dv);
            assert forall|i: int| 0 <= i < n implies definition_key(#[trigger] old_defs[i]@) != definition_key(dv) by {
                assert(old_defs[i] == self.definitions@[i]);
                if definition_key(old_defs[i]@) == definition_key(dv) {
                    assert(old_registry.contains_key(definition_key(dv)));
                }
            }
        }
        proof {
            assert(self.distinct_keys());
            assert forall|k: (Seq<char>, u64)| #[trigger] self.registry().contains_key(k) <==> old_registry.insert(
                definition_key(dv),
                dv,
            ).contains_key(k) by {
                if old_registry.contains_key(k) {
                    let p = choose|i: int| 0 <= i < old_defs.len() && definition_key(#[trigger] old_defs[i]@) == k;
                    assert(self.definitions@[p] == old_defs[p]);
                }
                if self.registry().contains_key(k) && k != definition_key(dv) {
                    let p = choose|i: int| 0 <= i < self.definitions@.len() && definition_key(#[trigger] self.definitions@[i]@) == k;
                    assert(p < old_defs.len());
                    assert(old_defs[p] == self.definitions@[p]);
                }
                if k == definition_key(dv) {
                    assert(definition_key(self.definitions@[old_defs.len() as int]@) == k);
                }
            }
            assert forall|k: (Seq<char>, u64)| #[trigger] self.registry().contains_key(k) implies self.registry()[k]
                == old_registry.insert(definition_key(dv), dv)[k] by {
                let p = choose|i: int| 0 <= i < self.definitions@.len() && definition_key(#[trigger] self.definitions@[i]@) == k;
                self.lemma_lookup(p);
                if k != definition_key(dv) {
                    assert(p < old_defs.len());
                    assert(old_defs[p] == self.definitions@[p]);
                    let q = choose|i: int| 0 <= i < old_defs.len() && definition_key(#[trigger] old_defs[i]@) == k;
                    assert(self.definitions@[q] == old_defs[q]);
                    if q != p {
                        assert(definition_key(self.definitions@[q]@) == definition_key(self.definitions@[p]@));
                    }
                    assert(old_registry[k] == old_defs[q]@) by {
                        let op = choose|i: int| 0 <= i < old_defs.len() && definition_key(#[trigger] old_defs[i]@) == k;
                        assert(self.definitions@[op] == old_defs[op]);
                        if op != q {
                            assert(definition_key(self.definitions@[op]@) == definition_key(self.definitions@[q]@));
                        }
                    }
                } else {
                    let n = old_defs.len() as int;
                    if p != n {
                        assert(definition_key(self.definitions@[p]@) == definition_key(self.definitions@[n]@));
                    }
                }
            }
            assert(self.registry() =~= old_registry.insert(definition_key(dv), dv));
        }
        Ok(())
    }

    /// Retrieves one registered Process Definition schema version.
    pub fn get_process_definition(&self, definition_id: &ProcessDefinitionId, schema_version: Version) -> (r: Result<
        ProcessDefinition,
        ProcessEngineError,
    >)
        ensures
            self.registry().contains_key((definition_id@, schema_version@)) ==> (r matches Ok(d) && d@ == self.registry()[(
                definition_id@,
                schema_version@,
            )]),
            !self.registry().contains_key((definition_id@, schema_version@)) ==> (r matches Err(e) && e@ == (
            ProcessEngineErrorView::DefinitionNotFound { definition_id: definition_id@, schema_version: schema_version@ })),
    {
        match self.find(definition_id, schema_version) {
            Some(i) => {
                proof {
                    use_type_invariant(self);
                    self.lemma_lookup(i as int);
                }
                Ok(self.definitions[i].clone())
            },
            None => Err(
                ProcessEngineError::DefinitionNotFound { definition_id: definition_id.clone(), schema_version },
            ),
        }
    }
}

/// Why a transition cannot be planned, checked in order: an empty Unit of
/// Work, an unregistered definition, an Object Type without the process
/// properties, an Object active in another process, an unreadable current
/// node or last Transaction, and a transition the graph does not allow.
pub open spec fn plan_failure(
    registry: Map<(Seq<char>, u64), ProcessDefinitionView>,
    request: TransitionRequest,
    record: crate::object_types::ObjectRecordView,
    object_type: crate::object_types::ObjectTypeDefinitionView,
) -> Option<ProcessEngineErrorView> {
    let id = request.definition_id@;
    let key = (id, request.schema_version@);
    let current_key = current_node_key(id);
    let last_key = last_transaction_key(id);
    if request.unit_of_work@.len() == 0 {
        Some(ProcessEngineErrorView::UnitOfWorkFailure { message: "unit of work must not be empty"@ })
    } else if !registry.contains_key(key) {
        Some(ProcessEngineErrorView::DefinitionNotFound { definition_id: id, schema_version: request.schema_version@ })
    } else if declaration_failure(object_type, id) is Some {
        declaration_failure(object_type, id)
    } else if other_process(record.property_keys, id) is Some {
        Some(
            ProcessEngineErrorView::ObjectAlreadyInDifferentProcess { active_definition_id: other_process(record.property_keys, id).unwrap() },
        )
    } else if record.properties.contains_key(current_key) && recorded_node(record.properties[current_key]) is Err {
        Some(recorded_node(record.properties[current_key])->Err_0)
    } else if record.properties.contains_key(last_key) && recorded_transaction(last_key, record.properties[last_key]) is Err {
        Some(recorded_transaction(last_key, record.properties[last_key])->Err_0)
    } else if transition_name_outcome(registry[key], current_node_of(record, id), request.to@) is Err {
        Some(transition_name_outcome(registry[key], current_node_of(record, id), request.to@)->Err_0)
    } else {
        None
    }
}

/// The Object's current node in a process, when it has a readable one.
pub open spec fn current_node_of(record: crate::object_types::ObjectRecordView, id: Seq<char>) -> Option<Seq<char>> {
    let key = current_node_key(id);
    if record.properties.contains_key(key) && recorded_node(record.properties[key]) is Ok {
        Some(recorded_node(record.properties[key])->Ok_0)
    } else {
        None
    }
}

/// Everything a legal transition writes, decided before any write.
#[derive(Debug)]
pub struct TransitionPlan {
    /// The definition the transition follows.
    pub definition: ProcessDefinition,
    /// The current node, or none for an entry transition.
    pub prior_node: Option<ProcessNodeId>,
    /// The name of the transition taken.
    pub transition_name: String,
    /// The value the current-node property held, or the not-started marker.
    pub prior_value: PropertyValue,
    /// The value the current-node property takes.
    pub new_value: PropertyValue,
    /// The last Transaction of the process, chained by the new one.
    pub prior_transaction: Option<TransactionId>,
    /// The Object version the update is based on.
    pub base_version: Version,
    /// The Object version the update produces.
    pub resulting_version: Version,
    /// The operation the paired Transaction records.
    pub operation: String,
}

/// The operation a transition's Transaction records:
/// `process.<definition>.transition.<name>`.
pub open spec fn transition_operation(definition_id: Seq<char>, name: Seq<char>) -> Seq<char> {
    "process."@ + definition_id + ".transition."@ + name
}

impl ProcessEngine {
    /// Plans a transition of an Object from its record and Object Type.
    pub fn plan_transition(&self, request: &TransitionRequest, record: &ObjectRecord, object_type: &ObjectTypeDefinition) -> (r:
        Result<TransitionPlan, ProcessEngineError>)
        requires
            record@.version < u64::MAX,
        ensures
            match plan_failure(self.registry(), *request, record@, object_type@) {
                Some(e) => r matches Err(x) && x@ == e,
                None => r matches Ok(plan) && {
                    let id = request.definition_id@;
                    let d = self.registry()[(id, request.schema_version@)];
                    let current = current_node_of(record@, id);
                    &&& plan.definition@ == d
                    &&& crate::process_errors::opt_node_view(plan.prior_node) == current
                    &&& Ok::<Seq<char>, ProcessEngineErrorView>(plan.transition_name@) == transition_name_outcome(d, current, request.to@)
                    &&& plan.prior_value@ == match current {
                        Some(n) => node_value(n),
                        None => absent_node(),
                    }
                    &&& plan.new_value@ == node_value(request.to@)
                    &&& plan.base_version@ == record@.version
                    &&& plan.resulting_version@ == record@.version + 1
                    &&& plan.operation@ == transition_operation(id, plan.transition_name@)
                    &&& match plan.prior_transaction {
                        Some(t) => record@.properties.contains_key(last_transaction_key(id)) && recorded_transaction(
                            last_transaction_key(id),
                            record@.properties[last_transaction_key(id)],
                        ) == Ok::<Seq<char>, ProcessEngineErrorView>(t@),
                        None => !record@.properties.contains_key(last_transaction_key(id)),
                    }
                },
            },
    {
        if request.unit_of_work.is_empty() {
            return Err(ProcessEngineError::UnitOfWorkFailure { message: String::from_str("unit of work must not be empty") });
        }
        let definition = self.get_process_definition(&request.definition_id, request.schema_version)?;
        verify_process_properties_declared(object_type, &definition.id)?;
        ensure_no_other_active_process(record, &definition.id)?;
        let current_node = current_node_from_record(record, &definition.id)?;
        let prior_transaction = prior_transaction_from_record(record, &definition.id)?;
        let transition_name = transition_name_for_request(&definition, current_node.as_ref(), &request.to)?;
        let prior_value = match &current_node {
            Some(node) => process_node_value(node),
            None => absent_node_value(),
        };
        let new_value = process_node_value(&request.to);
        let mut operation = String::from_str("process.");
        operation.append(request.definition_id.as_str());
        operation.append(".transition.");
        operation.append(transition_name.as_str());
        Ok(TransitionPlan {
            definition,
            prior_node: current_node,
            transition_name,
            prior_value,
            new_value,
            prior_transaction,
            base_version: record.version,
            resulting_version: record.version.next(),
            operation,
        })
    }
}

/// The property changes of a transition: the current node and the last
/// Transaction, each set.
pub open spec fn transition_change_map(definition_id: Seq<char>, to: Seq<char>, transaction_id: Seq<char>) -> Map<
    Seq<char>,
    crate::object_runtime::PropertyChangeView,
> {
    map![
        current_node_key(definition_id) => crate::object_runtime::PropertyChangeView::SetValue(node_value(to)),
        last_transaction_key(definition_id) => crate::object_runtime::PropertyChangeView::SetValue(
            PropertyValueView::Text { value: transaction_id, language: None },
        ),
    ]
}

/// Returns the Object changes a transition writes.
pub fn transition_changes(definition_id: &ProcessDefinitionId, to: &ProcessNodeId, transaction_id: &TransactionId) -> (r:
    ObjectChanges)
    ensures
        r.property_changes.as_map().map_values(|c: PropertyChange| c@) == transition_change_map(
            definition_id@,
            to@,
            transaction_id@,
        ),
        r.relations_to_add.as_set().len() == 0,
        r.relations_to_remove.as_set().len() == 0,
        r.lifecycle_state is None,
        r.ownership is None,
        r.permission_scope is None,
        r.retention_rule is None,
        r.external_references is None,
        r.comments_ref is None,
        r.attachments_ref is None,
{
    let mut changes = ObjectChanges::default();
    proof {
        changes.property_changes.lemma_shape();
        assert(changes.property_changes.as_map() =~= Map::empty());
    }
    let ghost base = changes.property_changes.as_map();
    changes.property_changes.insert(current_node_property_key(definition_id), PropertyChange::SetValue(process_node_value(to)));
    changes.property_changes.insert(
        last_transaction_property_key(definition_id),
        PropertyChange::SetValue(transaction_id_value(transaction_id)),
    );
    proof {
        assert(changes.property_changes.as_map().map_values(|c: PropertyChange| c@) =~= transition_change_map(
            definition_id@,
            to@,
            transaction_id@,
        ));
    }
    changes
}

/// The payload of a transition Event: the definition, the two nodes (the
/// not-started marker for an entry), the transition name and the actor as
/// text, and the edit timestamp as a date-time.
pub open spec fn transition_payload(
    definition_id: Seq<char>,
    from: Option<Seq<char>>,
    to: Seq<char>,
    name: Seq<char>,
    actor: Seq<char>,
    edit_timestamp: Seq<char>,
) -> Map<Seq<char>, PropertyValueView> {
    map![
        "definition_id"@ => PropertyValueView::Text { value: definition_id, language: None },
        "from_node"@ => PropertyValueView::Text {
            value: match from {
                Some(f) => f,
                None => "not-started"@,
            },
            language: None,
        },
        "to_node"@ => PropertyValueView::Text { value: to, language: None },
        "transition_name"@ => PropertyValueView::Text { value: name, language: None },
        "actor"@ => PropertyValueView::Text { value: actor, language: None },
        "edit_timestamp"@ => PropertyValueView::DateTime(edit_timestamp),
    ]
}

fn text_value(value: &str) -> (r: PropertyValue)
    ensures
        r@ == (PropertyValueView::Text { value: value@, language: None }),
{
    PropertyValue::Text { value: String::from_str(value), language: None }
}

/// Returns the payload of a transition Event.
pub fn transition_event_payload(
    definition_id: &ProcessDefinitionId,
    from: Option<&ProcessNodeId>,
    to: &ProcessNodeId,
    transition_name: &str,
    actor: &ActorRef,
    edit_timestamp: &TransactionTimestamp,
) -> (r: OrdMap<String, PropertyValue>)
    ensures
        crate::event_types::payload_view(r) == transition_payload(
            definition_id@,
            match from {
                Some(f) => Some(f@),
                None => None::<Seq<char>>,
            },
            to@,
            transition_name@,
            actor@,
            edit_timestamp@,
        ),
{
    let mut payload: OrdMap<String, PropertyValue> = OrdMap::new();
    let ghost mut expected: Map<Seq<char>, PropertyValueView> = Map::empty();
    proof {
        assert(crate::event_types::payload_view(payload) =~= expected);
    }
    let from_text = match from {
        Some(f) => f.as_str(),
        None => "not-started",
    };
    payload.insert(String::from_str("definition_id"), text_value(definition_id.as_str()));
    payload.insert(String::from_str("from_node"), text_value(from_text));
    payload.insert(String::from_str("to_node"), text_value(to.as_str()));
    payload.insert(String::from_str("transition_name"), text_value(transition_name));
    payload.insert(String::from_str("actor"), text_value(actor.as_str()));
    payload.insert(String::from_str("edit_timestamp"), PropertyValue::DateTime(edit_timestamp.to_string()));
    proof {
        assert(crate::event_types::payload_view(payload) =~= transition_payload(
            definition_id@,
            match from {
                Some(f) => Some(f@),
                None => None::<Seq<char>>,
            },
            to@,
            transition_name@,
            actor@,
            edit_timestamp@,
        ));
    }
    payload
}

/// Returns the Event append request of a committed transition: the
/// transition Event type and payload, the edit timestamp as occurrence time,
/// the receipt time as recording time, source `process-engine`, the Object,
/// and the Transaction as cause.
pub fn transition_event_request(request: &TransitionRequest, plan: &TransitionPlan, transaction_id: &TransactionId) -> (r:
    AppendEventRequest)
    ensures
        r.event_type@.name == "process.transitioned"@,
        r.event_type@.version == 1,
        crate::event_types::payload_view(r.payload) == transition_payload(
            request.definition_id@,
            crate::process_errors::opt_node_view(plan.prior_node),
            request.to@,
            plan.transition_name@,
            request.actor@,
            request.edit_timestamp@,
        ),
        r.occurred_at@ == request.edit_timestamp@,
        r.recorded_at@ == request.server_receipt_time@,
        r.source@ == "process-engine"@,
        r.object_refs.as_set() == set![request.object_id@],
        r.correlation_id is None,
        r.causation_id matches Some(c) && c@ == transaction_id@,
{
    let mut object_refs: OrdSet<ObjectId> = OrdSet::new();
    object_refs.insert(request.object_id.clone());
    proof {
        assert(object_refs.as_set() =~= set![request.object_id@]);
    }
    AppendEventRequest {
        event_type: process_transition_event_type_ref(),
        payload: transition_event_payload(
            &request.definition_id,
            plan.prior_node.as_ref(),
            &request.to,
            plan.transition_name.as_str(),
            &request.actor,
            &request.edit_timestamp,
        ),
        occurred_at: EventTimestamp::new(request.edit_timestamp.as_str()),
        recorded_at: EventTimestamp::new(request.server_receipt_time.as_str()),
        source: EventSource::new("process-engine"),
        object_refs,
        correlation_id: None,
        causation_id: Some(CausationId::new(transaction_id.as_str())),
    }
}

/// The recovery guidance after a failed transition Event append.
pub open spec fn recovery_guidance(error: Seq<char>) -> Seq<char> {
    "state and transaction committed; append process.transitioned event manually after resolving: "@ + error
}

/// Returns the outcome of a committed transition: complete with the Event
/// identity when the Event was appended, else partially completed with
/// recovery guidance.
pub fn transition_outcome(
    request: &TransitionRequest,
    plan: &TransitionPlan,
    transaction_id: TransactionId,
    event: Result<crate::event_types::EventId, String>,
) -> (r: crate::process_types::TransitionOutcome)
    ensures
        r.object_id@ == request.object_id@,
        r.definition_id@ == plan.definition@.id,
        r.schema_version@ == plan.definition@.schema_version,
        crate::process_errors::opt_node_view(r.prior_node) == crate::process_errors::opt_node_view(plan.prior_node),
        r.new_node@ == request.to@,
        r.transaction_id@ == transaction_id@,
        match event {
            Ok(id) => r.event_id matches Some(x) && x@ == id@ && r.consistency_status
                == crate::process_types::TransitionConsistencyStatus::Complete && r.recovery_guidance is None,
            Err(m) => r.event_id is None && r.consistency_status
                == crate::process_types::TransitionConsistencyStatus::PartiallyCompleted && crate::contracts::opt_view(
                r.recovery_guidance,
            ) == Some(recovery_guidance(m@)),
        },
{
    let prior_node = match &plan.prior_node {
        Some(n) => Some(n.clone()),
        None => None,
    };
    let (event_id, consistency_status, guidance) = match event {
        Ok(id) => (Some(id), crate::process_types::TransitionConsistencyStatus::Complete, None),
        Err(message) => {
            let mut text = String::from_str(
                "state and transaction committed; append process.transitioned event manually after resolving: ",
            );
            text.append(message.as_str());
            (None, crate::process_types::TransitionConsistencyStatus::PartiallyCompleted, Some(text))
        },
    };
    crate::process_types::TransitionOutcome {
        object_id: request.object_id.clone(),
        definition_id: plan.definition.id.clone(),
        schema_version: plan.definition.schema_version,
        prior_node,
        new_node: request.to.clone(),
        transaction_id,
        event_id,
        consistency_status,
        recovery_guidance: guidance,
    }
}

} // verus!
