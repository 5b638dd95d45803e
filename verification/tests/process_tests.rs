use open_eqms::collections::{OrdMap, OrdSet};
use open_eqms::contracts::{ObjectId, PropertyValue, PropertyValueKind, UnitOfWork, Version};
use open_eqms::event_types::EventId;
use open_eqms::object_types::{
    LifecycleState, ObjectRecord, ObjectTypeDefinition, ObjectTypeRef, OwnershipInfo, PermissionScopeRef,
    PropertyChange, PropertyDefinition, StructuralConstraints,
};
use open_eqms::demo::{DeterministicAppendSequences, DeterministicEventIds, DeterministicObjectIds};
use open_eqms::event_engine::{EventEngine, MemoryEventStorage};
use open_eqms::object_runtime::{CreateObjectRequest, MemoryObjectStorage, ObjectRuntime, UpdateObjectRequest};
use open_eqms::process_engine::{
    transition_changes, transition_event_payload, transition_event_request, transition_outcome, ProcessEngine,
};
use open_eqms::process_errors::{ProcessDefinitionValidationError, ProcessEngineError};
use open_eqms::process_types::{
    current_node_property_key, last_transaction_property_key, process_transition_event_type_definition, ActorRef,
    DeviceRef, ProcessDefinition, ProcessDefinitionId, ProcessNodeId, ProcessTransition, TransactionId,
    TransactionTimestamp, TransitionConsistencyStatus, TransitionRequest,
};
use open_eqms::process_validation::{
    extract_current_node_definition_id, transition_name_for_request, validate_process_definition,
};

fn text(value: &str) -> String {
    value.to_owned()
}

fn node(id: &str) -> ProcessNodeId {
    ProcessNodeId::new(id)
}

fn nodes(ids: &[&str]) -> OrdSet<ProcessNodeId> {
    let mut set = OrdSet::new();
    for id in ids {
        set.insert(node(id));
    }
    set
}

fn definition_id() -> ProcessDefinitionId {
    ProcessDefinitionId::new("asset-calibration")
}

fn definition() -> ProcessDefinition {
    ProcessDefinition::new(
        definition_id(),
        Version::initial(),
        nodes(&["draft", "in_review", "approved"]),
        vec![
            ProcessTransition::new(node("draft"), node("in_review"), "submit"),
            ProcessTransition::new(node("in_review"), node("approved"), "approve"),
            ProcessTransition::new(node("in_review"), node("draft"), "reject"),
        ],
        nodes(&["draft"]),
    )
}

fn property(name: &str, kind: PropertyValueKind) -> PropertyDefinition {
    PropertyDefinition::new(name, kind, false, StructuralConstraints::default())
}

fn asset_type(current_kind: PropertyValueKind) -> ObjectTypeDefinition {
    let mut properties = OrdMap::new();
    let current = current_node_property_key(&definition_id());
    let last = last_transaction_property_key(&definition_id());
    properties.insert(current.clone(), property(&current, current_kind));
    properties.insert(last.clone(), property(&last, PropertyValueKind::Text));
    ObjectTypeDefinition::new(ObjectTypeRef::new("asset", 1), properties, OrdMap::new(), None)
}

fn asset(properties: OrdMap<String, PropertyValue>) -> ObjectRecord {
    ObjectRecord::new(
        ObjectId::new("asset-001"),
        ObjectTypeRef::new("asset", 1),
        properties,
        OrdSet::new(),
        LifecycleState::new("active"),
        OwnershipInfo::new(ObjectId::new("quality-owner"), OrdSet::new()),
        PermissionScopeRef::new("scope:quality"),
        Version::initial(),
        None,
        OrdSet::new(),
        None,
        None,
    )
}

fn transition_request(to: &str, unit_of_work: &str) -> TransitionRequest {
    TransitionRequest {
        object_id: ObjectId::new("asset-001"),
        definition_id: definition_id(),
        schema_version: Version::initial(),
        to: node(to),
        actor: ActorRef::new("user-001"),
        device: DeviceRef::new("device-001"),
        site: None,
        edit_timestamp: TransactionTimestamp::new("2026-07-15T10:00:00Z"),
        server_receipt_time: TransactionTimestamp::new("2026-07-15T10:00:01Z"),
        unit_of_work: UnitOfWork::new(unit_of_work),
    }
}

fn registered_engine() -> ProcessEngine {
    let mut engine = ProcessEngine::new();
    engine.register_process_definition(definition()).unwrap();
    engine
}

#[test]
fn reserved_process_property_keys_are_deterministic() {
    let id = ProcessDefinitionId::new("asset-calibration");

    assert_eq!("process.asset-calibration.current_node", current_node_property_key(&id));
    assert_eq!("process.asset-calibration.last_transaction_id", last_transaction_property_key(&id));
}

#[test]
fn registered_definition_is_returned_and_duplicates_are_refused() {
    let mut engine = registered_engine();

    let stored = engine.get_process_definition(&definition_id(), Version::initial()).unwrap();
    assert_eq!("asset-calibration", stored.id.as_str());
    assert_eq!(3, stored.transitions.len());

    assert!(matches!(
        engine.register_process_definition(definition()),
        Err(ProcessEngineError::DuplicateDefinition { definition_id, schema_version })
            if definition_id.as_str() == "asset-calibration" && schema_version == Version::initial()
    ));
    assert!(matches!(
        engine.get_process_definition(&definition_id(), Version::new(2)),
        Err(ProcessEngineError::DefinitionNotFound { .. })
    ));
}

#[test]
fn malformed_definitions_are_rejected_with_the_first_failure() {
    let mut undeclared_entry = definition();
    undeclared_entry.entry_nodes = nodes(&["closed"]);
    assert!(matches!(
        validate_process_definition(&undeclared_entry),
        Err(ProcessEngineError::MalformedDefinition {
            failure: ProcessDefinitionValidationError::EntryNodeNotDeclared { node }
        }) if node.as_str() == "closed"
    ));

    let mut duplicate_edge = definition();
    duplicate_edge.transitions.push(ProcessTransition::new(node("draft"), node("in_review"), "resubmit"));
    assert!(matches!(
        validate_process_definition(&duplicate_edge),
        Err(ProcessEngineError::MalformedDefinition {
            failure: ProcessDefinitionValidationError::DuplicateTransitionEdge { from, to }
        }) if from.as_str() == "draft" && to.as_str() == "in_review"
    ));

    let mut unnamed = definition();
    unnamed.transitions[1] = ProcessTransition::new(node("in_review"), node("approved"), "");
    assert!(matches!(
        validate_process_definition(&unnamed),
        Err(ProcessEngineError::MalformedDefinition {
            failure: ProcessDefinitionValidationError::EmptyTransitionName { .. }
        })
    ));

    let mut unversioned = definition();
    unversioned.schema_version = Version::new(0);
    let mut engine = ProcessEngine::new();
    assert!(matches!(
        engine.register_process_definition(unversioned),
        Err(ProcessEngineError::MalformedDefinition { failure: ProcessDefinitionValidationError::EmptySchemaVersion })
    ));
}

#[test]
fn transition_names_follow_entry_nodes_and_declared_edges() {
    let definition = definition();

    assert_eq!("entry", transition_name_for_request(&definition, None, &node("draft")).unwrap());
    assert_eq!("submit", transition_name_for_request(&definition, Some(&node("draft")), &node("in_review")).unwrap());
    assert!(matches!(
        transition_name_for_request(&definition, None, &node("approved")),
        Err(ProcessEngineError::NoSuchTransitionEdge { from: None, to }) if to.as_str() == "approved"
    ));
    assert!(matches!(
        transition_name_for_request(&definition, Some(&node("draft")), &node("approved")),
        Err(ProcessEngineError::NoSuchTransitionEdge { from: Some(from), .. }) if from.as_str() == "draft"
    ));
    assert!(matches!(
        transition_name_for_request(&definition, Some(&node("archived")), &node("draft")),
        Err(ProcessEngineError::UnknownCurrentState { recorded_value }) if recorded_value == "archived"
    ));
}

#[test]
fn entry_transition_plan_records_prior_absence_and_new_node() {
    let engine = registered_engine();
    let request = transition_request("draft", "uow-001");

    let plan = engine.plan_transition(&request, &asset(OrdMap::new()), &asset_type(PropertyValueKind::EnumValue)).unwrap();

    assert!(plan.prior_node.is_none());
    assert_eq!("entry", plan.transition_name);
    assert_eq!(PropertyValue::Text { value: text("not-started"), language: None }, plan.prior_value);
    assert_eq!(PropertyValue::EnumValue(text("draft")), plan.new_value);
    assert_eq!(Version::new(1), plan.base_version);
    assert_eq!(Version::new(2), plan.resulting_version);
    assert_eq!("process.asset-calibration.transition.entry", plan.operation);
    assert!(plan.prior_transaction.is_none());
}

#[test]
fn transition_plan_chains_the_last_transaction() {
    let engine = registered_engine();
    let mut properties = OrdMap::new();
    properties.insert(current_node_property_key(&definition_id()), PropertyValue::EnumValue(text("draft")));
    properties.insert(
        last_transaction_property_key(&definition_id()),
        PropertyValue::Text { value: text("tx-001"), language: None },
    );

    let plan = engine
        .plan_transition(&transition_request("in_review", "uow-002"), &asset(properties), &asset_type(PropertyValueKind::EnumValue))
        .unwrap();

    assert_eq!(Some(node("draft")), plan.prior_node);
    assert_eq!("submit", plan.transition_name);
    assert_eq!(PropertyValue::EnumValue(text("draft")), plan.prior_value);
    assert_eq!(Some(TransactionId::new("tx-001")), plan.prior_transaction);
}

#[test]
fn transition_plan_refusals_are_distinct() {
    let engine = registered_engine();

    assert!(matches!(
        engine.plan_transition(&transition_request("draft", ""), &asset(OrdMap::new()), &asset_type(PropertyValueKind::EnumValue)),
        Err(ProcessEngineError::UnitOfWorkFailure { message }) if message == "unit of work must not be empty"
    ));
    assert!(matches!(
        engine.plan_transition(&transition_request("draft", "uow-001"), &asset(OrdMap::new()), &asset_type(PropertyValueKind::Text)),
        Err(ProcessEngineError::ObjectTypeProcessPropertyKindMismatch {
            expected: PropertyValueKind::EnumValue,
            actual: PropertyValueKind::Text,
            ..
        })
    ));

    let mut other = OrdMap::new();
    other.insert(text("process.supplier-review.current_node"), PropertyValue::EnumValue(text("open")));
    assert!(matches!(
        engine.plan_transition(&transition_request("draft", "uow-001"), &asset(other), &asset_type(PropertyValueKind::EnumValue)),
        Err(ProcessEngineError::ObjectAlreadyInDifferentProcess { active_definition_id })
            if active_definition_id.as_str() == "supplier-review"
    ));
}

#[test]
fn current_node_keys_name_their_process() {
    assert_eq!(
        Some(ProcessDefinitionId::new("asset-calibration")),
        extract_current_node_definition_id("process.asset-calibration.current_node")
    );
    assert_eq!(None, extract_current_node_definition_id("process.asset-calibration.last_transaction_id"));
    assert_eq!(None, extract_current_node_definition_id("process.current_node"));
}

#[test]
fn transition_writes_set_both_reserved_properties() {
    let changes = transition_changes(&definition_id(), &node("draft"), &TransactionId::new("tx-001"));

    assert_eq!(2, changes.property_changes.len());
    assert!(matches!(
        changes.property_changes.get(&text("process.asset-calibration.current_node")),
        Some(PropertyChange::SetValue(PropertyValue::EnumValue(value))) if value == "draft"
    ));
    assert!(matches!(
        changes.property_changes.get(&text("process.asset-calibration.last_transaction_id")),
        Some(PropertyChange::SetValue(PropertyValue::Text { value, language: None })) if value == "tx-001"
    ));
}

#[test]
fn transition_event_carries_nodes_actor_and_cause() {
    let engine = registered_engine();
    let request = transition_request("draft", "uow-001");
    let plan = engine.plan_transition(&request, &asset(OrdMap::new()), &asset_type(PropertyValueKind::EnumValue)).unwrap();

    let event = transition_event_request(&request, &plan, &TransactionId::new("tx-001"));

    assert_eq!("process.transitioned", event.event_type.name);
    assert_eq!(
        Some(&PropertyValue::Text { value: text("not-started"), language: None }),
        event.payload.get(&text("from_node"))
    );
    assert_eq!(Some(&PropertyValue::Text { value: text("draft"), language: None }), event.payload.get(&text("to_node")));
    assert_eq!(Some(&PropertyValue::Text { value: text("entry"), language: None }), event.payload.get(&text("transition_name")));
    assert_eq!(
        Some(&PropertyValue::DateTime(text("2026-07-15T10:00:00Z"))),
        event.payload.get(&text("edit_timestamp"))
    );
    assert_eq!("process-engine", event.source.as_str());
    assert_eq!("2026-07-15T10:00:01Z", event.recorded_at.as_str());
    assert_eq!("tx-001", event.causation_id.unwrap().as_str());

    let payload = transition_event_payload(
        &definition_id(),
        Some(&node("draft")),
        &node("in_review"),
        "submit",
        &ActorRef::new("user-001"),
        &TransactionTimestamp::new("2026-07-15T10:00:02Z"),
    );
    assert_eq!(6, payload.len());
    assert_eq!(Some(&PropertyValue::Text { value: text("draft"), language: None }), payload.get(&text("from_node")));

    let definition = process_transition_event_type_definition();
    assert_eq!(6, definition.payload_fields.len());
    assert_eq!(
        PropertyValueKind::DateTime,
        definition.payload_fields.get(&text("edit_timestamp")).unwrap().kind
    );
}

#[test]
fn transition_outcome_discloses_partial_completion() {
    let engine = registered_engine();
    let request = transition_request("draft", "uow-001");
    let plan = engine.plan_transition(&request, &asset(OrdMap::new()), &asset_type(PropertyValueKind::EnumValue)).unwrap();

    let complete = transition_outcome(&request, &plan, TransactionId::new("tx-001"), Ok(EventId::new("event-001")));
    assert_eq!(TransitionConsistencyStatus::Complete, complete.consistency_status);
    assert_eq!(Some(EventId::new("event-001")), complete.event_id);
    assert!(complete.recovery_guidance.is_none());

    let partial = transition_outcome(&request, &plan, TransactionId::new("tx-001"), Err(text("event store offline")));
    assert_eq!(TransitionConsistencyStatus::PartiallyCompleted, partial.consistency_status);
    assert!(partial.event_id.is_none());
    assert_eq!(
        Some(text(
            "state and transaction committed; append process.transitioned event manually after resolving: event store offline"
        )),
        partial.recovery_guidance
    );
}

#[test]
fn process_errors_display_their_details() {
    let missing = ProcessEngineError::DefinitionNotFound { definition_id: definition_id(), schema_version: Version::new(3) };
    assert_eq!("process definition not found: asset-calibration@3", missing.to_message());

    let no_edge = ProcessEngineError::NoSuchTransitionEdge { from: Some(node("draft")), to: node("approved") };
    assert_eq!("no process transition from Some(ProcessNodeId(\"draft\")) to approved", no_edge.to_message());

    let malformed = ProcessEngineError::MalformedDefinition {
        failure: ProcessDefinitionValidationError::DuplicateTransitionEdge { from: node("draft"), to: node("in_review") },
    };
    assert_eq!(
        "malformed process definition: duplicate transition edge from draft to in_review",
        malformed.to_message()
    );
}

fn run_deterministic_transition() -> String {
    let mut objects = ObjectRuntime::new(MemoryObjectStorage::new(), DeterministicObjectIds::new("asset"));
    let mut events = EventEngine::new(
        MemoryEventStorage::new(),
        DeterministicEventIds::new("event"),
        DeterministicAppendSequences::new(),
    );
    let engine = registered_engine();
    objects.register_object_type(asset_type(PropertyValueKind::EnumValue)).unwrap();
    events.register_event_type(process_transition_event_type_definition()).unwrap();
    let created = objects
        .create_object(CreateObjectRequest {
            object_type: ObjectTypeRef::new("asset", 1),
            properties: OrdMap::new(),
            relations: OrdSet::new(),
            lifecycle_state: LifecycleState::new("active"),
            ownership: OwnershipInfo::new(ObjectId::new("quality-owner"), OrdSet::new()),
            permission_scope: PermissionScopeRef::new("scope:quality"),
            retention_rule: None,
            external_references: OrdSet::new(),
            comments_ref: None,
            attachments_ref: None,
        })
        .unwrap();
    let object_id = created.record.id.clone();
    let current = objects.read_object(&object_id).unwrap();
    let object_type = objects.get_object_type(&current.object_type).unwrap();
    let mut request = transition_request("draft", "uow-001");
    request.object_id = object_id.clone();
    let plan = engine.plan_transition(&request, &current, &object_type).unwrap();
    let transaction_id = TransactionId::new("tx-001");
    objects
        .update_object(UpdateObjectRequest {
            object_id: object_id.clone(),
            base_version: plan.base_version,
            changes: transition_changes(&definition_id(), &request.to, &transaction_id),
        })
        .unwrap();
    let appended = events.append_event(transition_event_request(&request, &plan, &transaction_id)).unwrap();
    let outcome = transition_outcome(&request, &plan, transaction_id, Ok(appended.event_id.clone()));
    let object = objects.read_object(&object_id).unwrap();
    let event = events.read_event(&appended.event_id).unwrap();
    format!("{outcome:?}|{object:?}|{event:?}")
}

#[test]
fn deterministic_replay_produces_identical_outcomes_and_records() {
    let first = run_deterministic_transition();
    let second = run_deterministic_transition();

    assert_eq!(first, second);
}

#[test]
fn process_definition_registration_validates_graph() {
    let mut engine = ProcessEngine::new();
    engine.register_process_definition(definition()).unwrap();
    assert_eq!(
        "asset-calibration",
        engine.get_process_definition(&definition_id(), Version::new(1)).unwrap().id.as_str()
    );
    assert!(matches!(
        engine.register_process_definition(definition()),
        Err(ProcessEngineError::DuplicateDefinition { .. })
    ));
    assert!(matches!(
        engine.register_process_definition(ProcessDefinition::new(
            ProcessDefinitionId::new("bad-empty"),
            Version::new(1),
            OrdSet::new(),
            Vec::new(),
            OrdSet::new(),
        )),
        Err(ProcessEngineError::MalformedDefinition { failure: ProcessDefinitionValidationError::EmptyNodeSet })
    ));
    assert!(matches!(
        engine.register_process_definition(ProcessDefinition::new(
            ProcessDefinitionId::new("bad-dangling"),
            Version::new(1),
            nodes(&["draft"]),
            vec![ProcessTransition::new(node("draft"), node("approved"), "approve")],
            nodes(&["draft"]),
        )),
        Err(ProcessEngineError::MalformedDefinition {
            failure: ProcessDefinitionValidationError::TransitionTargetNotDeclared { .. }
        })
    ));
    assert!(matches!(
        engine.register_process_definition(ProcessDefinition::new(
            ProcessDefinitionId::new("bad-duplicate"),
            Version::new(1),
            nodes(&["draft", "approved"]),
            vec![
                ProcessTransition::new(node("draft"), node("approved"), "approve"),
                ProcessTransition::new(node("draft"), node("approved"), "approve-again"),
            ],
            nodes(&["draft"]),
        )),
        Err(ProcessEngineError::MalformedDefinition {
            failure: ProcessDefinitionValidationError::DuplicateTransitionEdge { .. }
        })
    ));
}
