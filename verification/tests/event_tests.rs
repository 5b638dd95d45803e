use open_eqms::collections::{OrdMap, OrdSet};
use open_eqms::contracts::{ObjectId, PropertyValue, PropertyValueKind};
use open_eqms::demo_storage::DemoEventStore;
use open_eqms::event_engine::{
    AppendEventRequest, AppendSequenceGenerator, EventEngine, EventIdGenerator, MemoryEventStorage, StorageProvider,
};
use open_eqms::event_errors::{EventEngineError, MetadataError, ValidationError};
use open_eqms::event_types::{
    AppendSequence, CausationId, CorrelationId, EventId, EventRecord, EventSource, EventTimestamp,
    EventTypeDefinition, EventTypeRef, PayloadConstraints, PayloadFieldDefinition,
};

struct FixedEventIds {
    ids: Vec<EventId>,
    index: usize,
}

impl FixedEventIds {
    fn new(ids: &[&str]) -> Self {
        Self { ids: ids.iter().map(|id| EventId::new(id)).collect(), index: 0 }
    }
}

impl EventIdGenerator for FixedEventIds {
    fn next_id(&mut self) -> EventId {
        let id = self
            .ids
            .get(self.index)
            .cloned()
            .unwrap_or_else(|| EventId::new(&format!("generated-event-{}", self.index)));
        self.index += 1;
        id
    }
}

struct FixedSequences {
    sequences: Vec<AppendSequence>,
    index: usize,
}

impl FixedSequences {
    fn new(sequences: &[u64]) -> Self {
        Self { sequences: sequences.iter().map(|sequence| AppendSequence::new(*sequence)).collect(), index: 0 }
    }
}

impl AppendSequenceGenerator for FixedSequences {
    fn next_sequence(&mut self) -> AppendSequence {
        let sequence =
            self.sequences.get(self.index).copied().unwrap_or_else(|| AppendSequence::new((self.index + 1) as u64));
        self.index += 1;
        sequence
    }
}

fn type_ref() -> EventTypeRef {
    EventTypeRef::new("machine-state-changed", 1)
}

fn type_ref_v2() -> EventTypeRef {
    EventTypeRef::new("machine-state-changed", 2)
}

fn text_set(values: &[&str]) -> OrdSet<String> {
    let mut set = OrdSet::new();
    for value in values {
        set.insert(value.to_string());
    }
    set
}

fn comment_field(pattern: &str) -> PayloadFieldDefinition {
    PayloadFieldDefinition::new(
        "comment",
        PropertyValueKind::Text,
        false,
        PayloadConstraints {
            min_length: Some(1),
            max_length: Some(64),
            pattern: Some(pattern.to_owned()),
            ..PayloadConstraints::default()
        },
    )
}

fn event_type(event_type: EventTypeRef) -> EventTypeDefinition {
    let mut fields = OrdMap::new();
    fields.insert(
        "machine".to_owned(),
        PayloadFieldDefinition::new("machine", PropertyValueKind::Reference, true, PayloadConstraints::default()),
    );
    fields.insert(
        "status".to_owned(),
        PayloadFieldDefinition::new(
            "status",
            PropertyValueKind::EnumValue,
            true,
            PayloadConstraints { allowed_enum_values: text_set(&["running", "stopped"]), ..PayloadConstraints::default() },
        ),
    );
    fields.insert(
        "temperature".to_owned(),
        PayloadFieldDefinition::new(
            "temperature",
            PropertyValueKind::Number,
            false,
            PayloadConstraints {
                min_number: Some(0.0f64.to_bits()),
                max_number: Some(100.0f64.to_bits()),
                ..PayloadConstraints::default()
            },
        ),
    );
    fields.insert("comment".to_owned(), comment_field("^[A-Za-z0-9 -]+$"));
    EventTypeDefinition::new(event_type, fields)
}

fn runtime() -> EventEngine<MemoryEventStorage, FixedEventIds, FixedSequences> {
    let mut runtime = EventEngine::new(
        MemoryEventStorage::new(),
        FixedEventIds::new(&["event-1", "event-2", "event-3", "event-4"]),
        FixedSequences::new(&[1, 2, 3, 4]),
    );
    runtime.register_event_type(event_type(type_ref())).unwrap();
    runtime
}

fn append_request(status: &str) -> AppendEventRequest {
    let machine = ObjectId::new("missing-machine");
    let mut object_refs = OrdSet::new();
    object_refs.insert(machine.clone());
    let mut payload = OrdMap::new();
    payload.insert("machine".to_owned(), PropertyValue::Reference(machine));
    payload.insert("status".to_owned(), PropertyValue::EnumValue(status.to_owned()));
    AppendEventRequest {
        event_type: type_ref(),
        payload,
        occurred_at: EventTimestamp::new("2026-07-15T10:00:00Z"),
        recorded_at: EventTimestamp::new("2026-07-15T10:00:01Z"),
        source: EventSource::new("source-user-1"),
        object_refs,
        correlation_id: Some(CorrelationId::new("correlation-1")),
        causation_id: Some(CausationId::new("causation-1")),
    }
}

fn shown(record: &EventRecord) -> String {
    format!("{record:?}")
}

#[test]
fn append_read_and_range_are_identity_and_sequence_based() {
    let mut runtime = runtime();
    let first = runtime.append_event(append_request("stopped")).unwrap();
    let second = runtime.append_event(append_request("running")).unwrap();

    assert_eq!(first.event_id, EventId::new("event-1"));
    assert_eq!(first.append_sequence, AppendSequence::first());
    assert_eq!(shown(&runtime.read_event(&first.event_id).unwrap()), shown(&first.record));

    let range = runtime.read_sequence_range(AppendSequence::first(), 10).unwrap();
    assert_eq!(range.events.len(), 2);
    assert_eq!(range.events[0].id, first.event_id);
    assert_eq!(range.events[1].id, second.event_id);
    assert_eq!(range.next_start, Some(AppendSequence::new(3)));
}

#[test]
fn missing_required_payload_field_is_rejected_before_store() {
    let mut runtime = runtime();
    let mut request = append_request("stopped");
    request.payload.remove(&"status".to_owned());
    let result = runtime.append_event(request);
    assert!(matches!(
        result,
        Err(EventEngineError::ValidationFailed { failure: ValidationError::MissingRequiredField { .. } })
    ));
    assert!(runtime.read_sequence_range(AppendSequence::first(), 10).unwrap().events.is_empty());
}

#[test]
fn unknown_payload_field_is_rejected() {
    let mut runtime = runtime();
    let mut request = append_request("stopped");
    request.payload.insert("business-specific".to_owned(), PropertyValue::Boolean(true));
    let result = runtime.append_event(request);
    assert!(matches!(
        result,
        Err(EventEngineError::ValidationFailed { failure: ValidationError::UnknownPayloadField { .. } })
    ));
}

#[test]
fn payload_type_mismatch_is_rejected() {
    let mut runtime = runtime();
    let mut request = append_request("stopped");
    request.payload.insert("status".to_owned(), PropertyValue::Boolean(true));
    let result = runtime.append_event(request);
    assert!(matches!(
        result,
        Err(EventEngineError::ValidationFailed { failure: ValidationError::TypeMismatch { .. } })
    ));
}

#[test]
fn payload_constraint_violation_is_rejected() {
    let mut runtime = runtime();
    let mut request = append_request("stopped");
    request
        .payload
        .insert("comment".to_owned(), PropertyValue::Text { value: "not allowed!".to_owned(), language: None });
    let result = runtime.append_event(request);
    assert!(matches!(
        result,
        Err(EventEngineError::ValidationFailed { failure: ValidationError::ConstraintViolation { .. } })
    ));
}

#[test]
fn missing_timestamps_and_source_are_rejected() {
    let mut runtime = runtime();
    let mut missing_occurred_at = append_request("stopped");
    missing_occurred_at.occurred_at = EventTimestamp::new("");
    assert!(matches!(
        runtime.append_event(missing_occurred_at),
        Err(EventEngineError::ValidationFailed { failure: ValidationError::MissingOccurredAt })
    ));

    let mut missing_recorded_at = append_request("stopped");
    missing_recorded_at.recorded_at = EventTimestamp::new("");
    assert!(matches!(
        runtime.append_event(missing_recorded_at),
        Err(EventEngineError::ValidationFailed { failure: ValidationError::MissingRecordedAt })
    ));

    let mut missing_source = append_request("stopped");
    missing_source.source = EventSource::new("");
    assert!(matches!(
        runtime.append_event(missing_source),
        Err(EventEngineError::ValidationFailed { failure: ValidationError::MissingEventSource })
    ));
}

#[test]
fn malformed_timestamps_are_rejected() {
    let mut runtime = runtime();
    let mut request = append_request("stopped");
    request.occurred_at = EventTimestamp::new("2026-07-15 10:00:00");
    let result = runtime.append_event(request);
    assert!(matches!(
        result,
        Err(EventEngineError::ValidationFailed { failure: ValidationError::MalformedOccurredAt { .. } })
    ));
}

#[test]
fn object_reference_does_not_require_object_runtime_existence() {
    let mut runtime = runtime();
    let result = runtime.append_event(append_request("stopped"));
    assert!(result.is_ok());
    let stored = runtime.read_event(&result.unwrap().event_id).unwrap();
    assert!(stored.object_refs.contains(&ObjectId::new("missing-machine")));
}

#[test]
fn malformed_object_reference_is_rejected_structurally_only() {
    let mut runtime = runtime();
    let mut request = append_request("stopped");
    request.payload.insert("machine".to_owned(), PropertyValue::Reference(ObjectId::new("")));
    let result = runtime.append_event(request);
    assert!(matches!(
        result,
        Err(EventEngineError::ValidationFailed { failure: ValidationError::MalformedObjectReference { .. } })
    ));
}

#[test]
fn duplicate_identity_error_is_distinct() {
    let mut runtime =
        EventEngine::new(MemoryEventStorage::new(), FixedEventIds::new(&["same", "same"]), FixedSequences::new(&[1, 2]));
    runtime.register_event_type(event_type(type_ref())).unwrap();
    runtime.append_event(append_request("stopped")).unwrap();
    let result = runtime.append_event(append_request("running"));
    assert!(matches!(result, Err(EventEngineError::DuplicateIdentity { .. })));
}

#[test]
fn append_sequence_conflict_error_is_distinct() {
    let mut runtime = EventEngine::new(
        MemoryEventStorage::new(),
        FixedEventIds::new(&["event-1", "event-2"]),
        FixedSequences::new(&[1, 1]),
    );
    runtime.register_event_type(event_type(type_ref())).unwrap();
    runtime.append_event(append_request("stopped")).unwrap();
    let result = runtime.append_event(append_request("running"));
    assert!(matches!(result, Err(EventEngineError::AppendSequenceConflict { .. })));
}

#[test]
fn event_type_and_event_not_found_errors_are_distinct() {
    let mut runtime = runtime();
    let mut missing_type = append_request("stopped");
    missing_type.event_type = EventTypeRef::new("missing-type", 1);
    assert!(matches!(runtime.append_event(missing_type), Err(EventEngineError::EventTypeNotFound { .. })));
    assert!(matches!(
        runtime.read_event(&EventId::new("missing-event")),
        Err(EventEngineError::EventNotFound { .. })
    ));
}

#[test]
fn malformed_metadata_and_duplicate_schema_are_distinct() {
    let mut runtime =
        EventEngine::new(MemoryEventStorage::new(), FixedEventIds::new(&["event-1"]), FixedSequences::new(&[1]));
    let mut malformed = event_type(type_ref());
    malformed.payload_fields.insert("comment".to_owned(), comment_field("["));
    assert!(matches!(
        runtime.register_event_type(malformed),
        Err(EventEngineError::MalformedMetadata { failure: MetadataError::InvalidPattern { .. } })
    ));

    runtime.register_event_type(event_type(type_ref())).unwrap();
    assert!(matches!(
        runtime.register_event_type(event_type(type_ref())),
        Err(EventEngineError::MalformedMetadata { failure: MetadataError::EventTypeAlreadyRegistered { .. } })
    ));
}

#[test]
fn schema_version_is_append_only_and_prior_events_remain_unchanged() {
    let mut runtime = runtime();
    let first = runtime.append_event(append_request("stopped")).unwrap();
    let mut v2 = event_type(type_ref_v2());
    v2.payload_fields.insert(
        "optional-note".to_owned(),
        PayloadFieldDefinition::new("optional-note", PropertyValueKind::Text, false, PayloadConstraints::default()),
    );
    runtime.register_event_type(v2).unwrap();
    let reread = runtime.read_event(&first.event_id).unwrap();
    assert_eq!(reread.event_type, type_ref());
    assert_eq!(shown(&reread), shown(&first.record));
}

#[test]
fn forced_storage_failure_leaves_log_unchanged() {
    let mut storage = DemoEventStore::new();
    storage.fail_next_append();
    storage.insert_type(event_type(type_ref())).unwrap();
    let mut runtime = EventEngine::new(storage, FixedEventIds::new(&["event-1"]), FixedSequences::new(&[1]));
    let result = runtime.append_event(append_request("stopped"));
    assert!(matches!(result, Err(EventEngineError::StorageProviderFailure { .. })));
    assert!(runtime.read_sequence_range(AppendSequence::first(), 10).unwrap().events.is_empty());
}

fn conformance<S: StorageProvider>(storage: S) -> Result<EventRecord, EventEngineError> {
    let mut runtime = EventEngine::new(storage, FixedEventIds::new(&["event-1"]), FixedSequences::new(&[1]));
    runtime.register_event_type(event_type(type_ref()))?;
    let appended = runtime.append_event(append_request("stopped"))?;
    runtime.read_event(&appended.event_id)
}

#[test]
fn storage_provider_can_be_swapped_without_changing_callers() {
    let first = conformance(MemoryEventStorage::new()).unwrap();
    let second = conformance(DemoEventStore::new()).unwrap();
    assert_eq!(shown(&first), shown(&second));
}

fn log_scenario() -> String {
    let mut runtime = runtime();
    runtime.append_event(append_request("stopped")).unwrap();
    runtime.append_event(append_request("running")).unwrap();
    runtime
        .read_sequence_range(AppendSequence::first(), 10)
        .unwrap()
        .events
        .iter()
        .map(|event| format!("{event:?}"))
        .collect::<Vec<_>>()
        .join("\n")
}

#[test]
fn deterministic_replay_produces_identical_log() {
    assert_eq!(log_scenario(), log_scenario());
}

fn invalid_input_scenario() -> String {
    let mut runtime = runtime();
    let mut request = append_request("stopped");
    request.payload.insert("aaa-unknown".to_owned(), PropertyValue::Boolean(true));
    request.payload.insert("zzz-unknown".to_owned(), PropertyValue::Boolean(false));
    format!("{:?}", runtime.append_event(request).unwrap_err())
}

#[test]
fn deterministic_error_for_repeated_invalid_input() {
    assert_eq!(invalid_input_scenario(), invalid_input_scenario());
    assert!(invalid_input_scenario().contains("aaa-unknown"));
}

#[test]
fn deterministic_field_order_is_preserved_on_read() {
    let mut runtime = runtime();
    let mut request = append_request("stopped");
    request.payload.insert(
        "comment".to_owned(),
        PropertyValue::Text { value: "Alpha".to_owned(), language: Some("en".to_owned()) },
    );
    request.payload.insert("temperature".to_owned(), PropertyValue::Number(42.0f64.to_bits()));
    let appended = runtime.append_event(request).unwrap();
    let first_read = runtime.read_event(&appended.event_id).unwrap();
    let second_read = runtime.read_event(&appended.event_id).unwrap();
    let ordered_fields = (0..first_read.payload.len()).map(|i| first_read.payload.key_at(i).clone()).collect::<Vec<_>>();
    assert_eq!(shown(&first_read), shown(&second_read));
    assert_eq!(
        ordered_fields,
        vec!["comment".to_owned(), "machine".to_owned(), "status".to_owned(), "temperature".to_owned()]
    );
}

#[test]
fn invalid_sequence_range_is_rejected() {
    let runtime = runtime();
    let result = runtime.read_sequence_range(AppendSequence::new(0), 10);
    assert!(matches!(result, Err(EventEngineError::InvalidAppendSequenceRange { .. })));
    assert!(matches!(
        runtime.read_sequence_range(AppendSequence::first(), 0),
        Err(EventEngineError::InvalidAppendSequenceRange { .. })
    ));
}

#[test]
fn demo_event_store_counts_and_refuses_one_append() {
    let mut storage = DemoEventStore::new();
    storage.insert_type(event_type(type_ref())).unwrap();
    let mut runtime = EventEngine::new(storage, FixedEventIds::new(&["event-1", "event-2"]), FixedSequences::new(&[1, 2]));
    runtime.append_event(append_request("stopped")).unwrap();
    let range = runtime.read_sequence_range(AppendSequence::first(), 10).unwrap();
    assert_eq!(range.events.len(), 1);
    let mut store = DemoEventStore::new();
    assert_eq!(store.event_count(), 0);
    store.fail_next_append();
    assert_eq!(store.event_count(), 0);
}

struct FloatText;

impl open_eqms::presentation::NumberText for FloatText {
    fn number_text(&self, bits: u64) -> String {
        f64::from_bits(bits).to_string()
    }
}

fn timeline_transaction(
    append_index: u64,
    id: &str,
    base: u64,
    prior: Option<open_eqms::timeline::PriorReference>,
    prior_hash: Option<&str>,
) -> open_eqms::timeline::TimelineTransaction {
    open_eqms::timeline::TimelineTransaction {
        append_index,
        id: id.to_owned(),
        level: "Level2".to_owned(),
        operation: "asset.register".to_owned(),
        base_version: base,
        resulting_version: base + 1,
        edit_timestamp: "2026-07-15T10:00:00Z".to_owned(),
        transaction_sequence: Some(append_index),
        server_receipt_time: None,
        prior_reference: prior,
        prior_transaction_hash: prior_hash.map(|hash| hash.to_owned()),
        transaction_hash: Some(format!("hash-{append_index}")),
    }
}

#[test]
fn timeline_orders_events_and_transactions_by_append_position() {
    let mut runtime = runtime();
    let mut with_temperature = append_request("stopped");
    with_temperature.payload.insert("temperature".to_owned(), PropertyValue::Number(21.5f64.to_bits()));
    let first = runtime.append_event(with_temperature).unwrap();
    let second = runtime.append_event(append_request("running")).unwrap();
    let events = vec![second.record, first.record];
    let transactions = vec![
        timeline_transaction(
            2,
            "tx-2",
            1,
            Some(open_eqms::timeline::PriorReference::Transaction("tx-1".to_owned())),
            Some("hash-1"),
        ),
        timeline_transaction(1, "tx-1", 0, None, None),
    ];
    let rendered =
        open_eqms::timeline::render_timeline(&ObjectId::new("missing-machine"), &events, &transactions, &FloatText);
    let expected = [
        "Timeline missing-machine",
        "Events (2; bounded Event range read, app-layer filter):",
        "  event 1 event-1 machine-state-changed@1 occurred_at=2026-07-15T10:00:00Z recorded_at=2026-07-15T10:00:01Z source=source-user-1",
        "    machine: missing-machine",
        "    status: stopped",
        "    temperature: 21.5",
        "  event 2 event-2 machine-state-changed@1 occurred_at=2026-07-15T10:00:00Z recorded_at=2026-07-15T10:00:01Z source=source-user-1",
        "    machine: missing-machine",
        "    status: running",
        "Transactions (2; bounded Transaction range read, app-layer filter):",
        "  transaction 1 tx-1 level=Level2 operation=asset.register",
        "    versions: 0 -> 1",
        "    edit_timestamp: 2026-07-15T10:00:00Z",
        "    transaction_sequence: 1",
        "    server_receipt_time: none",
        "    prior_reference: none",
        "    prior_transaction_hash: none",
        "    transaction_hash: hash-1",
        "  transaction 2 tx-2 level=Level2 operation=asset.register",
        "    versions: 1 -> 2",
        "    edit_timestamp: 2026-07-15T10:00:00Z",
        "    transaction_sequence: 2",
        "    server_receipt_time: none",
        "    prior_reference: transaction:tx-1",
        "    prior_transaction_hash: hash-1",
        "    transaction_hash: hash-2",
    ]
    .map(|line| format!("{line}\n"))
    .concat();
    assert_eq!(rendered, expected);
}

#[test]
fn empty_timeline_says_none_for_both_sections() {
    let rendered = open_eqms::timeline::render_timeline(&ObjectId::new("asset-1"), &[], &[], &FloatText);
    assert_eq!(
        rendered,
        "Timeline asset-1\n\
Events (0; bounded Event range read, app-layer filter):\n  none\n\
Transactions (0; bounded Transaction range read, app-layer filter):\n  none\n"
    );
}

#[test]
fn timeline_keeps_given_order_of_equal_append_indexes_and_renders_event_references() {
    let mut with_event_prior = timeline_transaction(5, "tx-b", 3, None, None);
    with_event_prior.prior_reference = Some(open_eqms::timeline::PriorReference::Event("event-9".to_owned()));
    with_event_prior.server_receipt_time = Some("2026-07-15T10:00:02Z".to_owned());
    let transactions = vec![timeline_transaction(5, "tx-a", 2, None, None), with_event_prior];
    let rendered = open_eqms::timeline::render_timeline(&ObjectId::new("asset-1"), &[], &transactions, &FloatText);
    let a = rendered.find("tx-a").unwrap();
    let b = rendered.find("tx-b").unwrap();
    assert!(a < b);
    assert!(rendered.contains("    server_receipt_time: 2026-07-15T10:00:02Z\n    prior_reference: event:event-9\n"));
}

#[test]
fn event_lookups_map_provider_answers() {
    let missing = open_eqms::event_engine::event_type_lookup(&type_ref(), Ok(None)).unwrap_err();
    assert!(matches!(missing, EventEngineError::EventTypeNotFound { event_type } if event_type == type_ref()));
    let found = open_eqms::event_engine::event_type_lookup(&type_ref(), Ok(Some(event_type(type_ref())))).unwrap();
    assert_eq!(found.type_ref, type_ref());
    let failed = open_eqms::event_engine::event_lookup(
        &EventId::new("event-1"),
        Err(EventEngineError::StorageProviderFailure { message: "down".to_owned() }),
    )
    .unwrap_err();
    assert!(matches!(failed, EventEngineError::StorageProviderFailure { message } if message == "down"));
    let absent = open_eqms::event_engine::event_lookup(&EventId::new("event-9"), Ok(None)).unwrap_err();
    assert!(matches!(absent, EventEngineError::EventNotFound { event_id } if event_id == EventId::new("event-9")));
}
