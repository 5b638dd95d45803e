use open_eqms::asset_model::{
    asset_event_type_definitions, asset_object_type_definition, asset_object_type_ref,
    asset_registered_event_type_ref, register_event_metadata, register_object_metadata,
};
use open_eqms::contracts::{ObjectId, PropertyValue};
use open_eqms::demo::{
    begin_registration, record_metadata_registration, record_object_creation, record_registered_event,
    record_registration_transaction, ConsistencyStatus, DemoCryptographicProvider, DeterministicAppendSequences, DeterministicClock, DeterministicEventIds,
    DeterministicObjectIds, DeterministicTransactionIds, OperationOutcome, StepId,
};
use open_eqms::demo_input::{NumberParser, RegisterAssetInput};
use open_eqms::demo_storage::DemoEventStore;
use open_eqms::process_types::TransactionId;
use open_eqms::event_engine::{
    AppendSequenceGenerator, EventEngine, EventIdGenerator, StorageProvider as EventStorageProvider,
};
use open_eqms::event_errors::{EventEngineError, MetadataError as EventMetadataError};
use open_eqms::event_types::{EventId, EventTypeRef};
use open_eqms::object_errors::{MetadataError as ObjectMetadataError, ObjectRuntimeError};
use open_eqms::object_runtime::{MemoryObjectStorage, ObjectIdGenerator, ObjectRuntime};

#[test]
fn demo_clock_hands_out_script_then_one_second_steps() {
    let mut clock = DeterministicClock::new(&vec!["2026-01-01T00:00:00Z"]);

    assert_eq!("2026-01-01T00:00:00Z", clock.next_timestamp());
    assert_eq!("2026-07-15T10:00:00Z", clock.next_timestamp());
    assert_eq!("2026-07-15T10:00:01Z", clock.next_timestamp());

    let mut demo = DeterministicClock::demo();
    let first_ten = (0..10).map(|_| demo.next_timestamp()).collect::<Vec<_>>();
    assert_eq!("2026-07-15T10:00:00Z", first_ten[0]);
    assert_eq!("2026-07-15T10:00:09Z", first_ten[9]);
    assert_eq!("2026-07-15T10:00:00Z", demo.next_timestamp());
}

#[test]
fn demo_clock_fallback_rolls_over_minutes() {
    let mut clock = DeterministicClock::new(&Vec::new());
    let stamps = (0..62).map(|_| clock.next_timestamp()).collect::<Vec<_>>();

    assert_eq!("2026-07-15T10:00:59Z", stamps[59]);
    assert_eq!("2026-07-15T10:01:00Z", stamps[60]);
    assert_eq!("2026-07-15T10:01:01Z", stamps[61]);
}

#[test]
fn sequential_identities_are_prefixed_and_zero_padded() {
    let mut objects = DeterministicObjectIds::new("asset");
    assert_eq!("asset-0001", objects.next_id().as_str());
    assert_eq!("asset-0002", objects.next_id().as_str());

    let mut events = DeterministicEventIds::with_start("event", 42);
    assert_eq!("event-0042", events.next_id().as_str());

    let mut transactions = DeterministicTransactionIds::with_start("tx", 12345);
    assert_eq!("tx-12345", transactions.next_id().as_str());
    assert_eq!("tx-12346", transactions.next_id().as_str());

    let mut sequences = DeterministicAppendSequences::new();
    assert_eq!(1, sequences.next_sequence().value());
    assert_eq!(2, sequences.next_sequence().value());
    let mut later = DeterministicAppendSequences::with_start(7);
    assert_eq!(7, later.next_sequence().value());
}

#[test]
fn demo_hash_is_fnv1a_with_length_suffix() {
    let mut provider = DemoCryptographicProvider::default();

    assert_eq!("demo-noncrypto-cbf29ce484222325-0", provider.hash(b"").unwrap());
    assert_eq!("demo-noncrypto-af63dc4c8601ec8c-1", provider.hash(b"a").unwrap());
    assert_eq!("demo-noncrypto-85944171f73967e8-6", provider.hash(b"foobar").unwrap());

    let mut failing = DemoCryptographicProvider::with_hash_failure();
    assert_eq!(Err("injected demo hash failure".to_owned()), failing.hash(b"a"));
}

#[test]
fn step_and_status_names_are_stable() {
    assert_eq!("validate_asset_input", StepId::ValidateAssetInput.as_str());
    assert_eq!("commit_calibration_unit_of_work", StepId::CommitCalibrationUnitOfWork.as_str());
    assert_eq!("append_registration_transaction", StepId::AppendRegistrationTransaction.as_str());
    assert_eq!("Complete", ConsistencyStatus::Complete.as_str());
    assert_eq!("PartiallyCompleted", ConsistencyStatus::PartiallyCompleted.as_str());
    assert_eq!("FailedBeforeMutation", ConsistencyStatus::FailedBeforeMutation.as_str());
}

fn generator_scenario() -> Vec<String> {
    let mut object_ids = DeterministicObjectIds::new("asset");
    let mut event_ids = DeterministicEventIds::new("event");
    let mut transaction_ids = DeterministicTransactionIds::new("txn");
    let mut append_sequences = DeterministicAppendSequences::new();
    vec![
        object_ids.next_id().to_string(),
        object_ids.next_id().to_string(),
        event_ids.next_id().to_string(),
        event_ids.next_id().to_string(),
        transaction_ids.next_id().to_string(),
        transaction_ids.next_id().to_string(),
        append_sequences.next_sequence().value().to_string(),
        append_sequences.next_sequence().value().to_string(),
    ]
}

#[test]
fn deterministic_generators_replay_identical_sequences() {
    assert_eq!(generator_scenario(), generator_scenario());
}

fn clock_scenario() -> Vec<String> {
    let mut clock = DeterministicClock::new(&vec!["2026-07-15T10:00:00Z", "2026-07-15T10:00:01Z"]);
    vec![
        clock.next_timestamp(),
        clock.next_event_timestamp().as_str().to_owned(),
        clock.next_transaction_timestamp().as_str().to_owned(),
    ]
}

#[test]
fn deterministic_clock_replays_fixed_timestamps() {
    assert_eq!(clock_scenario(), clock_scenario());
    assert_eq!(
        clock_scenario(),
        vec!["2026-07-15T10:00:00Z".to_owned(), "2026-07-15T10:00:01Z".to_owned(), "2026-07-15T10:00:00Z".to_owned()]
    );
}

#[test]
fn demo_crypto_hash_is_deterministic_and_demo_only() {
    let mut first = DemoCryptographicProvider::default();
    let mut second = DemoCryptographicProvider::default();
    let first_hash = first.hash(b"same canonical content").unwrap();
    let second_hash = second.hash(b"same canonical content").unwrap();
    assert_eq!(first_hash, second_hash);
    assert!(first_hash.as_str().starts_with("demo-noncrypto-"));
}

#[test]
fn asset_and_event_metadata_registration_succeeds() {
    let mut object_runtime = ObjectRuntime::new(MemoryObjectStorage::new(), DeterministicObjectIds::new("asset"));
    let mut event_engine =
        EventEngine::new(DemoEventStore::default(), DeterministicEventIds::new("event"), DeterministicAppendSequences::new());
    register_object_metadata(&mut object_runtime).unwrap();
    register_event_metadata(&mut event_engine).unwrap();

    let object_type = object_runtime.get_object_type(&asset_object_type_ref()).unwrap();
    assert_eq!(object_type.type_ref.name, "asset.equipment");
    assert_eq!(object_type.properties.len(), 13);

    let event_types = [
        event_engine.get_event_type(&asset_registered_event_type_ref()).unwrap(),
        event_engine.get_event_type(&asset_event_type_definitions()[1].type_ref).unwrap(),
        event_engine.get_event_type(&asset_event_type_definitions()[2].type_ref).unwrap(),
    ];
    let event_names = event_types.iter().map(|definition| definition.type_ref.name.as_str()).collect::<Vec<_>>();
    assert_eq!(event_names, ["asset.registered", "asset.calibration_performed", "asset.calibration_accepted"]);
}

#[test]
fn malformed_asset_metadata_is_rejected_by_engine_validators() {
    let mut object_runtime = ObjectRuntime::new(MemoryObjectStorage::new(), DeterministicObjectIds::new("asset"));
    let mut malformed_object = asset_object_type_definition();
    let definition = malformed_object.properties.remove(&"identity_label".to_owned()).unwrap();
    malformed_object.properties.insert("wrong_key".to_owned(), definition);
    let object_error = object_runtime.register_object_type(malformed_object).unwrap_err();
    assert!(matches!(
        object_error,
        ObjectRuntimeError::MalformedMetadata { failure: ObjectMetadataError::PropertyKeyMismatch { .. } }
    ));

    let mut event_engine =
        EventEngine::new(DemoEventStore::default(), DeterministicEventIds::new("event"), DeterministicAppendSequences::new());
    let mut malformed_event = asset_event_type_definitions().remove(0);
    malformed_event.type_ref = EventTypeRef::new("", 1);
    let event_error = event_engine.register_event_type(malformed_event).unwrap_err();
    assert!(matches!(event_error, EventEngineError::MalformedMetadata { failure: EventMetadataError::EmptyTypeName }));
}

fn accepts_event_storage_provider<S: EventStorageProvider>(_store: S) {}

#[test]
fn independent_event_store_has_no_unit_of_work_trait_surface() {
    accepts_event_storage_provider(DemoEventStore::default());
}

#[test]
fn operation_outcome_report_lists_steps_and_identities() {
    let mut outcome = OperationOutcome::new();
    assert!(!outcome.is_complete());
    outcome.completed_steps.push(StepId::ValidateAssetInput);
    outcome.completed_steps.push(StepId::CreateAssetObject);
    outcome.created_object_id = Some(ObjectId::new("asset-0001"));
    outcome.created_event_ids.push(EventId::new("event-0001"));
    outcome.created_event_ids.push(EventId::new("event-0002"));
    outcome.mark_complete("none required");
    assert!(outcome.is_complete());
    assert_eq!(
        outcome.to_cli_report(),
        "consistency_status: Complete\ncompleted_steps: validate_asset_input,create_asset_object\nfailed_step: none\ncreated_object_id: asset-0001\ncreated_event_ids: event-0001,event-0002\ncreated_transaction_ids: none\nrecovery_guidance: none required"
    );
}

#[test]
fn failed_and_partial_outcomes_name_the_failed_step() {
    let failed = OperationOutcome::fail_before_mutation(StepId::ValidateAssetInput, "fix the input");
    assert_eq!(failed.consistency_status, ConsistencyStatus::FailedBeforeMutation);
    assert_eq!(failed.failed_step, Some(StepId::ValidateAssetInput));
    assert!(failed.to_cli_report().contains("failed_step: validate_asset_input\n"));
    assert!(failed.to_cli_report().ends_with("recovery_guidance: fix the input"));

    let mut partial = OperationOutcome::default();
    partial.mark_partial(StepId::AppendAssetRegisteredEvent, "append the missing event");
    assert_eq!(partial.consistency_status, ConsistencyStatus::PartiallyCompleted);
    assert!(partial.to_cli_report().starts_with("consistency_status: PartiallyCompleted\ncompleted_steps: none\n"));
}

struct FloatParser;

impl NumberParser for FloatParser {
    fn parse_number(&self, text: &str) -> Option<u64> {
        text.parse::<f64>().ok().map(f64::to_bits)
    }
}

#[test]
fn demo_input_is_valid_and_yields_thirteen_properties() {
    let input = RegisterAssetInput::demo();
    assert!(input.validate().is_ok());
    assert_eq!(input.calibration_interval_days.map(f64::from_bits), Some(365.0));
    let request = input.create_request();
    assert_eq!(request.properties.len(), 13);
    assert_eq!(request.lifecycle_state.as_str(), "active");
    assert_eq!(request.permission_scope.as_str(), "demo-local-scope");
    assert_eq!(request.ownership.owner.as_str(), "demo-operator");
    assert!(matches!(request.properties.get(&"status".to_owned()), Some(PropertyValue::EnumValue(v)) if v == "registered"));
    assert!(matches!(
        request.properties.get(&"identity_label".to_owned()),
        Some(PropertyValue::Text { value, language: Some(language) }) if value == "Scale A-100" && language == "en"
    ));
}

#[test]
fn invalid_inputs_are_refused_before_mutation() {
    let mut missing_label = RegisterAssetInput::demo();
    missing_label.identity_label = String::new();
    assert_eq!(missing_label.validate().unwrap_err(), "identity_label is required; no Runtime mutation was attempted.");

    let mut bad_class = RegisterAssetInput::demo();
    bad_class.asset_class = "spaceship".to_owned();
    assert_eq!(bad_class.validate().unwrap_err(), "asset_class is not allowed; no Runtime mutation was attempted.");

    let mut missing_interval = RegisterAssetInput::demo();
    missing_interval.calibration_interval_days = None;
    assert_eq!(
        missing_interval.validate().unwrap_err(),
        "calibration interval and next due date are required when calibration is required; no Runtime mutation was attempted."
    );
    missing_interval.calibration_required = false;
    assert!(missing_interval.validate().is_ok());
    assert_eq!(missing_interval.create_request().properties.len(), 12);
}

#[test]
fn overrides_apply_in_order_and_stop_at_the_first_error() {
    let mut input = RegisterAssetInput::demo();
    let args = vec![
        "--identity-label=Scale B-200".to_owned(),
        "--calibration-interval-days=30".to_owned(),
        "--calibration-required=false".to_owned(),
    ];
    input.apply_overrides(&args, &FloatParser).unwrap();
    assert_eq!(input.identity_label, "Scale B-200");
    assert_eq!(input.calibration_interval_days.map(f64::from_bits), Some(30.0));
    assert!(!input.calibration_required);

    let mut partial = RegisterAssetInput::demo();
    let args = vec!["--model=DI-200".to_owned(), "--colour=red".to_owned(), "--location=Elsewhere".to_owned()];
    assert_eq!(partial.apply_overrides(&args, &FloatParser).unwrap_err(), "unknown register-asset field: colour");
    assert_eq!(partial.model, "DI-200");
    assert_eq!(partial.location, "Calibration Lab");

    let mut malformed = RegisterAssetInput::demo();
    assert_eq!(
        malformed.apply_overrides(&vec!["model=DI-200".to_owned()], &FloatParser).unwrap_err(),
        "invalid register-asset argument: model=DI-200"
    );
    assert_eq!(
        malformed.apply_overrides(&vec!["--calibration-required=maybe".to_owned()], &FloatParser).unwrap_err(),
        "calibration-required must be true or false"
    );
    assert_eq!(
        malformed.apply_overrides(&vec!["--calibration-interval-days=often".to_owned()], &FloatParser).unwrap_err(),
        "calibration-interval-days must be numeric"
    );
    malformed.apply_overrides(&vec!["--serial-number=a=b".to_owned()], &FloatParser).unwrap();
    assert_eq!(malformed.serial_number, "a=b");
}

#[test]
fn registration_steps_build_a_complete_outcome() {
    let mut outcome = begin_registration(Ok(()));
    assert!(record_metadata_registration(&mut outcome, Ok(())));
    assert!(record_object_creation(&mut outcome, Ok(ObjectId::new("asset-0001"))));
    assert!(record_registered_event(&mut outcome, Ok(EventId::new("event-0001"))));
    record_registration_transaction(&mut outcome, Ok(TransactionId::new("txn-0001")));
    assert!(outcome.is_complete());
    assert_eq!(
        outcome.to_cli_report(),
        "consistency_status: Complete\ncompleted_steps: validate_asset_input,register_metadata,create_asset_object,append_asset_registered_event,append_registration_transaction\nfailed_step: none\ncreated_object_id: asset-0001\ncreated_event_ids: event-0001\ncreated_transaction_ids: txn-0001\nrecovery_guidance: asset registration complete; all sequential records were created."
    );
}

#[test]
fn failed_registration_steps_report_what_was_created() {
    let refused = begin_registration(Err("identity_label is required; no Runtime mutation was attempted.".to_owned()));
    assert_eq!(refused.consistency_status, ConsistencyStatus::FailedBeforeMutation);
    assert_eq!(refused.failed_step, Some(StepId::ValidateAssetInput));

    let mut outcome = begin_registration(Ok(()));
    assert!(record_metadata_registration(&mut outcome, Ok(())));
    assert!(record_object_creation(&mut outcome, Ok(ObjectId::new("asset-0001"))));
    assert!(!record_registered_event(&mut outcome, Err("storage provider failure: disk".to_owned())));
    assert_eq!(outcome.consistency_status, ConsistencyStatus::PartiallyCompleted);
    assert_eq!(outcome.created_object_id, Some(ObjectId::new("asset-0001")));
    assert_eq!(
        outcome.recovery_guidance,
        "asset object asset-0001 exists, but the registration event was not appended: storage provider failure: disk. Next safe step: inspect the object and append the missing registration event; do not delete immutable records."
    );

    let mut late = begin_registration(Ok(()));
    record_metadata_registration(&mut late, Ok(()));
    record_object_creation(&mut late, Ok(ObjectId::new("asset-0002")));
    record_registered_event(&mut late, Ok(EventId::new("event-0002")));
    record_registration_transaction(&mut late, Err("injected".to_owned()));
    assert_eq!(late.failed_step, Some(StepId::AppendRegistrationTransaction));
    assert_eq!(late.created_event_ids, vec![EventId::new("event-0002")]);
    assert_eq!(
        late.recovery_guidance,
        "asset object asset-0002 and event event-0002 exist, but the Level1 registration transaction was not appended: injected. Next safe step: append the missing registration transaction referencing no prior transaction; do not delete immutable records."
    );

    let mut no_metadata = begin_registration(Ok(()));
    assert!(!record_metadata_registration(&mut no_metadata, Err("duplicate".to_owned())));
    assert_eq!(no_metadata.recovery_guidance, "metadata registration failed before asset records were created: duplicate");
    let mut no_object = begin_registration(Ok(()));
    record_metadata_registration(&mut no_object, Ok(()));
    assert!(!record_object_creation(&mut no_object, Err("missing".to_owned())));
    assert_eq!(no_object.recovery_guidance, "object creation failed before event or transaction append: missing");
    assert!(no_object.created_object_id.is_none());
}
