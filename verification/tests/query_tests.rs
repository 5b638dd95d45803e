use open_eqms::collections::{OrdMap, OrdSet};
use open_eqms::contracts::{
    AuthorizationTarget, AuthorizationDecision, AuthorizationDecisionTrace, AuthorizationEffect, AuthorizationProvider, AuthorizationRequest,
    CallerPermissionContext, ConsistencyBoundary, ConsistencyBoundaryUnavailable, ConsistencyBoundaryUnavailableReason,
    ConsistencySlot, ObjectId, PropertyValue, PropertyValueKind, StableConsistencyMarker, Version,
};
use open_eqms::ordering_keys::compare_stable_ordering_keys;
use open_eqms::query_canonical::{
    canonical_query_bytes, canonical_query_result_bytes, canonical_semantic_record_bytes, semantic_query_equal,
};
use open_eqms::query_aggregation::NumberAggregator;
use open_eqms::query_engine::{
    validate_query_source_contract, ExecutableQuerySourceProvider, QueryEngine, QuerySourceProvider, SavedQueryCatalog,
};
use open_eqms::query_errors::{QueryEngineError, ValidationError};
use open_eqms::query_limits::{
    ensure_evaluation_steps_within_limit, ensure_result_count_within_limit, ensure_timeout_not_elapsed, CancellationState,
    ExecutionLimitKind, ExecutionLimits, QueryTimeout,
};
use open_eqms::query_types::{
    AggregationFunction, AggregationSpec, ContextPackageId, ContextPackageRequest, GroupSpec, PartialResultPolicy,
    Predicate, PresentationType, Projection, QueryCompleteness, QueryDefinition, QueryExecutionRequest, QueryRecord,
    QueryResultId, QuerySchema, QuerySourceRef, ResultClassification, SavedQueryChange, SavedQueryDefinition,
    SavedQueryExecutionRequest, SavedQueryId, SavedQueryValidationStatus, SortDirection, SortSpec, SourceCapabilities,
    SourceCapability, StableOrderingKey, TemporalScope, TraversalDirection, TraversalSpec,
    CURRENT_SAVED_QUERY_SCHEMA_VERSION,
};
use open_eqms::query_validation::{validate_query_definition, validate_query_definition_against_schema};
use std::cell::RefCell;
use std::collections::BTreeMap;

struct FloatNumbers;

impl NumberAggregator for FloatNumbers {
    fn sum(&self, values: &Vec<u64>) -> u64 {
        values.iter().map(|bits| f64::from_bits(*bits)).sum::<f64>().to_bits()
    }

    fn average(&self, values: &Vec<u64>) -> u64 {
        let total = values.iter().map(|bits| f64::from_bits(*bits)).sum::<f64>();
        (total / values.len() as f64).to_bits()
    }
}

fn number(value: f64) -> PropertyValue {
    PropertyValue::Number(value.to_bits())
}

fn text(value: &str) -> String {
    value.to_owned()
}

fn source_ref() -> QuerySourceRef {
    QuerySourceRef::new("synthetic-source")
}

fn query() -> QueryDefinition {
    QueryDefinition::new(
        source_ref(),
        TemporalScope::Current,
        None,
        PartialResultPolicy::RejectPartial,
        PresentationType::RecordSet,
    )
}

fn schema() -> QuerySchema {
    let mut fields = OrdMap::new();
    fields.insert(text("status"), PropertyValueKind::EnumValue);
    fields.insert(text("created_at"), PropertyValueKind::DateTime);
    fields.insert(text("score"), PropertyValueKind::Number);
    QuerySchema::new(fields)
}

fn boundary() -> ConsistencyBoundary {
    ConsistencyBoundary::empty().with_query_definition(ConsistencySlot::Available(StableConsistencyMarker::new(
        "query-definition",
        "semantic-v1",
    )))
}

fn record(record_id: &str, status: &str, score: f64) -> QueryRecord {
    let mut fields = OrdMap::new();
    fields.insert(text("status"), PropertyValue::EnumValue(text(status)));
    fields.insert(text("score"), number(score));
    fields.insert(text("created_at"), PropertyValue::DateTime(format!("2026-09-09T08:00:0{}Z", score as u8)));
    QueryRecord::source_fact(source_ref(), "synthetic-record", record_id, StableOrderingKey::new(vec![text(record_id)]), fields)
        .with_permission_scope("scope:synthetic")
        .with_source_version(Version::new(2))
        .with_integrity(&format!("integrity-{record_id}"))
}

struct SyntheticSource {
    source: QuerySourceRef,
    capabilities: SourceCapabilities,
    records: Vec<QueryRecord>,
    boundary: ConsistencyBoundary,
}

impl SyntheticSource {
    fn new(capabilities: SourceCapabilities) -> Self {
        SyntheticSource { source: source_ref(), capabilities, records: Vec::new(), boundary: boundary() }
    }

    fn with_records(mut self, records: Vec<QueryRecord>) -> Self {
        self.records = records;
        self
    }

    fn with_boundary(mut self, boundary: ConsistencyBoundary) -> Self {
        self.boundary = boundary;
        self
    }
}

impl QuerySourceProvider for SyntheticSource {
    fn source_ref(&self) -> &QuerySourceRef {
        &self.source
    }

    fn capabilities(&self) -> SourceCapabilities {
        self.capabilities
    }

    fn describe_schema(&self) -> Result<QuerySchema, QueryEngineError> {
        Ok(schema())
    }
}

impl ExecutableQuerySourceProvider for SyntheticSource {
    fn consistency_boundary(&self) -> Result<ConsistencyBoundary, QueryEngineError> {
        Ok(self.boundary.clone())
    }

    fn read_records(&self, cancellation: &CancellationState) -> Result<Vec<QueryRecord>, QueryEngineError> {
        cancellation.check_cancelled()?;
        Ok(self.records.clone())
    }
}

#[derive(Default)]
struct SyntheticAuthorization {
    decisions_by_record: BTreeMap<String, AuthorizationEffect>,
    calls: RefCell<Vec<String>>,
    failure: Option<String>,
}

impl SyntheticAuthorization {
    fn with_decision(mut self, record_id: &str, effect: AuthorizationEffect) -> Self {
        self.decisions_by_record.insert(text(record_id), effect);
        self
    }

    fn failing(message: &str) -> Self {
        SyntheticAuthorization { failure: Some(text(message)), ..SyntheticAuthorization::default() }
    }

    fn calls(&self) -> Vec<String> {
        self.calls.borrow().clone()
    }
}

impl AuthorizationProvider for SyntheticAuthorization {
    type Error = String;

    fn decide(&self, request: &AuthorizationRequest) -> Result<AuthorizationDecision, String> {
        if let Some(message) = &self.failure {
            return Err(message.clone());
        }
        let record_id = request.target().object_identifier().to_owned();
        self.calls.borrow_mut().push(record_id.clone());
        let effect = self.decisions_by_record.get(&record_id).copied().unwrap_or(AuthorizationEffect::Allow);
        let reason = match effect {
            AuthorizationEffect::Allow => "allow",
            AuthorizationEffect::Deny => "deny",
            AuthorizationEffect::HiddenDeny => "hidden-deny",
        };
        Ok(AuthorizationDecision::new(
            effect,
            AuthorizationDecisionTrace::new(
                "policy-v1",
                &format!("decision-{record_id}"),
                "2026-09-09T08:00:00Z",
                "synthetic-security",
                reason,
            ),
        ))
    }
}

#[derive(Default)]
struct SyntheticSavedQueryCatalog {
    saved_queries: BTreeMap<String, SavedQueryDefinition>,
    failure: Option<String>,
}

impl SyntheticSavedQueryCatalog {
    fn failing(message: &str) -> Self {
        SyntheticSavedQueryCatalog { failure: Some(text(message)), ..SyntheticSavedQueryCatalog::default() }
    }
}

impl SavedQueryCatalog for SyntheticSavedQueryCatalog {
    type Error = String;

    fn save_query(&mut self, saved_query: SavedQueryDefinition) -> Result<(), String> {
        if let Some(message) = &self.failure {
            return Err(message.clone());
        }
        self.saved_queries.insert(saved_query.id.to_string(), saved_query);
        Ok(())
    }

    fn load_query(&self, saved_query_id: &SavedQueryId) -> Result<Option<SavedQueryDefinition>, String> {
        if let Some(message) = &self.failure {
            return Err(message.clone());
        }
        Ok(self.saved_queries.get(saved_query_id.as_str()).map(|q| clone_saved(q)))
    }
}

fn clone_saved(q: &SavedQueryDefinition) -> SavedQueryDefinition {
    SavedQueryDefinition {
        schema_version: q.schema_version,
        id: q.id.clone(),
        name: q.name.clone(),
        version: q.version,
        owner: q.owner.clone(),
        access_permission_scope: q.access_permission_scope.clone(),
        validation_status: q.validation_status,
        change_history: q.change_history.clone(),
        query_definition: q.query_definition.clone(),
    }
}

fn saved_query_definition() -> SavedQueryDefinition {
    SavedQueryDefinition::new(
        SavedQueryId::new("saved-001"),
        "Active records",
        Version::initial(),
        "quality-owner",
        "scope:quality",
        SavedQueryValidationStatus::ApprovedForRegulatedUse,
        vec![SavedQueryChange::new("quality-owner", "2026-09-09T08:00:00Z", "initial approved query")],
        query().with_predicate(Predicate::Equals { field: text("status"), value: PropertyValue::EnumValue(text("active")) }),
    )
}

fn request(definition: QueryDefinition, result_id: &str) -> QueryExecutionRequest {
    QueryExecutionRequest::new(definition, CallerPermissionContext::new("caller-context"), QueryResultId::new(result_id))
}

fn first_record_id(ids: &OrdSet<String>) -> String {
    ids.item_at(0).clone()
}

#[test]
fn saved_query_registration_rejects_missing_mandatory_metadata() {
    let mut missing_owner = saved_query_definition();
    missing_owner.owner.clear();
    assert!(matches!(
        QueryEngine::new().register_saved_query(
            &mut SyntheticSavedQueryCatalog::default(),
            &SyntheticAuthorization::default(),
            CallerPermissionContext::new("caller-context"),
            missing_owner,
        ),
        Err(QueryEngineError::MalformedQuery { failure: ValidationError::EmptySavedQueryOwner })
    ));

    let mut missing_scope = saved_query_definition();
    missing_scope.access_permission_scope.clear();
    assert!(matches!(
        QueryEngine::new().register_saved_query(
            &mut SyntheticSavedQueryCatalog::default(),
            &SyntheticAuthorization::default(),
            CallerPermissionContext::new("caller-context"),
            missing_scope,
        ),
        Err(QueryEngineError::MalformedQuery { failure: ValidationError::EmptySavedQueryAccessPermissionScope })
    ));

    let mut missing_history = saved_query_definition();
    missing_history.change_history.clear();
    assert!(matches!(
        QueryEngine::new().register_saved_query(
            &mut SyntheticSavedQueryCatalog::default(),
            &SyntheticAuthorization::default(),
            CallerPermissionContext::new("caller-context"),
            missing_history,
        ),
        Err(QueryEngineError::MalformedQuery { failure: ValidationError::EmptySavedQueryChangeHistory })
    ));
}

#[test]
fn saved_query_schema_mismatch_and_catalog_failure_are_distinct() {
    let mut mismatched = saved_query_definition();
    mismatched.schema_version = CURRENT_SAVED_QUERY_SCHEMA_VERSION + 1;
    assert!(matches!(
        QueryEngine::new().register_saved_query(
            &mut SyntheticSavedQueryCatalog::default(),
            &SyntheticAuthorization::default(),
            CallerPermissionContext::new("caller-context"),
            mismatched,
        ),
        Err(QueryEngineError::SavedQuerySchemaVersionMismatch { reason })
            if reason.contains("expected schema version")
    ));

    assert!(matches!(
        QueryEngine::new().register_saved_query(
            &mut SyntheticSavedQueryCatalog::failing("catalog offline"),
            &SyntheticAuthorization::default(),
            CallerPermissionContext::new("caller-context"),
            saved_query_definition(),
        ),
        Err(QueryEngineError::SavedQueryCatalogUnavailable { message }) if message == "catalog offline"
    ));
}

#[test]
fn stable_ordering_keys_sort_deterministically() {
    let mut keys = [
        StableOrderingKey::new(vec![text("record-b"), text("002")]),
        StableOrderingKey::new(vec![text("record-a"), text("003")]),
        StableOrderingKey::new(vec![text("record-a"), text("001")]),
    ];

    keys.sort_by(compare_stable_ordering_keys);

    let ordered = keys.iter().map(|key| key.segments().join(":")).collect::<Vec<_>>();
    assert_eq!(ordered, ["record-a:001", "record-a:003", "record-b:002"]);
}

#[test]
fn limit_helpers_return_distinct_limit_errors() {
    let limits = ExecutionLimits::new(Some(2), Some(10), None).unwrap();

    assert!(matches!(
        ensure_result_count_within_limit(&limits, 3),
        Err(QueryEngineError::ExecutionLimitExceeded { limit: ExecutionLimitKind::ResultCount })
    ));
    assert!(matches!(
        ensure_evaluation_steps_within_limit(&limits, 11),
        Err(QueryEngineError::ExecutionLimitExceeded { limit: ExecutionLimitKind::EvaluationSteps })
    ));
    ensure_result_count_within_limit(&limits, 2).unwrap();
    ensure_evaluation_steps_within_limit(&limits, 10).unwrap();
}

#[test]
fn timeout_representation_is_deterministic_and_not_wall_clock_based() {
    let timeout = QueryTimeout::from_millis(250).unwrap();

    ensure_timeout_not_elapsed(timeout, 250).unwrap();
    assert!(matches!(
        ensure_timeout_not_elapsed(timeout, 251),
        Err(QueryEngineError::Timeout { timeout: observed }) if observed == timeout
    ));
}

#[test]
fn minimal_query_executes_with_caller_supplied_result_identity() {
    let source = SyntheticSource::new(SourceCapabilities::all()).with_records(vec![record("record-001", "active", 5.0)]);

    let result = QueryEngine::new()
        .execute_one_shot(&source, &SyntheticAuthorization::default(), request(query(), "result-001"), &FloatNumbers)
        .unwrap();

    assert_eq!("result-001", result.id.as_str());
    assert_eq!(Version::initial(), result.version);
    assert!(matches!(result.completeness, QueryCompleteness::Complete));
    assert_eq!(1, result.items.len());
}

#[test]
fn source_capabilities_reject_unsupported_aggregation() {
    let provider = SyntheticSource::new(SourceCapabilities { aggregation: false, ..SourceCapabilities::all() });
    let definition = query().with_aggregations(vec![AggregationSpec::new(
        AggregationFunction::Average,
        Some(text("score")),
        "average_score",
    )]);

    let error = validate_query_source_contract(&provider, &definition).unwrap_err();

    assert!(matches!(
        error,
        QueryEngineError::UnsupportedCapability { source, capability: SourceCapability::Aggregation }
            if source.as_str() == "synthetic-source"
    ));
}

#[test]
fn source_contract_rejects_unknown_source_without_registry() {
    let provider = SyntheticSource::new(SourceCapabilities::all());
    let definition = QueryDefinition::new(
        QuerySourceRef::new("other-source"),
        TemporalScope::Current,
        None,
        PartialResultPolicy::RejectPartial,
        PresentationType::RecordSet,
    );

    let error = validate_query_source_contract(&provider, &definition).unwrap_err();

    assert!(matches!(error, QueryEngineError::UnknownSource { source } if source.as_str() == "other-source"));
}

#[test]
fn invalid_schema_field_is_rejected_structurally() {
    let definition = query().with_predicate(Predicate::Equals {
        field: text("missing"),
        value: PropertyValue::EnumValue(text("approved")),
    });

    let error = validate_query_definition_against_schema(&definition, &schema()).unwrap_err();

    assert!(matches!(error, QueryEngineError::InvalidField { field } if field == "missing"));
}

#[test]
fn predicate_projection_sort_group_and_aggregation_structures_validate() {
    let mut projection = OrdSet::new();
    projection.insert(text("status"));
    projection.insert(text("score"));
    let mut group_fields = OrdSet::new();
    group_fields.insert(text("status"));
    let definition = query()
        .with_predicate(Predicate::And(vec![
            Predicate::Exists { field: text("status") },
            Predicate::Range { field: text("score"), lower: Some(number(1.0)), upper: Some(number(5.0)) },
        ]))
        .with_projection(Projection::SelectedFields(projection))
        .with_sort(vec![SortSpec::new("created_at", SortDirection::Descending)])
        .with_group(GroupSpec::new(group_fields))
        .with_aggregations(vec![
            AggregationSpec::new(AggregationFunction::Count, None, "row_count"),
            AggregationSpec::new(AggregationFunction::Average, Some(text("score")), "average_score"),
        ]);

    validate_query_definition_against_schema(&definition, &schema()).unwrap();
}

#[test]
fn execution_projects_authorized_records_with_provenance_and_boundary() {
    let source = SyntheticSource::new(SourceCapabilities::all())
        .with_records(vec![record("record-002", "inactive", 4.0), record("record-001", "active", 5.0)]);
    let mut projection = OrdSet::new();
    projection.insert(text("status"));
    let definition = query()
        .with_predicate(Predicate::Equals { field: text("status"), value: PropertyValue::EnumValue(text("active")) })
        .with_projection(Projection::SelectedFields(projection));

    let result = QueryEngine::new()
        .execute_one_shot(&source, &SyntheticAuthorization::default(), request(definition, "result-001"), &FloatNumbers)
        .unwrap();

    assert_eq!(boundary(), result.consistency_boundary);
    assert_eq!(PresentationType::RecordSet, result.presentation_type);
    assert_eq!(1, result.items.len());
    assert_eq!(Some(&PropertyValue::EnumValue(text("active"))), result.items[0].fields.get(&text("status")));
    assert!(!result.items[0].fields.contains_key(&text("score")));
    assert_eq!(ResultClassification::SourceFact, result.items[0].classification);
    assert_eq!(1, result.items[0].provenance.source_record_ids.len());
    assert_eq!("record-001", first_record_id(&result.items[0].provenance.source_record_ids));
    assert_eq!(Some(text("scope:synthetic")), result.items[0].provenance.permission_scope);
    assert_eq!(Some(text("synthetic-record")), result.items[0].provenance.source_record_type);
}

#[test]
fn denied_and_hidden_denied_records_do_not_influence_aggregate_results() {
    let source = SyntheticSource::new(SourceCapabilities::all()).with_records(vec![
        record("record-001", "active", 5.0),
        record("record-002", "active", 10.0),
        record("record-003", "active", 20.0),
    ]);
    let definition = query().with_aggregations(vec![
        AggregationSpec::new(AggregationFunction::Count, None, "count"),
        AggregationSpec::new(AggregationFunction::Sum, Some(text("score")), "sum"),
    ]);
    let authorization = SyntheticAuthorization::default()
        .with_decision("record-002", AuthorizationEffect::Deny)
        .with_decision("record-003", AuthorizationEffect::HiddenDeny);

    let result = QueryEngine::new()
        .execute_one_shot(&source, &authorization, request(definition, "result-aggregate"), &FloatNumbers)
        .unwrap();

    assert_eq!(authorization.calls(), ["record-001", "record-002", "record-003"]);
    assert_eq!(1, result.items.len());
    assert_eq!(Some(&number(1.0)), result.items[0].fields.get(&text("count")));
    assert_eq!(Some(&number(5.0)), result.items[0].fields.get(&text("sum")));
    assert_eq!(1, result.items[0].provenance.source_record_ids.len());
    assert_eq!("record-001", first_record_id(&result.items[0].provenance.source_record_ids));
    assert_eq!(ResultClassification::ComputedValue, result.items[0].classification);
    assert_eq!(vec![text("aggregate:all")], *result.items[0].ordering_key.segments());
}

#[test]
fn sorting_is_deterministic_and_uses_stable_key_as_tie_breaker() {
    let source = SyntheticSource::new(SourceCapabilities::all()).with_records(vec![
        record("record-c", "active", 5.0),
        record("record-a", "active", 5.0),
        record("record-b", "active", 7.0),
    ]);
    let definition = query().with_sort(vec![SortSpec::new("score", SortDirection::Ascending)]);

    let result = QueryEngine::new()
        .execute_one_shot(&source, &SyntheticAuthorization::default(), request(definition, "result-sorted"), &FloatNumbers)
        .unwrap();
    let ordered = result.items.iter().map(|item| first_record_id(&item.provenance.source_record_ids)).collect::<Vec<_>>();

    assert_eq!(ordered, ["record-a", "record-c", "record-b"]);
}

#[test]
fn statistical_correlation_classification_is_preserved_not_retagged() {
    let source = SyntheticSource::new(SourceCapabilities::all()).with_records(vec![
        record("record-001", "active", 5.0).with_classification(ResultClassification::StatisticalCorrelation),
    ]);

    let result = QueryEngine::new()
        .execute_one_shot(&source, &SyntheticAuthorization::default(), request(query(), "result-correlation"), &FloatNumbers)
        .unwrap();

    assert_eq!(ResultClassification::StatisticalCorrelation, result.items[0].classification);
}

#[test]
fn unavailable_boundary_is_rejected_unless_partial_results_are_allowed() {
    let unavailable_boundary = ConsistencyBoundary::empty().with_event_engine(ConsistencySlot::Unavailable(
        ConsistencyBoundaryUnavailable::new(
            ConsistencyBoundaryUnavailableReason::ComponentApiNotAvailable,
            "event boundary API not implemented",
        ),
    ));
    let source = SyntheticSource::new(SourceCapabilities::all())
        .with_records(vec![record("record-001", "active", 5.0)])
        .with_boundary(unavailable_boundary.clone());

    assert!(matches!(
        QueryEngine::new().execute_one_shot(
            &source,
            &SyntheticAuthorization::default(),
            request(query(), "result-rejected"),
            &FloatNumbers,
        ),
        Err(QueryEngineError::ConsistencyBoundaryUnavailable {
            reason: ConsistencyBoundaryUnavailableReason::ComponentApiNotAvailable,
            ..
        })
    ));

    let allowed_definition = QueryDefinition::new(
        source_ref(),
        TemporalScope::Current,
        None,
        PartialResultPolicy::AllowIncomplete,
        PresentationType::RecordSet,
    );
    let result = QueryEngine::new()
        .execute_one_shot(
            &source,
            &SyntheticAuthorization::default(),
            request(allowed_definition, "result-allowed"),
            &FloatNumbers,
        )
        .unwrap();

    assert_eq!(unavailable_boundary, result.consistency_boundary);
    assert!(matches!(
        result.completeness,
        QueryCompleteness::Incomplete { reason } if reason == "component-api-not-available"
    ));
}

#[test]
fn cancellation_and_authorization_provider_failure_are_distinct_errors() {
    let source = SyntheticSource::new(SourceCapabilities::all()).with_records(vec![record("record-001", "active", 5.0)]);
    let cancellation = CancellationState::new();
    cancellation.request_cancel();

    assert!(matches!(
        QueryEngine::new().execute_one_shot_with_cancellation(
            &source,
            &SyntheticAuthorization::default(),
            request(query(), "result-cancelled"),
            &cancellation,
            &FloatNumbers,
        ),
        Err(QueryEngineError::Cancelled)
    ));

    assert!(matches!(
        QueryEngine::new().execute_one_shot(
            &source,
            &SyntheticAuthorization::failing("policy backend unavailable"),
            request(query(), "result-cancelled"),
            &FloatNumbers,
        ),
        Err(QueryEngineError::AuthorizationProviderUnavailable { message }) if message == "policy backend unavailable"
    ));
}

#[test]
fn saved_query_registration_is_authorized_and_uses_injected_catalog() {
    let mut catalog = SyntheticSavedQueryCatalog::default();
    let authorization = SyntheticAuthorization::default();

    QueryEngine::new()
        .register_saved_query(
            &mut catalog,
            &authorization,
            CallerPermissionContext::new("caller-context"),
            saved_query_definition(),
        )
        .unwrap();

    assert_eq!(authorization.calls(), ["saved-001"]);
    let stored = catalog.load_query(&SavedQueryId::new("saved-001")).unwrap().unwrap();
    assert_eq!("saved-001", stored.id.as_str());
    assert_eq!("quality-owner", stored.owner);
}

#[test]
fn saved_query_registration_denial_does_not_write_catalog() {
    let mut catalog = SyntheticSavedQueryCatalog::default();
    let authorization = SyntheticAuthorization::default().with_decision("saved-001", AuthorizationEffect::Deny);

    assert!(matches!(
        QueryEngine::new().register_saved_query(
            &mut catalog,
            &authorization,
            CallerPermissionContext::new("caller-context"),
            saved_query_definition(),
        ),
        Err(QueryEngineError::PermissionDenied { target }) if target.object_identifier() == "saved-001"
    ));
    assert!(catalog.load_query(&SavedQueryId::new("saved-001")).unwrap().is_none());
}

#[test]
fn saved_query_execution_replays_stored_definition_through_one_shot_executor() {
    let mut catalog = SyntheticSavedQueryCatalog::default();
    catalog.save_query(saved_query_definition()).unwrap();
    let source = SyntheticSource::new(SourceCapabilities::all())
        .with_records(vec![record("record-001", "active", 5.0), record("record-002", "inactive", 7.0)]);
    let replay = SavedQueryExecutionRequest::new(
        SavedQueryId::new("saved-001"),
        CallerPermissionContext::new("caller-context"),
        QueryResultId::new("result-saved"),
    );

    let result = QueryEngine::new()
        .execute_saved_query(&catalog, &source, &SyntheticAuthorization::default(), replay, &FloatNumbers)
        .unwrap();

    assert_eq!("result-saved", result.id.as_str());
    assert_eq!(1, result.items.len());
    assert_eq!("record-001", first_record_id(&result.items[0].provenance.source_record_ids));
}

#[test]
fn saved_query_hidden_denial_is_observable_as_not_found() {
    let mut catalog = SyntheticSavedQueryCatalog::default();
    catalog.save_query(saved_query_definition()).unwrap();
    let source = SyntheticSource::new(SourceCapabilities::all());
    let authorization = SyntheticAuthorization::default().with_decision("saved-001", AuthorizationEffect::HiddenDeny);
    let replay = SavedQueryExecutionRequest::new(
        SavedQueryId::new("saved-001"),
        CallerPermissionContext::new("caller-context"),
        QueryResultId::new("result-hidden"),
    );

    assert!(matches!(
        QueryEngine::new().execute_saved_query(&catalog, &source, &authorization, replay, &FloatNumbers),
        Err(QueryEngineError::SavedQueryNotFound { saved_query_id }) if saved_query_id.as_str() == "saved-001"
    ));
}

#[test]
fn context_package_wraps_authorized_query_result_without_interpretation() {
    let source = SyntheticSource::new(SourceCapabilities::all())
        .with_records(vec![record("record-001", "active", 5.0), record("record-002", "active", 7.0)]);
    let authorization = SyntheticAuthorization::default().with_decision("record-002", AuthorizationEffect::HiddenDeny);
    let package_request =
        ContextPackageRequest::new(ContextPackageId::new("context-001"), request(query(), "result-context"), 4, 1);

    let package = QueryEngine::new().build_context_package(&source, &authorization, package_request, &FloatNumbers).unwrap();

    assert_eq!("context-001", package.id.as_str());
    assert_eq!(Version::initial(), package.version);
    assert_eq!("caller-context", package.caller_context.as_str());
    assert_eq!(1, package.max_depth);
    assert_eq!(boundary(), package.query_result.consistency_boundary);
    assert_eq!(1, package.query_result.items.len());
    assert_eq!("record-001", first_record_id(&package.query_result.items[0].provenance.source_record_ids));
}

#[test]
fn context_package_limits_are_validated_and_enforced() {
    let source = SyntheticSource::new(SourceCapabilities::all())
        .with_records(vec![record("record-001", "active", 5.0), record("record-002", "active", 7.0)]);

    assert!(matches!(
        QueryEngine::new().build_context_package(
            &source,
            &SyntheticAuthorization::default(),
            ContextPackageRequest::new(ContextPackageId::new("context-001"), request(query(), "result-context"), 0, 1),
            &FloatNumbers,
        ),
        Err(QueryEngineError::MalformedQuery { failure: ValidationError::ZeroContextPackageItemLimit })
    ));
    assert!(matches!(
        QueryEngine::new().build_context_package(
            &source,
            &SyntheticAuthorization::default(),
            ContextPackageRequest::new(ContextPackageId::new("context-001"), request(query(), "result-context"), 4, 0),
            &FloatNumbers,
        ),
        Err(QueryEngineError::MalformedQuery { failure: ValidationError::ZeroContextPackageDepthLimit })
    ));
    assert!(matches!(
        QueryEngine::new().build_context_package(
            &source,
            &SyntheticAuthorization::default(),
            ContextPackageRequest::new(ContextPackageId::new("context-001"), request(query(), "result-context"), 1, 1),
            &FloatNumbers,
        ),
        Err(QueryEngineError::ExecutionLimitExceeded { limit: ExecutionLimitKind::ResultCount })
    ));
}

#[test]
fn malformed_predicate_and_aggregation_shapes_are_rejected() {
    let empty_branch = query().with_predicate(Predicate::And(Vec::new()));
    assert!(matches!(
        validate_query_definition(&empty_branch),
        Err(QueryEngineError::MalformedQuery { failure: ValidationError::EmptyPredicateBranch })
    ));

    let missing_field = query().with_aggregations(vec![AggregationSpec::new(AggregationFunction::Sum, None, "sum_score")]);
    assert!(matches!(
        validate_query_definition(&missing_field),
        Err(QueryEngineError::MalformedQuery { failure: ValidationError::MissingAggregationField })
    ));
}

#[test]
fn execution_limits_are_part_of_query_validation() {
    let limits = ExecutionLimits::new(Some(100), Some(1_000), Some(QueryTimeout::from_millis(250).unwrap())).unwrap();
    let definition = query().with_execution_limits(limits);

    validate_query_definition(&definition).unwrap();
    assert_eq!(definition.execution_limits, limits);
}

#[test]
fn zero_execution_controls_are_malformed_query_values() {
    let zero_result_limit = query().with_execution_limits(ExecutionLimits {
        max_result_count: Some(0),
        max_evaluation_steps: None,
        timeout: None,
    });
    assert!(matches!(
        validate_query_definition(&zero_result_limit),
        Err(QueryEngineError::MalformedQuery { failure: ValidationError::ZeroResultLimit })
    ));

    let zero_step_limit = query().with_execution_limits(ExecutionLimits {
        max_result_count: None,
        max_evaluation_steps: Some(0),
        timeout: None,
    });
    assert!(matches!(
        validate_query_definition(&zero_step_limit),
        Err(QueryEngineError::MalformedQuery { failure: ValidationError::ZeroEvaluationStepLimit })
    ));

    assert!(matches!(
        QueryTimeout::from_millis(0),
        Err(QueryEngineError::MalformedQuery { failure: ValidationError::ZeroTimeout })
    ));
}

#[test]
fn grouped_aggregates_are_ordered_by_group_key_with_min_max_and_distinct_counts() {
    let source = SyntheticSource::new(SourceCapabilities::all()).with_records(vec![
        record("record-001", "inactive", 2.0),
        record("record-002", "active", 5.0),
        record("record-003", "active", 9.0),
        record("record-004", "active", 5.0),
    ]);
    let mut group_fields = OrdSet::new();
    group_fields.insert(text("status"));
    let definition = query().with_group(GroupSpec::new(group_fields)).with_aggregations(vec![
        AggregationSpec::new(AggregationFunction::Min, Some(text("score")), "min"),
        AggregationSpec::new(AggregationFunction::Max, Some(text("score")), "max"),
        AggregationSpec::new(AggregationFunction::DistinctCount, Some(text("score")), "distinct"),
        AggregationSpec::new(AggregationFunction::Average, Some(text("score")), "average"),
    ]);

    let result = QueryEngine::new()
        .execute_one_shot(&source, &SyntheticAuthorization::default(), request(definition, "result-grouped"), &FloatNumbers)
        .unwrap();

    assert_eq!(2, result.items.len());
    assert_eq!(vec![text("aggregate:6:status=enum:6:active")], *result.items[0].ordering_key.segments());
    assert_eq!(vec![text("aggregate:6:status=enum:8:inactive")], *result.items[1].ordering_key.segments());
    let active = &result.items[0].fields;
    assert_eq!(Some(&PropertyValue::EnumValue(text("active"))), active.get(&text("status")));
    assert_eq!(Some(&number(5.0)), active.get(&text("min")));
    assert_eq!(Some(&number(9.0)), active.get(&text("max")));
    assert_eq!(Some(&number(2.0)), active.get(&text("distinct")));
    assert_eq!(Some(&number(19.0 / 3.0)), active.get(&text("average")));
    assert_eq!(3, result.items[0].provenance.source_record_ids.len());
    assert_eq!(Some(text("aggregate")), result.items[0].provenance.source_record_type);
}

#[test]
fn non_numeric_sum_field_is_an_invalid_source_record() {
    let source = SyntheticSource::new(SourceCapabilities::all()).with_records(vec![record("record-001", "active", 5.0)]);
    let definition = query().with_aggregations(vec![AggregationSpec::new(AggregationFunction::Sum, Some(text("status")), "sum")]);

    assert!(matches!(
        QueryEngine::new().execute_one_shot(&source, &SyntheticAuthorization::default(), request(definition, "result-sum"), &FloatNumbers),
        Err(QueryEngineError::InvalidSourceRecord { record_id, reason, .. })
            if record_id == "record-001" && reason == "aggregation field status is not numeric"
    ));
}

#[test]
fn evaluation_step_limit_counts_authorized_records_only() {
    let source = SyntheticSource::new(SourceCapabilities::all()).with_records(vec![
        record("record-001", "active", 5.0),
        record("record-002", "active", 6.0),
        record("record-003", "active", 7.0),
    ]);
    let limits = ExecutionLimits::new(None, Some(2), None).unwrap();
    let authorization = SyntheticAuthorization::default().with_decision("record-002", AuthorizationEffect::Deny);

    let result = QueryEngine::new()
        .execute_one_shot(&source, &authorization, request(query().with_execution_limits(limits), "result-steps"), &FloatNumbers)
        .unwrap();
    assert_eq!(2, result.items.len());

    assert!(matches!(
        QueryEngine::new().execute_one_shot(
            &source,
            &SyntheticAuthorization::default(),
            request(query().with_execution_limits(limits), "result-steps"),
            &FloatNumbers,
        ),
        Err(QueryEngineError::ExecutionLimitExceeded { limit: ExecutionLimitKind::EvaluationSteps })
    ));
}

#[test]
fn error_taxonomy_includes_execution_error_variants() {
    let required_errors = [
        QueryEngineError::PermissionDenied { target: AuthorizationTarget::new("query-engine", "saved-query", "saved-001") },
        QueryEngineError::ConsistencyBoundaryUnavailable {
            source: source_ref(),
            reason: ConsistencyBoundaryUnavailableReason::TransientlyUnreachable,
        },
        QueryEngineError::SourceUnavailable { source: source_ref(), message: text("offline") },
        QueryEngineError::IncompleteExecution { reason: text("partial") },
        QueryEngineError::ExecutionStrategyUnavailable { reason: text("no strategy") },
        QueryEngineError::AuthorizationProviderUnavailable { message: text("offline") },
        QueryEngineError::SavedQuerySchemaVersionMismatch { reason: text("expected schema version 1, got 2") },
        QueryEngineError::InvalidCursor { reason: text("malformed") },
        QueryEngineError::ExpiredCursor { reason: text("expired") },
    ];

    for required_error in &required_errors {
        assert!(!required_error.to_message().is_empty(), "required execution error variant missing: {required_error:?}");
    }
}

fn text_set(values: &[&str]) -> OrdSet<String> {
    let mut set = OrdSet::new();
    for value in values {
        set.insert(text(value));
    }
    set
}

#[test]
fn well_formed_query_definition_is_accepted() {
    let definition = QueryDefinition::new(
        source_ref(),
        TemporalScope::TimeRange { from: Some(text("2026-07-15T10:00:00Z")), to: Some(text("2026-07-15T11:00:00Z")) },
        Some(TraversalSpec::new(TraversalDirection::Outbound, 2, text_set(&["uses"]))),
        PartialResultPolicy::AllowIncomplete,
        PresentationType::Timeline,
    );
    validate_query_definition(&definition).unwrap();
}

#[test]
fn malformed_query_definition_is_rejected() {
    let definition = QueryDefinition::new(
        source_ref(),
        TemporalScope::Current,
        Some(TraversalSpec::new(TraversalDirection::Both, 1, text_set(&[""]))),
        PartialResultPolicy::RejectPartial,
        PresentationType::LinkedObjectView,
    );
    let error = validate_query_definition(&definition).unwrap_err();
    assert!(matches!(error, QueryEngineError::MalformedQuery { failure: ValidationError::EmptyTraversalRelationType }));
}

#[test]
fn empty_temporal_and_traversal_values_are_rejected() {
    let point = QueryDefinition::new(
        source_ref(),
        TemporalScope::PointInTime { at: String::new() },
        None,
        PartialResultPolicy::RejectPartial,
        PresentationType::RecordSet,
    );
    assert!(matches!(
        validate_query_definition(&point),
        Err(QueryEngineError::MalformedQuery { failure: ValidationError::EmptyTemporalPoint })
    ));
    let traversal = QueryDefinition::new(
        source_ref(),
        TemporalScope::Current,
        Some(TraversalSpec::new(TraversalDirection::Inbound, 0, OrdSet::new())),
        PartialResultPolicy::RejectPartial,
        PresentationType::RecordSet,
    );
    assert!(matches!(
        validate_query_definition(&traversal),
        Err(QueryEngineError::MalformedQuery { failure: ValidationError::EmptyTraversalDepth })
    ));
}

#[test]
fn invalid_temporal_range_is_rejected() {
    let definition = QueryDefinition::new(
        source_ref(),
        TemporalScope::TimeRange { from: Some(text("2026-07-15T12:00:00Z")), to: Some(text("2026-07-15T11:00:00Z")) },
        None,
        PartialResultPolicy::RejectPartial,
        PresentationType::RecordSet,
    );
    assert!(matches!(
        validate_query_definition(&definition),
        Err(QueryEngineError::MalformedQuery { failure: ValidationError::InvalidTemporalRange })
    ));
}

#[test]
fn empty_query_source_is_rejected() {
    let definition = QueryDefinition::new(
        QuerySourceRef::new(""),
        TemporalScope::Current,
        None,
        PartialResultPolicy::RejectPartial,
        PresentationType::RecordSet,
    );
    assert!(matches!(
        validate_query_definition(&definition),
        Err(QueryEngineError::MalformedQuery { failure: ValidationError::EmptyQuerySource })
    ));
}

#[test]
fn source_capabilities_accept_supported_query() {
    let provider = SyntheticSource::new(SourceCapabilities::all());
    let definition = query()
        .with_predicate(Predicate::Exists { field: text("status") })
        .with_projection(Projection::SelectedFields(text_set(&["status"])))
        .with_sort(vec![SortSpec::new("created_at", SortDirection::Ascending)]);
    validate_query_source_contract(&provider, &definition).unwrap();
}

#[test]
fn contract_validation_accepts_full_slices_without_data_access() {
    let provider = SyntheticSource::new(SourceCapabilities::all());
    let definition = query()
        .with_predicate(Predicate::Or(vec![
            Predicate::Exists { field: text("status") },
            Predicate::Range { field: text("score"), lower: Some(number(1.0)), upper: Some(number(9.0)) },
        ]))
        .with_projection(Projection::SelectedFields(text_set(&["status", "score"])))
        .with_sort(vec![SortSpec::new("created_at", SortDirection::Ascending)])
        .with_group(GroupSpec::new(text_set(&["status"])))
        .with_aggregations(vec![AggregationSpec::new(AggregationFunction::Count, None, "row_count")])
        .with_execution_limits(ExecutionLimits::new(Some(100), Some(1_000), None).unwrap());
    validate_query_source_contract(&provider, &definition).unwrap();
}

#[test]
fn canonical_query_semantics_are_independent_of_set_insertion_order() {
    let mut first_projection = OrdSet::new();
    first_projection.insert(text("score"));
    first_projection.insert(text("status"));
    let mut second_projection = OrdSet::new();
    second_projection.insert(text("status"));
    second_projection.insert(text("score"));
    let first = query().with_projection(Projection::SelectedFields(first_projection));
    let second = query().with_projection(Projection::SelectedFields(second_projection));
    assert!(semantic_query_equal(&first, &second));
    assert_eq!(canonical_query_bytes(&first), canonical_query_bytes(&second));
}

#[test]
fn canonical_query_semantics_detect_real_structural_difference() {
    let first = query().with_predicate(Predicate::Exists { field: text("status") });
    let second = query().with_predicate(Predicate::Exists { field: text("score") });
    assert!(!semantic_query_equal(&first, &second));
}

struct SyntheticRecordFixture {
    stable_key: StableOrderingKey,
    semantic_fields: OrdMap<String, PropertyValue>,
    execution_token: String,
    observed_at: String,
}

fn semantic_fields() -> OrdMap<String, PropertyValue> {
    let mut fields = OrdMap::new();
    fields.insert(text("score"), number(5.0));
    fields.insert(text("owner"), PropertyValue::Reference(ObjectId::new("object-001")));
    fields
}

#[test]
fn canonical_semantic_record_excludes_operational_fields() {
    let first = SyntheticRecordFixture {
        stable_key: StableOrderingKey::new(vec![text("record-001")]),
        semantic_fields: semantic_fields(),
        execution_token: text("run-001"),
        observed_at: text("2026-07-15T10:00:00Z"),
    };
    let second = SyntheticRecordFixture {
        stable_key: StableOrderingKey::new(vec![text("record-001")]),
        semantic_fields: semantic_fields(),
        execution_token: text("run-002"),
        observed_at: text("2026-07-15T11:00:00Z"),
    };
    assert_ne!(first.execution_token, second.execution_token);
    assert_ne!(first.observed_at, second.observed_at);
    assert_eq!(
        canonical_semantic_record_bytes(&first.stable_key, &first.semantic_fields),
        canonical_semantic_record_bytes(&second.stable_key, &second.semantic_fields)
    );
}

#[test]
fn identical_query_boundary_and_authorization_produce_identical_result_bytes() {
    let source = SyntheticSource::new(SourceCapabilities::all()).with_records(vec![record("record-001", "active", 5.0)]);
    let definition = query();
    let first_request =
        QueryExecutionRequest::new(definition.clone(), CallerPermissionContext::new("caller-context"), QueryResultId::new("result-001"));
    let second_request =
        QueryExecutionRequest::new(definition, CallerPermissionContext::new("caller-context"), QueryResultId::new("result-001"));
    let first = QueryEngine::new().execute_one_shot(&source, &SyntheticAuthorization::default(), first_request, &FloatNumbers).unwrap();
    let second =
        QueryEngine::new().execute_one_shot(&source, &SyntheticAuthorization::default(), second_request, &FloatNumbers).unwrap();
    assert_eq!(format!("{first:?}"), format!("{second:?}"));
    assert_eq!(canonical_query_result_bytes(&first), canonical_query_result_bytes(&second));
}

#[test]
fn canonical_bytes_are_length_prefixed_tokens() {
    let bytes = canonical_query_bytes(&query());
    let rendered = String::from_utf8(bytes).unwrap();
    assert!(rendered.starts_with("5:query;16:synthetic-source;8:temporal;7:current;9:predicate;4:none;"));
    assert!(rendered.ends_with("14:reject-partial;10:record-set;"));
    let key = StableOrderingKey::new(vec![text("a")]);
    let record_bytes = canonical_semantic_record_bytes(&key, &OrdMap::new());
    assert_eq!(String::from_utf8(record_bytes).unwrap(), "15:semantic-record;19:stable-ordering-key;1:1;1:a;");
}

#[test]
fn cancellation_state_is_one_shot_and_clone_visible() {
    let cancellation = CancellationState::new();
    let clone = cancellation.clone();

    cancellation.check_cancelled().unwrap();
    clone.request_cancel();

    assert!(cancellation.is_cancelled());
    assert!(clone.is_cancelled());
    assert!(matches!(cancellation.check_cancelled(), Err(QueryEngineError::Cancelled)));
}

#[test]
fn select_and_list_keeps_only_allowed_records_in_sort_order() {
    let candidates = vec![record("record-001", "active", 5.0), record("record-002", "active", 7.0), record("record-003", "active", 1.0)];
    let allowed = vec![true, false, true];
    let items =
        open_eqms::query_engine::select_and_list(&query(), &schema(), &candidates, &allowed, &FloatNumbers).unwrap();
    let ids = items.iter().map(|item| first_record_id(&item.provenance.source_record_ids)).collect::<Vec<_>>();
    assert_eq!(ids, vec!["record-001".to_owned(), "record-003".to_owned()]);
}

#[test]
fn select_and_list_reports_exceeded_step_limit() {
    let limits = ExecutionLimits::new(None, Some(1), None).unwrap();
    let definition = query().with_execution_limits(limits);
    let candidates = vec![record("record-001", "active", 5.0), record("record-002", "active", 7.0)];
    let outcome =
        open_eqms::query_engine::select_and_list(&definition, &schema(), &candidates, &vec![true, true], &FloatNumbers);
    assert!(matches!(outcome, Err(QueryEngineError::ExecutionLimitExceeded { .. })));
    let one_allowed =
        open_eqms::query_engine::select_and_list(&definition, &schema(), &candidates, &vec![false, true], &FloatNumbers)
            .unwrap();
    assert_eq!(one_allowed.len(), 1);
}

#[test]
fn assembled_result_carries_the_source_boundary() {
    let candidates = vec![record("record-001", "active", 5.0)];
    let result = open_eqms::query_engine::assemble_result(
        request(query(), "result-assembled"),
        boundary(),
        &schema(),
        &candidates,
        &vec![true],
        &FloatNumbers,
    )
    .unwrap();
    assert_eq!(format!("{:?}", result.consistency_boundary), format!("{:?}", boundary()));
    assert_eq!(result.items.len(), 1);
}
