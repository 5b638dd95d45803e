//! The Query Engine: the source and catalog contracts it consumes, the checks
//! it makes of a source, and the finite one-shot executor with saved-query
//! registration and replay and bounded context packages.
use vstd::prelude::*;
use crate::contracts::{
    reason_token, AuthorizationDecision, AuthorizationEffect, AuthorizationProvider, AuthorizationRequest,
    AuthorizationRequestView, CallerPermissionContext, ConsistencyBoundary, ConsistencyBoundaryUnavailableView,
    ConsistencySlot, PermissionAction, SlotView, StableConsistencyMarker, Version, slot_view,
};
use crate::query_aggregation::{aggregate_outcome_ok, aggregate_records, bucket_map, NumberAggregator};
use crate::query_errors::{QueryEngineError, QueryEngineErrorView};
use crate::query_execution::{predicate_holds, predicate_matches, order_records, record_order, record_views};
use crate::query_limits::{ensure_evaluation_steps_within_limit, ensure_result_count_within_limit, CancellationState};
use crate::query_results::{item_views, record_item, records_to_items};
use crate::query_types::{
    PartialResultPolicy, Predicate, QueryCompleteness, QueryDefinition, QueryDefinitionView, QueryExecutionRequest,
    QueryRecord, QueryRecordView, QueryResult, QuerySchema, QuerySourceRef, SourceCapabilities, SourceCapability,
    TemporalScopeView, record_target,
};
use crate::query_types::{
    saved_query_authorization_target, saved_query_target, ContextPackage, ContextPackageRequest, SavedQueryDefinition,
    SavedQueryExecutionRequest, SavedQueryId,
};
use crate::query_limits::ExecutionLimitKind;
use crate::query_validation::{
    context_package_failure, saved_query_failure, validate_context_package_request, validate_saved_query_definition,
    execution_request_failure, query_failure, validate_query_definition, validate_query_definition_against_schema,
    validate_query_execution_request, validate_query_record_against_schema,
};
use crate::security::{security_error_message, SecurityError};

verus! {

/// An error value that can be rendered as a message.
pub trait ErrorMessage {
    /// The message describing the error.
    fn error_message(&self) -> String;
}

impl ErrorMessage for String {
    fn error_message(&self) -> (r: String)
        ensures
            r@ == self@,
    {
        self.clone()
    }
}

impl ErrorMessage for SecurityError {
    fn error_message(&self) -> (r: String)
        ensures
            r@ == security_error_message(*self),
    {
        self.to_message()
    }
}

/// Capability-only contract for a source that a query can be checked against.
pub trait QuerySourceProvider {
    /// Stable source reference represented by this provider.
    fn source_ref(&self) -> &QuerySourceRef;

    /// Declared query capabilities for this source.
    fn capabilities(&self) -> SourceCapabilities;

    /// Declared field schema for structural validation.
    fn describe_schema(&self) -> Result<QuerySchema, QueryEngineError>;
}

/// Read-only executable source contract consumed by the executor.
pub trait ExecutableQuerySourceProvider: QuerySourceProvider {
    /// Returns the consistency boundary this source can provide for the execution.
    fn consistency_boundary(&self) -> Result<ConsistencyBoundary, QueryEngineError>;

    /// Reads a bounded finite set of candidate records from this source,
    /// without changing authoritative Runtime state.
    fn read_records(&self, cancellation: &CancellationState) -> Result<Vec<QueryRecord>, QueryEngineError>;
}

/// The first capability a query uses that the source lacks, in the order
/// temporal scope, traversal, predicate, projection, sorting, grouping,
/// aggregation.
pub open spec fn capability_failure(caps: SourceCapabilities, q: QueryDefinitionView) -> Option<SourceCapability> {
    if !caps.temporal_scope && !(q.temporal_scope is Current) {
        Some(SourceCapability::TemporalScope)
    } else if !caps.traversal && q.traversal is Some {
        Some(SourceCapability::Traversal)
    } else if !caps.predicates && q.predicate is Some {
        Some(SourceCapability::Predicate)
    } else if !caps.projection && q.projection is Some {
        Some(SourceCapability::Projection)
    } else if !caps.sorting && q.sort.len() > 0 {
        Some(SourceCapability::Sorting)
    } else if !caps.grouping && q.group is Some {
        Some(SourceCapability::Grouping)
    } else if !caps.aggregation && q.aggregations.len() > 0 {
        Some(SourceCapability::Aggregation)
    } else {
        None
    }
}

/// Fails with the first capability the query uses that the source lacks.
pub fn ensure_capability_support(source: &QuerySourceRef, capabilities: SourceCapabilities, query: &QueryDefinition) -> (r:
    Result<(), QueryEngineError>)
    ensures
        r is Ok <==> capability_failure(capabilities, query@) is None,
        r matches Err(e) ==> e@ == (QueryEngineErrorView::UnsupportedCapability {
            source: source@,
            capability: capability_failure(capabilities, query@).unwrap(),
        }),
{
    let current = match &query.temporal_scope {
        crate::query_types::TemporalScope::Current => true,
        _ => false,
    };
    let selected = match &query.projection {
        crate::query_types::Projection::SelectedFields(_) => true,
        _ => false,
    };
    let failure = if !capabilities.temporal_scope && !current {
        Some(SourceCapability::TemporalScope)
    } else if !capabilities.traversal && query.traversal.is_some() {
        Some(SourceCapability::Traversal)
    } else if !capabilities.predicates && query.predicate.is_some() {
        Some(SourceCapability::Predicate)
    } else if !capabilities.projection && selected {
        Some(SourceCapability::Projection)
    } else if !capabilities.sorting && query.sort.len() > 0 {
        Some(SourceCapability::Sorting)
    } else if !capabilities.grouping && query.group.is_some() {
        Some(SourceCapability::Grouping)
    } else if !capabilities.aggregation && query.aggregations.len() > 0 {
        Some(SourceCapability::Aggregation)
    } else {
        None
    };
    match failure {
        Some(capability) => Err(QueryEngineError::UnsupportedCapability { source: source.clone(), capability }),
        None => Ok(()),
    }
}

/// Checks that a query is structurally valid and supported by the provider's
/// source, capabilities and schema.
///
/// The source reference, capabilities and schema come from the provider, so
/// which of the later checks fails is decided by what it reports.
pub fn validate_query_source_contract<P: QuerySourceProvider>(provider: &P, query: &QueryDefinition) -> (r: Result<
    (),
    QueryEngineError,
>)
    ensures
        query_failure(*query) is Some ==> r == Err::<(), QueryEngineError>(
            QueryEngineError::MalformedQuery { failure: query_failure(*query).unwrap() },
        ),
        r is Ok ==> query_failure(*query) is None,
{
    validate_query_definition(query)?;
    let source = provider.source_ref();
    if source.as_str() != query.source.as_str() {
        return Err(QueryEngineError::UnknownSource { source: query.source.clone() });
    }
    ensure_capability_support(source, provider.capabilities(), query)?;
    let schema = provider.describe_schema()?;
    validate_query_definition_against_schema(query, &schema)
}

/// The first unavailable slot of a boundary, in component order.
pub open spec fn first_unavailable(b: crate::contracts::ConsistencyBoundaryView) -> Option<ConsistencyBoundaryUnavailableView> {
    if b.object_runtime is Unavailable {
        Some(b.object_runtime->Unavailable_0)
    } else if b.event_engine is Unavailable {
        Some(b.event_engine->Unavailable_0)
    } else if b.transaction_engine is Unavailable {
        Some(b.transaction_engine->Unavailable_0)
    } else if b.computed_value_source is Unavailable {
        Some(b.computed_value_source->Unavailable_0)
    } else if b.concept_mapping is Unavailable {
        Some(b.concept_mapping->Unavailable_0)
    } else if b.query_definition is Unavailable {
        Some(b.query_definition->Unavailable_0)
    } else {
        None
    }
}

/// The reason a result is incomplete, or none for a complete result.
pub open spec fn incompleteness(c: QueryCompleteness) -> Option<Seq<char>> {
    match c {
        QueryCompleteness::Complete => None,
        QueryCompleteness::Incomplete { reason } => Some(reason@),
    }
}

/// The completeness a boundary gives a query: complete without an
/// unavailable slot; else rejected under `RejectPartial`, or incomplete with
/// the first unavailable slot's reason token.
pub open spec fn completeness_ok(
    q: QueryDefinition,
    b: crate::contracts::ConsistencyBoundaryView,
    r: Result<QueryCompleteness, QueryEngineError>,
) -> bool {
    match first_unavailable(b) {
        None => r matches Ok(c) && incompleteness(c) is None,
        Some(u) => if q.partial_result_policy == PartialResultPolicy::RejectPartial {
            r matches Err(e) && e@ == (QueryEngineErrorView::ConsistencyBoundaryUnavailable {
                source: q.source@,
                reason: u.reason,
            })
        } else {
            r matches Ok(c) && incompleteness(c) == Some(reason_token(u.reason))
        },
    }
}

fn slot_unavailable(slot: &ConsistencySlot<StableConsistencyMarker>) -> (r: Option<
    crate::contracts::ConsistencyBoundaryUnavailableReason,
>)
    ensures
        r is Some <==> slot_view(*slot) is Unavailable,
        r matches Some(x) ==> x == slot_view(*slot)->Unavailable_0.reason,
{
    match slot {
        ConsistencySlot::Unavailable(u) => Some(u.reason()),
        _ => None,
    }
}

/// Decides the completeness of a result from the source's consistency boundary.
pub fn boundary_completeness(query: &QueryDefinition, boundary: &ConsistencyBoundary) -> (r: Result<
    QueryCompleteness,
    QueryEngineError,
>)
    ensures
        completeness_ok(*query, boundary@, r),
{
    let reason = match slot_unavailable(boundary.object_runtime()) {
        Some(x) => Some(x),
        None => match slot_unavailable(boundary.event_engine()) {
            Some(x) => Some(x),
            None => match slot_unavailable(boundary.transaction_engine()) {
                Some(x) => Some(x),
                None => match slot_unavailable(boundary.computed_value_source()) {
                    Some(x) => Some(x),
                    None => match slot_unavailable(boundary.concept_mapping()) {
                        Some(x) => Some(x),
                        None => slot_unavailable(boundary.query_definition()),
                    },
                },
            },
        },
    };
    match reason {
        None => Ok(QueryCompleteness::Complete),
        Some(reason) => match query.partial_result_policy {
            PartialResultPolicy::RejectPartial => Err(
                QueryEngineError::ConsistencyBoundaryUnavailable { source: query.source.clone(), reason },
            ),
            PartialResultPolicy::AllowIncomplete => Ok(
                QueryCompleteness::Incomplete { reason: String::from_str(reason.canonical_token()) },
            ),
        },
    }
}

/// The request that asks whether a caller may read a record.
pub open spec fn read_request(caller: Seq<char>, r: QueryRecordView) -> AuthorizationRequestView {
    AuthorizationRequestView { context: caller, action: "query.read-record"@, target: record_target(r) }
}

/// Returns the request that asks whether the caller may read a record.
pub fn record_read_request(caller: &CallerPermissionContext, record: &QueryRecord) -> (r: AuthorizationRequest)
    ensures
        r@ == read_request(caller@, record@),
{
    AuthorizationRequest::new(caller.clone(), PermissionAction::new("query.read-record"), record.authorization_target())
}

/// Turns an authorization outcome into read access: allowed only on `Allow`;
/// a provider failure becomes `AuthorizationProviderUnavailable`.
pub fn record_access(outcome: Result<AuthorizationDecision, String>) -> (r: Result<bool, QueryEngineError>)
    ensures
        match outcome {
            Ok(d) => r == Ok::<bool, QueryEngineError>(d@.effect == AuthorizationEffect::Allow),
            Err(m) => r matches Err(e) && e@ == (QueryEngineErrorView::AuthorizationProviderUnavailable { message: m@ }),
        },
{
    match outcome {
        Ok(decision) => Ok(match decision.effect() {
            AuthorizationEffect::Allow => true,
            _ => false,
        }),
        Err(message) => Err(QueryEngineError::AuthorizationProviderUnavailable { message }),
    }
}

/// The authorization provider may answer the request to read `record` for
/// `caller` with a decision whose effect is `Allow` exactly when `allowed`.
pub open spec fn read_decided<A: AuthorizationProvider>(
    provider: &A,
    caller: CallerPermissionContext,
    record: QueryRecord,
    allowed: bool,
) -> bool {
    exists|request: AuthorizationRequest, d: AuthorizationDecision|
        #![trigger call_ensures(A::decide, (provider, &request), Ok::<AuthorizationDecision, A::Error>(d))]
        request@ == read_request(caller@, record@) && call_ensures(
            A::decide,
            (provider, &request),
            Ok::<AuthorizationDecision, A::Error>(d),
        ) && (d@.effect == AuthorizationEffect::Allow) == allowed
}

/// The authorization provider may fail the request to read `record` for
/// `caller` with an error described by `message`.
pub open spec fn read_refused<A: AuthorizationProvider>(
    provider: &A,
    caller: CallerPermissionContext,
    record: QueryRecord,
    message: Seq<char>,
) -> bool where A::Error: ErrorMessage {
    exists|request: AuthorizationRequest, error: A::Error, text: String|
        #![trigger call_ensures(A::decide, (provider, &request), Err::<AuthorizationDecision, A::Error>(error)), call_ensures(A::Error::error_message, (&error,), text)]
        request@ == read_request(caller@, record@) && call_ensures(
            A::decide,
            (provider, &request),
            Err::<AuthorizationDecision, A::Error>(error),
        ) && call_ensures(A::Error::error_message, (&error,), text) && text@ == message
}

/// Asks the authorization provider whether the caller may read a record:
/// granted exactly on an `Allow` decision; a provider failure becomes
/// `AuthorizationProviderUnavailable` with the failure's message.
fn authorize_record<A: AuthorizationProvider>(authorization_provider: &A, caller: &CallerPermissionContext, record: &QueryRecord) -> (r:
    Result<bool, QueryEngineError>) where A::Error: ErrorMessage
    ensures
        r matches Ok(b) ==> read_decided(authorization_provider, *caller, *record, b),
        r matches Err(e) ==> (e is AuthorizationProviderUnavailable && read_refused(
            authorization_provider,
            *caller,
            *record,
            e->AuthorizationProviderUnavailable_message@,
        )),
{
    let request = record_read_request(caller, record);
    let decide = A::decide;
    let answer = decide(authorization_provider, &request);
    let outcome = match answer {
        Ok(decision) => Ok(decision),
        Err(error) => {
            let describe = A::Error::error_message;
            let text = describe(&error);
            Err(text)
        },
    };
    record_access(outcome)
}

/// A record passes a query's optional predicate.
pub open spec fn matches_predicate(p: Option<Predicate>, fields: Map<Seq<char>, crate::contracts::PropertyValueView>) -> bool {
    match p {
        Some(x) => predicate_holds(x, fields),
        None => true,
    }
}

/// A record is from the query's source and passes its predicate.
#[verifier::opaque]
pub open spec fn admitted(query: QueryDefinition, r: QueryRecordView) -> bool {
    matches_predicate(query.predicate, r.fields) && r.source == query.source@
}

/// The records among `candidates` whose read was allowed and that pass the
/// query's predicate, in their original order.
pub open spec fn selected(candidates: Seq<QueryRecordView>, allowed: Seq<bool>, query: QueryDefinition) -> Seq<
    QueryRecordView,
>
    decreases candidates.len(),
{
    if candidates.len() == 0 {
        Seq::empty()
    } else {
        let earlier = selected(candidates.drop_last(), allowed.drop_last(), query);
        if allowed.last() && matches_predicate(query.predicate, candidates.last().fields) {
            earlier.push(candidates.last())
        } else {
            earlier
        }
    }
}

/// The candidates all belong to the query's source and fit its schema, and
/// `kept` holds those whose read was allowed (`allowed`, one answer per
/// candidate) and that pass the predicate, in order.
pub open spec fn admission(
    query: QueryDefinition,
    schema: QuerySchema,
    candidates: Seq<QueryRecord>,
    allowed: Seq<bool>,
    kept: Seq<QueryRecordView>,
) -> bool {
    &&& allowed.len() == candidates.len()
    &&& forall|k: int| 0 <= k < candidates.len() ==> crate::query_validation::record_failure(query.source@, schema.fields.as_map(), #[trigger] candidates[k]) is None
    &&& kept == selected(record_views(candidates), allowed, query)
}

/// The items of a non-aggregating result: the records of `input`, stably
/// sorted under the query's sort keys, each turned into an item.
pub open spec fn listed_records_ok(query: QueryDefinition, input: Seq<QueryRecordView>, items: Seq<crate::query_types::QueryResultItem>) -> bool {
    exists|sorted: Seq<QueryRecordView>|
        #![trigger crate::query_execution::is_stable_sort(input, sorted, crate::query_execution::record_ordering(crate::query_types::seq_view(query.sort@)))]
        crate::query_execution::is_stable_sort(input, sorted, crate::query_execution::record_ordering(crate::query_types::seq_view(query.sort@)))
            && item_views(items) == sorted.map_values(|x: QueryRecordView| record_item(query@, x))
}

/// The items of an aggregating result: the records of `input`, stably sorted
/// under the query's sort keys, grouped, one computed item per group in
/// ascending order of group key.
pub open spec fn aggregated_records_ok(query: QueryDefinition, input: Seq<QueryRecordView>, items: Vec<crate::query_types::QueryResultItem>) -> bool {
    exists|sorted: Seq<QueryRecordView>, keys: Seq<Seq<char>>|
        #![trigger crate::query_execution::is_stable_sort(input, sorted, crate::query_execution::record_ordering(crate::query_types::seq_view(query.sort@))), aggregate_outcome_ok(query@, sorted, bucket_map(query@, sorted), keys, Ok::<Vec<crate::query_types::QueryResultItem>, QueryEngineError>(items))]
        {
            &&& crate::query_execution::is_stable_sort(input, sorted, crate::query_execution::record_ordering(crate::query_types::seq_view(query.sort@)))
            &&& crate::collections::strictly_sorted::<String>(keys)
            &&& keys.to_set() == bucket_map(query@, sorted).dom()
            &&& aggregate_outcome_ok(query@, sorted, bucket_map(query@, sorted), keys, Ok::<Vec<crate::query_types::QueryResultItem>, QueryEngineError>(items))
        }
}

/// The items of an aggregating result come from the records the source gave
/// and the authorization answers for them: the allowed records that pass the
/// predicate, sorted, grouped and aggregated.
pub open spec fn aggregation_ok(query: QueryDefinition, schema: QuerySchema, candidates: Seq<QueryRecord>, allowed: Seq<bool>, items: Vec<crate::query_types::QueryResultItem>) -> bool {
    &&& admission(query, schema, candidates, allowed, selected(record_views(candidates), allowed, query))
    &&& aggregated_records_ok(query, selected(record_views(candidates), allowed, query), items)
}

/// The items of a non-aggregating result come from the records the source
/// gave and the authorization answers for them: the allowed records that
/// pass the predicate, stably sorted, each turned into an item.
pub open spec fn listing_ok(query: QueryDefinition, schema: QuerySchema, candidates: Seq<QueryRecord>, allowed: Seq<bool>, items: Seq<crate::query_types::QueryResultItem>) -> bool {
    &&& admission(query, schema, candidates, allowed, selected(record_views(candidates), allowed, query))
    &&& listed_records_ok(query, selected(record_views(candidates), allowed, query), items)
}

/// What every result of an execution request satisfies: the caller's result
/// identity, the first version, the executed query and its presentation, at
/// most the result-count limit of items, the completeness its boundary gives,
/// and for a non-aggregating query the items of the allowed records of the
/// source that pass the predicate, in sort order.
pub open spec fn result_ok(request: QueryExecutionRequest, res: QueryResult) -> bool {
    &&& res.id@ == request.result_id@
    &&& res.version@ == 1
    &&& res.query_definition@ == request.query@
    &&& res.presentation_type == request.query.presentation_type
    &&& (request.query.execution_limits.max_result_count matches Some(m) ==> res.items@.len() <= m)
    &&& completeness_ok(request.query, res.consistency_boundary@, Ok(res.completeness))
    &&& (request.query.aggregations@.len() == 0 ==> exists|schema: QuerySchema, candidates: Seq<QueryRecord>, allowed: Seq<bool>|
        #[trigger] listing_ok(request.query, schema, candidates, allowed, res.items@))
    &&& (request.query.aggregations@.len() > 0 ==> exists|schema: QuerySchema, candidates: Seq<QueryRecord>, allowed: Seq<bool>|
        #[trigger] aggregation_ok(request.query, schema, candidates, allowed, res.items))
}


/// The outcome of admitting `candidates` in order, given for each whether its
/// read was allowed: each candidate must fit the query's source and schema
/// (else `InvalidSourceRecord` for the first that does not); each allowed
/// candidate counts one evaluation step (exceeding the step limit fails) and
/// is kept when it passes the predicate. On success: the kept records and the
/// steps counted.
pub open spec fn admission_outcome(
    query: QueryDefinition,
    schema: QuerySchema,
    candidates: Seq<QueryRecord>,
    allowed: Seq<bool>,
) -> Result<(Seq<QueryRecordView>, nat), QueryEngineErrorView>
    decreases candidates.len(),
{
    if candidates.len() == 0 {
        Ok((Seq::empty(), 0))
    } else {
        match admission_outcome(query, schema, candidates.drop_last(), allowed.drop_last()) {
            Err(e) => Err(e),
            Ok((kept, steps)) => {
                let rec = candidates.last();
                let failure = crate::query_validation::record_failure(query.source@, schema.fields.as_map(), rec);
                if failure is Some {
                    Err(
                        QueryEngineErrorView::InvalidSourceRecord {
                            source: rec.source@,
                            record_id: rec.record_id@,
                            reason: failure.unwrap(),
                        },
                    )
                } else if allowed.last() {
                    if query.execution_limits.max_evaluation_steps matches Some(m) && steps + 1 > m {
                        Err(QueryEngineErrorView::ExecutionLimitExceeded { limit: ExecutionLimitKind::EvaluationSteps })
                    } else if matches_predicate(query.predicate, rec@.fields) {
                        Ok((kept.push(rec@), steps + 1))
                    } else {
                        Ok((kept, steps + 1))
                    }
                } else {
                    Ok((kept, steps))
                }
            },
        }
    }
}

/// A successful admission is one where every candidate fits the schema and
/// the kept records are the allowed ones that pass the predicate.
pub proof fn lemma_admission_outcome(
    query: QueryDefinition,
    schema: QuerySchema,
    candidates: Seq<QueryRecord>,
    allowed: Seq<bool>,
)
    requires
        allowed.len() == candidates.len(),
        admission_outcome(query, schema, candidates, allowed) is Ok,
    ensures
        admission(query, schema, candidates, allowed, admission_outcome(query, schema, candidates, allowed)->Ok_0.0),
        forall|k: int| 0 <= k < admission_outcome(query, schema, candidates, allowed)->Ok_0.0.len() ==> #[trigger] admitted(
            query,
            admission_outcome(query, schema, candidates, allowed)->Ok_0.0[k],
        ),
    decreases candidates.len(),
{
    reveal(admitted);
    if candidates.len() > 0 {
        lemma_admission_outcome(query, schema, candidates.drop_last(), allowed.drop_last());
        assert(record_views(candidates).drop_last() =~= record_views(candidates.drop_last()));
        assert forall|k: int| 0 <= k < candidates.len() implies crate::query_validation::record_failure(
            query.source@,
            schema.fields.as_map(),
            #[trigger] candidates[k],
        ) is None by {
            if k < candidates.len() - 1 {
                assert(candidates[k] == candidates.drop_last()[k]);
            }
        }
    } else {
        assert(record_views(candidates) =~= Seq::<QueryRecordView>::empty());
    }
}

/// Validates and authorizes candidate records in order, stopping at the first
/// cancellation, invalid record, authorization failure or exceeded step
/// limit; returns, for each candidate, whether its read was allowed.
fn admit_candidates<A: AuthorizationProvider>(
    authorization_provider: &A,
    request: &QueryExecutionRequest,
    schema: &QuerySchema,
    candidates: &Vec<QueryRecord>,
    cancellation: &CancellationState,
) -> (r: Result<Vec<bool>, QueryEngineError>) where A::Error: ErrorMessage
    ensures
        candidates@.len() == 0 ==> (r matches Ok(allowed) && allowed@.len() == 0),
        r matches Ok(allowed) ==> allowed@.len() == candidates@.len() && admission_outcome(
            request.query,
            *schema,
            candidates@,
            allowed@,
        ) is Ok,
        r matches Ok(allowed) ==> forall|k: int|
            0 <= k < allowed@.len() ==> #[trigger] read_decided(
                authorization_provider,
                request.caller_context,
                candidates@[k],
                allowed@[k],
            ),
        r matches Err(e) ==> match e {
            QueryEngineError::Cancelled => true,
            QueryEngineError::AuthorizationProviderUnavailable { .. } => true,
            _ => exists|allowed: Seq<bool>, k: int|
                #![trigger admission_outcome(request.query, *schema, candidates@.take(k), allowed)]
                0 <= k <= candidates@.len() && allowed.len() == k && admission_outcome(
                    request.query,
                    *schema,
                    candidates@.take(k),
                    allowed,
                ) == Err::<(Seq<QueryRecordView>, nat), QueryEngineErrorView>(e@),
        },
{
    let ghost q = request.query;
    let mut allowed: Vec<bool> = Vec::new();
    let mut steps: u64 = 0;
    let n = candidates.len();
    let mut i: usize = 0;
    proof {
        assert(candidates@.take(0) =~= Seq::<QueryRecord>::empty());
    }
    while i < n
        invariant
            n == candidates@.len(),
            q == request.query,
            i <= n,
            steps <= i,
            allowed@.len() == i,
            admission_outcome(q, *schema, candidates@.take(i as int), allowed@) matches Ok((kept, s)) && s == steps,
            forall|k: int|
                0 <= k < i ==> #[trigger] read_decided(
                    authorization_provider,
                    request.caller_context,
                    candidates@[k],
                    allowed@[k],
                ),
        decreases n - i,
    {
        cancellation.check_cancelled()?;
        let record = &candidates[i];
        proof {
            assert(candidates@.take(i + 1).drop_last() =~= candidates@.take(i as int));
            assert(candidates@.take(i + 1).last() == *record);
        }
        match validate_query_record_against_schema(&request.query.source, schema, record) {
            Ok(()) => {},
            Err(e) => {
                proof {
                    let al = allowed@.push(false);
                    assert(al.drop_last() =~= allowed@);
                    assert(admission_outcome(q, *schema, candidates@.take(i + 1), al) == Err::<
                        (Seq<QueryRecordView>, nat),
                        QueryEngineErrorView,
                    >(e@));
                }
                return Err(e);
            },
        }
        let a = authorize_record(authorization_provider, &request.caller_context, record)?;
        let ghost before = allowed@;
        allowed.push(a);
        proof {
            assert(allowed@.drop_last() =~= before);
        }
        if a {
            steps = steps + 1;
            match ensure_evaluation_steps_within_limit(&request.query.execution_limits, steps) {
                Ok(()) => {},
                Err(e) => {
                    return Err(e);
                },
            }
        }
        i = i + 1;
    }
    proof {
        assert(candidates@.take(n as int) =~= candidates@);
    }
    Ok(allowed)
}

/// Admits candidate records given whether each one's read was allowed, then
/// sorts and projects the kept records, or groups and aggregates them.
pub fn select_and_list<N: NumberAggregator>(
    query: &QueryDefinition,
    schema: &QuerySchema,
    candidates: &Vec<QueryRecord>,
    allowed: &Vec<bool>,
    numbers: &N,
) -> (r: Result<Vec<crate::query_types::QueryResultItem>, QueryEngineError>)
    requires
        allowed@.len() == candidates@.len(),
    ensures
        match admission_outcome(*query, *schema, candidates@, allowed@) {
            Err(e) => r matches Err(x) && x@ == e,
            Ok((kept, _)) => {
                &&& query.aggregations@.len() == 0 ==> (r matches Ok(items) && listed_records_ok(*query, kept, items@))
                &&& query.aggregations@.len() > 0 ==> (r matches Ok(items) ==> aggregated_records_ok(*query, kept, items))
            },
        },
{
    let mut kept: Vec<QueryRecord> = Vec::new();
    let mut steps: u64 = 0;
    let n = candidates.len();
    let mut i: usize = 0;
    proof {
        assert(candidates@.take(0) =~= Seq::<QueryRecord>::empty());
        assert(allowed@.take(0) =~= Seq::<bool>::empty());
        assert(record_views(kept@) =~= Seq::<QueryRecordView>::empty());
    }
    while i < n
        invariant
            n == candidates@.len(),
            n == allowed@.len(),
            i <= n,
            steps <= i,
            admission_outcome(*query, *schema, candidates@.take(i as int), allowed@.take(i as int)) matches Ok((k, s))
                && s == steps && k == record_views(kept@),
        decreases n - i,
    {
        let record = &candidates[i];
        proof {
            assert(candidates@.take(i + 1).drop_last() =~= candidates@.take(i as int));
            assert(allowed@.take(i + 1).drop_last() =~= allowed@.take(i as int));
            assert(candidates@.take(i + 1).last() == *record);
            assert(allowed@.take(i + 1).last() == allowed@[i as int]);
            if admission_outcome(*query, *schema, candidates@.take(i + 1), allowed@.take(i + 1)) is Err {
                lemma_outcome_stops(*query, *schema, candidates@, allowed@, i as int + 1);
            }
        }
        match validate_query_record_against_schema(&query.source, schema, record) {
            Ok(()) => {},
            Err(e) => {
                return Err(e);
            },
        }
        if allowed[i] {
            steps = steps + 1;
            match ensure_evaluation_steps_within_limit(&query.execution_limits, steps) {
                Ok(()) => {},
                Err(e) => {
                    return Err(e);
                },
            }
            let matched = predicate_matches(record, query.predicate.as_ref());
            let hit = match matched {
                Ok(b) => b,
                Err(e) => {
                    return Err(e);
                },
            };
            if hit {
                let ghost before = record_views(kept@);
                kept.push(record.clone());
                proof {
                    assert(record_views(kept@) =~= before.push(record@));
                }
            }
        }
        i = i + 1;
    }
    proof {
        assert(candidates@.take(n as int) =~= candidates@);
        assert(allowed@.take(n as int) =~= allowed@);
        lemma_admission_outcome(*query, *schema, candidates@, allowed@);
        assert forall|k: int| 0 <= k < kept@.len() implies #[trigger] admitted(*query, kept@[k]@) by {
            assert(record_views(kept@)[k] == kept@[k]@);
        }
    }
    list_or_aggregate(query, kept, numbers)
}

/// Once admission of a prefix fails, admission of every longer prefix fails
/// with the same error.
proof fn lemma_outcome_stops(
    query: QueryDefinition,
    schema: QuerySchema,
    candidates: Seq<QueryRecord>,
    allowed: Seq<bool>,
    i: int,
)
    requires
        0 <= i <= candidates.len(),
        allowed.len() == candidates.len(),
        admission_outcome(query, schema, candidates.take(i), allowed.take(i)) is Err,
    ensures
        admission_outcome(query, schema, candidates, allowed) == admission_outcome(query, schema, candidates.take(i), allowed.take(i)),
    decreases candidates.len() - i,
{
    if i < candidates.len() {
        assert(candidates.take(i + 1).drop_last() =~= candidates.take(i));
        assert(allowed.take(i + 1).drop_last() =~= allowed.take(i));
        lemma_outcome_stops(query, schema, candidates, allowed, i + 1);
    } else {
        assert(candidates.take(i) =~= candidates);
        assert(allowed.take(i) =~= allowed);
    }
}

proof fn lemma_sorted_admitted(
    q: QueryDefinition,
    before: Seq<QueryRecordView>,
    sorted: Seq<QueryRecordView>,
    ord: spec_fn(QueryRecordView, QueryRecordView) -> crate::text::KeyOrder,
    perm: Seq<int>,
)
    requires
        crate::query_execution::sort_state(before, sorted, ord, perm, before.len() as int),
        forall|k: int| 0 <= k < before.len() ==> #[trigger] admitted(q, before[k]),
    ensures
        forall|k: int| 0 <= k < sorted.len() ==> #[trigger] admitted(q, sorted[k]),
{
    assert forall|k: int| 0 <= k < sorted.len() implies #[trigger] admitted(q, sorted[k]) by {
        assert(sorted[k] == before[perm[k]]);
    }
}

proof fn lemma_sorted_in_order(
    sorted: Seq<QueryRecordView>,
    sv: Seq<(Seq<char>, crate::query_types::SortDirection)>,
    before: Seq<QueryRecordView>,
    perm: Seq<int>,
)
    requires
        crate::query_execution::sort_state(before, sorted, crate::query_execution::record_ordering(sv), perm, before.len() as int),
    ensures
        forall|k: int| 0 <= k < sorted.len() - 1 ==> #[trigger] record_order(sorted[k], sorted[k + 1], sv)
            != crate::text::KeyOrder::Greater,
{
    let ord = crate::query_execution::record_ordering(sv);
    assert forall|k: int| 0 <= k < sorted.len() - 1 implies #[trigger] record_order(sorted[k], sorted[k + 1], sv)
        != crate::text::KeyOrder::Greater by {
        assert(ord(sorted[k], sorted[k + 1]) != crate::text::KeyOrder::Greater);
    }
}

/// Sorts records stably under the query's sort keys and turns each into an item.
pub fn sort_and_list(query: &QueryDefinition, kept: Vec<QueryRecord>) -> (r: Vec<crate::query_types::QueryResultItem>)
    ensures
        listed_records_ok(*query, record_views(kept@), r@),
{
    let mut kept = kept;
    let ghost before_sort = record_views(kept@);
    order_records(&mut kept, &query.sort);
    let ghost sorted = record_views(kept@);
    let items = records_to_items(query, &kept);
    proof {
        let ord = crate::query_execution::record_ordering(crate::query_types::seq_view(query.sort@));
        assert(crate::query_execution::is_stable_sort(before_sort, sorted, ord));
        assert(item_views(items@) =~= sorted.map_values(|x: QueryRecordView| record_item(query@, x)));
    }
    items
}

/// Sorts the admitted records and turns them into items, or aggregates them.
fn list_or_aggregate<N: NumberAggregator>(query: &QueryDefinition, kept: Vec<QueryRecord>, numbers: &N) -> (r: Result<
    Vec<crate::query_types::QueryResultItem>,
    QueryEngineError,
>)
    requires
        forall|k: int| 0 <= k < kept@.len() ==> #[trigger] admitted(*query, kept@[k]@),
    ensures
        query.aggregations@.len() == 0 ==> (r matches Ok(items) && listed_records_ok(*query, record_views(kept@), items@)),
        query.aggregations@.len() > 0 ==> (r matches Ok(items) ==> aggregated_records_ok(*query, record_views(kept@), items)),
{
    if query.aggregations.len() == 0 {
        let items = sort_and_list(query, kept);
        Ok(items)
    } else {
        let mut kept = kept;
        let ghost input = record_views(kept@);
        order_records(&mut kept, &query.sort);
        let r = aggregate_records(query, &kept, numbers);
        proof {
            if r is Ok {
                let sorted = record_views(kept@);
                let keys = choose|keys: Seq<Seq<char>>|
                    {
                        &&& crate::collections::strictly_sorted::<String>(keys)
                        &&& keys.to_set() == bucket_map(query@, sorted).dom()
                        &&& #[trigger] aggregate_outcome_ok(query@, sorted, bucket_map(query@, sorted), keys, r)
                    };
                assert(r == Ok::<Vec<crate::query_types::QueryResultItem>, QueryEngineError>(r->Ok_0));
                assert(aggregated_records_ok(*query, input, r->Ok_0));
            }
        }
        r
    }
}



/// Persistence boundary for reusable query definitions.
pub trait SavedQueryCatalog {
    /// Catalog-specific error type.
    type Error;

    /// Stores or replaces one validated saved query.
    fn save_query(&mut self, saved_query: SavedQueryDefinition) -> Result<(), Self::Error>;

    /// Retrieves one saved query by identity.
    fn load_query(&self, saved_query_id: &SavedQueryId) -> Result<Option<SavedQueryDefinition>, Self::Error>;
}

/// The request that asks whether a caller may act on a saved query.
pub open spec fn saved_query_request(caller: Seq<char>, action: Seq<char>, id: Seq<char>) -> AuthorizationRequestView {
    AuthorizationRequestView { context: caller, action, target: saved_query_target(id) }
}

/// Returns the request that asks whether a caller may act on a saved query.
pub fn saved_query_access_request(caller: &CallerPermissionContext, action: &str, saved_query_id: &SavedQueryId) -> (r:
    AuthorizationRequest)
    ensures
        r@ == saved_query_request(caller@, action@, saved_query_id@),
{
    AuthorizationRequest::new(caller.clone(), PermissionAction::new(action), saved_query_authorization_target(saved_query_id))
}

/// Turns an authorization outcome into permission to register a saved query:
/// only `Allow` permits; any denial is `PermissionDenied` on the saved query.
pub fn registration_access(outcome: Result<AuthorizationDecision, String>, saved_query_id: &SavedQueryId) -> (r: Result<
    (),
    QueryEngineError,
>)
    ensures
        match outcome {
            Ok(d) => if d@.effect == AuthorizationEffect::Allow {
                r is Ok
            } else {
                r matches Err(e) && e@ == (QueryEngineErrorView::PermissionDenied { target: saved_query_target(saved_query_id@) })
            },
            Err(m) => r matches Err(e) && e@ == (QueryEngineErrorView::AuthorizationProviderUnavailable { message: m@ }),
        },
{
    match outcome {
        Ok(decision) => match decision.effect() {
            AuthorizationEffect::Allow => Ok(()),
            _ => Err(QueryEngineError::PermissionDenied { target: saved_query_authorization_target(saved_query_id) }),
        },
        Err(message) => Err(QueryEngineError::AuthorizationProviderUnavailable { message }),
    }
}

/// Turns an authorization outcome into permission to replay a saved query:
/// a hidden denial is indistinguishable from a missing saved query.
pub fn replay_access(outcome: Result<AuthorizationDecision, String>, saved_query_id: &SavedQueryId) -> (r: Result<
    (),
    QueryEngineError,
>)
    ensures
        match outcome {
            Ok(d) => match d@.effect {
                AuthorizationEffect::Allow => r is Ok,
                AuthorizationEffect::HiddenDeny => r matches Err(e) && e@ == (QueryEngineErrorView::SavedQueryNotFound {
                    saved_query_id: saved_query_id@,
                }),
                AuthorizationEffect::Deny => r matches Err(e) && e@ == (QueryEngineErrorView::PermissionDenied {
                    target: saved_query_target(saved_query_id@),
                }),
            },
            Err(m) => r matches Err(e) && e@ == (QueryEngineErrorView::AuthorizationProviderUnavailable { message: m@ }),
        },
{
    match outcome {
        Ok(decision) => match decision.effect() {
            AuthorizationEffect::Allow => Ok(()),
            AuthorizationEffect::HiddenDeny => Err(QueryEngineError::SavedQueryNotFound { saved_query_id: saved_query_id.clone() }),
            AuthorizationEffect::Deny => Err(
                QueryEngineError::PermissionDenied { target: saved_query_authorization_target(saved_query_id) },
            ),
        },
        Err(message) => Err(QueryEngineError::AuthorizationProviderUnavailable { message }),
    }
}

/// Turns a catalog lookup into the saved query: a catalog failure is
/// `SavedQueryCatalogUnavailable`, a missing entry `SavedQueryNotFound`.
pub fn loaded_saved_query(outcome: Result<Option<SavedQueryDefinition>, String>, saved_query_id: &SavedQueryId) -> (r:
    Result<SavedQueryDefinition, QueryEngineError>)
    ensures
        match outcome {
            Ok(Some(q)) => r == Ok::<SavedQueryDefinition, QueryEngineError>(q),
            Ok(None) => r matches Err(e) && e@ == (QueryEngineErrorView::SavedQueryNotFound { saved_query_id: saved_query_id@ }),
            Err(m) => r matches Err(e) && e@ == (QueryEngineErrorView::SavedQueryCatalogUnavailable { message: m@ }),
        },
{
    match outcome {
        Ok(Some(q)) => Ok(q),
        Ok(None) => Err(QueryEngineError::SavedQueryNotFound { saved_query_id: saved_query_id.clone() }),
        Err(message) => Err(QueryEngineError::SavedQueryCatalogUnavailable { message }),
    }
}

/// Turns a catalog write outcome into the registration outcome.
pub fn catalog_write(outcome: Result<(), String>) -> (r: Result<(), QueryEngineError>)
    ensures
        match outcome {
            Ok(()) => r is Ok,
            Err(m) => r matches Err(e) && e@ == (QueryEngineErrorView::SavedQueryCatalogUnavailable { message: m@ }),
        },
{
    match outcome {
        Ok(()) => Ok(()),
        Err(message) => Err(QueryEngineError::SavedQueryCatalogUnavailable { message }),
    }
}

fn decide_saved_query_access<A: AuthorizationProvider>(
    authorization_provider: &A,
    caller: &CallerPermissionContext,
    action: &str,
    saved_query_id: &SavedQueryId,
) -> (r: Result<AuthorizationDecision, String>) where A::Error: ErrorMessage
{
    let request = saved_query_access_request(caller, action, saved_query_id);
    match authorization_provider.decide(&request) {
        Ok(decision) => Ok(decision),
        Err(error) => Err(error.error_message()),
    }
}

/// The package made of a result: the requested identity, the first version,
/// the caller's context and depth limit, and the result itself.
pub open spec fn package_ok(request: ContextPackageRequest, p: ContextPackage) -> bool {
    &&& p.id@ == request.package_id@
    &&& p.version@ == 1
    &&& p.caller_context@ == request.execution_request.caller_context@
    &&& p.max_depth == request.max_depth
    &&& p.query_result.items@.len() <= request.max_items
    &&& result_ok(request.execution_request, p.query_result)
}

/// The number of items of a listing is the number of records listed.
proof fn lemma_listed_len(query: QueryDefinition, input: Seq<QueryRecordView>, items: Seq<crate::query_types::QueryResultItem>)
    requires
        listed_records_ok(query, input, items),
    ensures
        items.len() == input.len(),
{
    let ord = crate::query_execution::record_ordering(crate::query_types::seq_view(query.sort@));
    let sorted = choose|sorted: Seq<QueryRecordView>|
        crate::query_execution::is_stable_sort(input, sorted, ord) && item_views(items) == sorted.map_values(
            |x: QueryRecordView| record_item(query@, x),
        );
    let perm = choose|perm: Seq<int>| #[trigger] crate::query_execution::sort_state(input, sorted, ord, perm, input.len() as int);
    assert(item_views(items).len() == items.len());
}

/// The source's boundary has an unavailable slot and the query rejects
/// partial results.
pub open spec fn boundary_rejected(query: QueryDefinition, boundary: crate::contracts::ConsistencyBoundaryView) -> bool {
    first_unavailable(boundary) is Some && query.partial_result_policy == PartialResultPolicy::RejectPartial
}

/// Builds the result of an execution from what the source and the
/// authorization provider supplied: the source's consistency boundary, its
/// schema and candidate records, and for each candidate whether its read was
/// allowed. The boundary is carried into the result unchanged.
pub fn assemble_result<N: NumberAggregator>(
    request: QueryExecutionRequest,
    boundary: ConsistencyBoundary,
    schema: &QuerySchema,
    candidates: &Vec<QueryRecord>,
    allowed: &Vec<bool>,
    numbers: &N,
) -> (r: Result<QueryResult, QueryEngineError>)
    requires
        allowed@.len() == candidates@.len(),
    ensures
        boundary_rejected(request.query, boundary@) ==> (r matches Err(e) && completeness_ok(request.query, boundary@, Err(e))),
        !boundary_rejected(request.query, boundary@) ==> match admission_outcome(request.query, *schema, candidates@, allowed@) {
            Err(e) => r matches Err(x) && x@ == e,
            Ok((kept, _)) => request.query.aggregations@.len() == 0 ==> (r is Ok <==> !(
            request.query.execution_limits.max_result_count matches Some(m) && kept.len() > m)),
        },
        r matches Ok(res) ==> {
            &&& res.consistency_boundary == boundary
            &&& res.id@ == request.result_id@
            &&& res.version@ == 1
            &&& res.query_definition@ == request.query@
            &&& res.presentation_type == request.query.presentation_type
            &&& (request.query.execution_limits.max_result_count matches Some(m) ==> res.items@.len() <= m)
            &&& completeness_ok(request.query, boundary@, Ok(res.completeness))
            &&& admission_outcome(request.query, *schema, candidates@, allowed@) matches Ok((kept, _)) && {
                &&& request.query.aggregations@.len() == 0 ==> listed_records_ok(request.query, kept, res.items@)
                &&& request.query.aggregations@.len() > 0 ==> aggregated_records_ok(request.query, kept, res.items)
            }
        },
{
    let completeness = match boundary_completeness(&request.query, &boundary) {
        Ok(c) => c,
        Err(e) => {
            return Err(e);
        },
    };
    let listed = select_and_list(&request.query, schema, candidates, allowed, numbers);
    let items = match listed {
        Ok(x) => x,
        Err(e) => {
            return Err(e);
        },
    };
    proof {
        if admission_outcome(request.query, *schema, candidates@, allowed@) is Ok && request.query.aggregations@.len() == 0 {
            lemma_listed_len(request.query, admission_outcome(request.query, *schema, candidates@, allowed@)->Ok_0.0, items@);
        }
    }
    ensure_result_count_within_limit(&request.query.execution_limits, items.len())?;
    let query_definition = request.query.clone();
    let presentation_type = request.query.presentation_type;
    Ok(
        QueryResult {
            id: request.result_id,
            version: Version::initial(),
            query_definition,
            consistency_boundary: boundary,
            presentation_type,
            items,
            completeness,
        },
    )
}

/// For each candidate, the authorization provider may answer the request to
/// read it with a decision that is `Allow` exactly when it is allowed.
pub open spec fn decisions_for<A: AuthorizationProvider>(
    authorization_provider: &A,
    caller: CallerPermissionContext,
    candidates: Seq<QueryRecord>,
    allowed: Seq<bool>,
) -> bool {
    &&& allowed.len() == candidates.len()
    &&& forall|k: int| 0 <= k < allowed.len() ==> #[trigger] read_decided(authorization_provider, caller, candidates[k], allowed[k])
}

/// A result built from the answers of the source and of the authorization
/// provider: the boundary, schema and candidate records the source answered,
/// the decisions the authorization provider answered for each candidate,
/// the boundary carried over unchanged with the completeness it gives, and
/// the items of the admitted records (listed in sort order, or aggregated).
pub open spec fn executed_from<P: ExecutableQuerySourceProvider, A: AuthorizationProvider>(
    provider: &P,
    authorization_provider: &A,
    cancellation: &CancellationState,
    request: QueryExecutionRequest,
    res: QueryResult,
) -> bool {
    exists|boundary: ConsistencyBoundary, schema: QuerySchema, candidates: Vec<QueryRecord>, allowed: Seq<bool>|
        #![trigger call_ensures(P::consistency_boundary, (provider,), Ok::<ConsistencyBoundary, QueryEngineError>(boundary)), call_ensures(P::describe_schema, (provider,), Ok::<QuerySchema, QueryEngineError>(schema)), call_ensures(P::read_records, (provider, cancellation), Ok::<Vec<QueryRecord>, QueryEngineError>(candidates)), decisions_for(authorization_provider, request.caller_context, candidates@, allowed)]
        {
            &&& call_ensures(P::consistency_boundary, (provider,), Ok::<ConsistencyBoundary, QueryEngineError>(boundary))
            &&& call_ensures(P::describe_schema, (provider,), Ok::<QuerySchema, QueryEngineError>(schema))
            &&& call_ensures(P::read_records, (provider, cancellation), Ok::<Vec<QueryRecord>, QueryEngineError>(candidates))
            &&& decisions_for(authorization_provider, request.caller_context, candidates@, allowed)
            &&& res.consistency_boundary == boundary
            &&& completeness_ok(request.query, boundary@, Ok(res.completeness))
            &&& admission_outcome(request.query, schema, candidates@, allowed) matches Ok((kept, _)) && {
                &&& request.query.aggregations@.len() == 0 ==> listed_records_ok(request.query, kept, res.items@)
                &&& request.query.aggregations@.len() > 0 ==> aggregated_records_ok(request.query, kept, res.items)
            }
        }
}

/// Facade of the Query Engine for finite one-shot execution.
#[derive(Clone, Copy, Debug)]
pub struct QueryEngine;

impl Default for QueryEngine {
    fn default() -> (r: Self)
        ensures
            r == QueryEngine,
    {
        QueryEngine
    }
}

impl QueryEngine {
    /// Creates a Query Engine facade.
    pub fn new() -> (r: Self)
        ensures
            r == QueryEngine,
    {
        QueryEngine
    }

    /// Executes one finite query with a fresh non-cancelled state.
    pub fn execute_one_shot<P: ExecutableQuerySourceProvider, A: AuthorizationProvider, N: NumberAggregator>(
        &self,
        provider: &P,
        authorization_provider: &A,
        request: QueryExecutionRequest,
        numbers: &N,
    ) -> (r: Result<QueryResult, QueryEngineError>) where A::Error: ErrorMessage
        ensures
            execution_request_failure(request) is Some ==> r == Err::<QueryResult, QueryEngineError>(
                QueryEngineError::MalformedQuery { failure: execution_request_failure(request).unwrap() },
            ),
            r matches Ok(res) ==> execution_request_failure(request) is None && result_ok(request, res),
            r matches Ok(res) ==> exists|cancellation: CancellationState|
                #[trigger] executed_from(provider, authorization_provider, &cancellation, request, res),
    {
        let cancellation = CancellationState::new();
        self.execute_one_shot_with_cancellation(provider, authorization_provider, request, &cancellation, numbers)
    }

    /// Executes one finite query while honoring a caller-visible cancellation state.
    #[verifier::rlimit(50)]
    ///
    /// The request is validated first; then the source is checked and read,
    /// each candidate record is validated against the source schema and
    /// authorized for the caller, authorized records count as evaluation
    /// steps and are kept when they match the predicate; the kept records are
    /// sorted and projected, or grouped and aggregated.
    pub fn execute_one_shot_with_cancellation<
        P: ExecutableQuerySourceProvider,
        A: AuthorizationProvider,
        N: NumberAggregator,
    >(
        &self,
        provider: &P,
        authorization_provider: &A,
        request: QueryExecutionRequest,
        cancellation: &CancellationState,
        numbers: &N,
    ) -> (r: Result<QueryResult, QueryEngineError>) where A::Error: ErrorMessage
        ensures
            execution_request_failure(request) is Some ==> r == Err::<QueryResult, QueryEngineError>(
                QueryEngineError::MalformedQuery { failure: execution_request_failure(request).unwrap() },
            ),
            r matches Ok(res) ==> execution_request_failure(request) is None && result_ok(request, res),
            r matches Ok(res) ==> executed_from(provider, authorization_provider, cancellation, request, res),
    {
        let ghost req = request;
        validate_query_execution_request(&request)?;
        validate_query_source_contract(provider, &request.query)?;
        cancellation.check_cancelled()?;
        let read_boundary = P::consistency_boundary;
        let boundary_answer = read_boundary(provider);
        let boundary = match boundary_answer {
            Ok(b) => b,
            Err(e) => {
                return Err(e);
            },
        };
        let ghost source_boundary = boundary;
        match boundary_completeness(&request.query, &boundary) {
            Ok(_) => {},
            Err(e) => {
                return Err(e);
            },
        }
        cancellation.check_cancelled()?;
        let read_schema = P::describe_schema;
        let schema_answer = read_schema(provider);
        let schema = match schema_answer {
            Ok(x) => x,
            Err(e) => {
                return Err(e);
            },
        };
        let read = P::read_records;
        let records_answer = read(provider, cancellation);
        let candidates = match records_answer {
            Ok(x) => x,
            Err(e) => {
                return Err(e);
            },
        };
        let allowed = admit_candidates(authorization_provider, &request, &schema, &candidates, cancellation)?;
        let ghost cands = candidates@;
        let ghost al = allowed@;
        let r = assemble_result(request, boundary, &schema, &candidates, &allowed, numbers);
        proof {
            if r is Ok {
                lemma_admission_outcome(req.query, schema, cands, al);
                let result = r->Ok_0;
                if req.query.aggregations@.len() == 0 {
                    assert(listing_ok(req.query, schema, cands, al, result.items@));
                } else {
                    assert(aggregation_ok(req.query, schema, cands, al, result.items));
                }
                assert(result_ok(req, result));
                assert(call_ensures(P::consistency_boundary, (provider,), Ok::<ConsistencyBoundary, QueryEngineError>(source_boundary)));
                assert(call_ensures(P::describe_schema, (provider,), Ok::<QuerySchema, QueryEngineError>(schema)));
                assert(call_ensures(P::read_records, (provider, cancellation), Ok::<Vec<QueryRecord>, QueryEngineError>(candidates)));
                assert(decisions_for(authorization_provider, req.caller_context, candidates@, al));
                assert(executed_from(provider, authorization_provider, cancellation, req, result));
            }
        }
        r
    }

    /// Validates, authorizes and stores a saved query.
    ///
    /// Only a write to the catalog changes it: a malformed saved query, a
    /// denial or an authorization failure leaves it as it was.
    pub fn register_saved_query<C: SavedQueryCatalog, A: AuthorizationProvider>(
        &self,
        catalog: &mut C,
        authorization_provider: &A,
        caller_context: CallerPermissionContext,
        saved_query: SavedQueryDefinition,
    ) -> (r: Result<(), QueryEngineError>) where C::Error: ErrorMessage, A::Error: ErrorMessage
        ensures
            saved_query_failure(saved_query) is Some ==> (r matches Err(e) && Some(e@) == saved_query_failure(saved_query)),
            r is Ok ==> saved_query_failure(saved_query) is None,
            r matches Err(e) && !(e is SavedQueryCatalogUnavailable) ==> *final(catalog) == *old(catalog),
    {
        validate_saved_query_definition(&saved_query)?;
        let outcome = decide_saved_query_access(
            authorization_provider,
            &caller_context,
            "query.register-saved-query",
            &saved_query.id,
        );
        registration_access(outcome, &saved_query.id)?;
        let written = match catalog.save_query(saved_query) {
            Ok(()) => Ok(()),
            Err(error) => Err(error.error_message()),
        };
        catalog_write(written)
    }

    /// Loads a saved query, checks the caller may replay it, and executes its
    /// stored definition through the one-shot executor.
    pub fn execute_saved_query<
        C: SavedQueryCatalog,
        P: ExecutableQuerySourceProvider,
        A: AuthorizationProvider,
        N: NumberAggregator,
    >(
        &self,
        catalog: &C,
        provider: &P,
        authorization_provider: &A,
        request: SavedQueryExecutionRequest,
        numbers: &N,
    ) -> (r: Result<QueryResult, QueryEngineError>) where C::Error: ErrorMessage, A::Error: ErrorMessage
        ensures
            r matches Ok(res) ==> res.id@ == request.result_id@ && res.version@ == 1,
            r matches Ok(res) ==> exists|execution: QueryExecutionRequest|
                #![trigger result_ok(execution, res)]
                {
                    &&& execution.caller_context@ == request.caller_context@
                    &&& execution.result_id@ == request.result_id@
                    &&& execution.pagination.after is None
                    &&& execution.pagination.max_items is None
                    &&& execution_request_failure(execution) is None
                    &&& result_ok(execution, res)
                },
            r matches Ok(res) ==> exists|execution: QueryExecutionRequest, cancellation: CancellationState|
                #![trigger executed_from(provider, authorization_provider, &cancellation, execution, res)]
                {
                    &&& execution.caller_context@ == request.caller_context@
                    &&& execution.result_id@ == request.result_id@
                    &&& executed_from(provider, authorization_provider, &cancellation, execution, res)
                },
    {
        let loaded = match catalog.load_query(&request.saved_query_id) {
            Ok(found) => Ok(found),
            Err(error) => Err(error.error_message()),
        };
        let saved_query = loaded_saved_query(loaded, &request.saved_query_id)?;
        let outcome = decide_saved_query_access(
            authorization_provider,
            &request.caller_context,
            "query.execute-saved-query",
            &request.saved_query_id,
        );
        replay_access(outcome, &request.saved_query_id)?;
        let execution = QueryExecutionRequest::new(saved_query.query_definition, request.caller_context, request.result_id);
        let ghost handed = execution;
        let r = self.execute_one_shot(provider, authorization_provider, execution, numbers);
        proof {
            if r is Ok {
                assert(result_ok(handed, r->Ok_0));
            }
        }
        r
    }

    /// Executes the wrapped query and packages its result, bounded by the
    /// requested item count.
    pub fn build_context_package<P: ExecutableQuerySourceProvider, A: AuthorizationProvider, N: NumberAggregator>(
        &self,
        provider: &P,
        authorization_provider: &A,
        request: ContextPackageRequest,
        numbers: &N,
    ) -> (r: Result<ContextPackage, QueryEngineError>) where A::Error: ErrorMessage
        ensures
            context_package_failure(request) is Some ==> r == Err::<ContextPackage, QueryEngineError>(
                QueryEngineError::MalformedQuery { failure: context_package_failure(request).unwrap() },
            ),
            r matches Ok(p) ==> context_package_failure(request) is None && package_ok(request, p),
            r matches Ok(p) ==> exists|cancellation: CancellationState|
                #[trigger] executed_from(provider, authorization_provider, &cancellation, request.execution_request, p.query_result),
    {
        let ghost req = request;
        validate_context_package_request(&request)?;
        let caller_context = request.execution_request.caller_context.clone();
        let result = self.execute_one_shot(provider, authorization_provider, request.execution_request, numbers)?;
        if result.items.len() > request.max_items {
            return Err(QueryEngineError::ExecutionLimitExceeded { limit: ExecutionLimitKind::ResultCount });
        }
        Ok(ContextPackage {
            id: request.package_id,
            version: Version::initial(),
            caller_context,
            max_depth: request.max_depth,
            query_result: result,
        })
    }
}

} // verus!
