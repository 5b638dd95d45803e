//! Structural validation of query definitions, execution requests, source
//! records, saved queries, context packages and inquiries. Each check
//! reports the first failure in a fixed order.
use vstd::prelude::*;
use crate::collections::{OrdMap, OrdSet};
use crate::contracts::{value_kind, PropertyValue, PropertyValueKind};
use crate::event_types::payload_view;
use crate::query_errors::{QueryEngineError, QueryEngineErrorView, ValidationError};
use crate::query_limits::{limits_failure, validate_execution_limits};
use crate::query_types::{
    AggregationFunction, AggregationSpec, ContextPackageRequest, GroupSpec, InquiryExecutionRequest, Predicate,
    Projection, QueryDefinition, QueryExecutionRequest, QueryRecord, QuerySchema, QuerySourceRef,
    SavedQueryDefinition, SortSpec, TemporalScope, TraversalSpec, CURRENT_SAVED_QUERY_SCHEMA_VERSION,
};
use crate::text::{chars_lt, compare_chars, decimal, append_decimal, str_eq, string_of, KeyOrder};

verus! {

/// The failure of a temporal scope, if any.
pub open spec fn temporal_scope_failure(scope: TemporalScope) -> Option<ValidationError> {
    match scope {
        TemporalScope::PointInTime { at } => if at@.len() == 0 {
            Some(ValidationError::EmptyTemporalPoint)
        } else {
            None
        },
        TemporalScope::TimeRange { from, to } => if (from is Some && from.unwrap()@.len() == 0) || (to is Some
            && to.unwrap()@.len() == 0) {
            Some(ValidationError::EmptyTemporalRangeBound)
        } else if from is Some && to is Some && chars_lt(to.unwrap()@, from.unwrap()@) {
            Some(ValidationError::InvalidTemporalRange)
        } else {
            None
        },
        _ => None,
    }
}

/// The failure of a predicate's shape: an `And` or `Or` without children,
/// searched depth-first in child order.
pub open spec fn predicate_shape_failure(p: Predicate) -> Option<ValidationError>
    decreases p, 0int,
{
    match p {
        Predicate::And(children) => if children@.len() == 0 {
            Some(ValidationError::EmptyPredicateBranch)
        } else {
            children_shape_failure(children, 0)
        },
        Predicate::Or(children) => if children@.len() == 0 {
            Some(ValidationError::EmptyPredicateBranch)
        } else {
            children_shape_failure(children, 0)
        },
        Predicate::Not(child) => predicate_shape_failure(*child),
        _ => None,
    }
}

/// The first shape failure among children from position `i` on.
pub open spec fn children_shape_failure(children: Vec<Predicate>, i: int) -> Option<ValidationError>
    decreases children, children@.len() - i,
{
    if i < 0 || i >= children@.len() {
        None
    } else if predicate_shape_failure(children[i]) is Some {
        predicate_shape_failure(children[i])
    } else {
        children_shape_failure(children, i + 1)
    }
}

/// Some string of the sequence is empty.
pub open spec fn has_empty(s: Seq<Seq<char>>) -> bool {
    exists|i: int| 0 <= i < s.len() && #[trigger] s[i].len() == 0
}

/// The failure of one aggregation's shape, if any.
pub open spec fn aggregation_failure(a: AggregationSpec) -> Option<ValidationError> {
    if a.alias@.len() == 0 {
        Some(ValidationError::EmptyAggregationAlias)
    } else if a.function == AggregationFunction::Count && a.field is Some {
        Some(ValidationError::UnexpectedAggregationField)
    } else if a.function != AggregationFunction::Count && a.field is None {
        Some(ValidationError::MissingAggregationField)
    } else {
        None
    }
}

/// The first aggregation shape failure from position `i` on.
pub open spec fn aggregations_failure_from(aggs: Seq<AggregationSpec>, i: int) -> Option<ValidationError>
    decreases aggs.len() - i,
{
    if i < 0 || i >= aggs.len() {
        None
    } else if aggregation_failure(aggs[i]) is Some {
        aggregation_failure(aggs[i])
    } else {
        aggregations_failure_from(aggs, i + 1)
    }
}

/// The failure of a traversal, if any.
pub open spec fn traversal_failure(t: TraversalSpec) -> Option<ValidationError> {
    if t.max_depth == 0 {
        Some(ValidationError::EmptyTraversalDepth)
    } else if has_empty(t.relation_types.keys()) {
        Some(ValidationError::EmptyTraversalRelationType)
    } else {
        None
    }
}

/// Some sort key has an empty field.
pub open spec fn has_empty_sort_field(sort: Seq<SortSpec>) -> bool {
    exists|i: int| 0 <= i < sort.len() && #[trigger] sort[i].field@.len() == 0
}

/// The first structural failure of a query definition, if any.
pub open spec fn query_failure(q: QueryDefinition) -> Option<ValidationError> {
    if q.source@.len() == 0 {
        Some(ValidationError::EmptyQuerySource)
    } else if temporal_scope_failure(q.temporal_scope) is Some {
        temporal_scope_failure(q.temporal_scope)
    } else if q.predicate is Some && predicate_shape_failure(q.predicate.unwrap()) is Some {
        predicate_shape_failure(q.predicate.unwrap())
    } else if q.projection matches Projection::SelectedFields(fields) && has_empty(fields.keys()) {
        Some(ValidationError::EmptyProjectionField)
    } else if has_empty_sort_field(q.sort@) {
        Some(ValidationError::EmptySortField)
    } else if q.group is Some && has_empty(q.group.unwrap().fields.keys()) {
        Some(ValidationError::EmptyGroupField)
    } else if aggregations_failure_from(q.aggregations@, 0) is Some {
        aggregations_failure_from(q.aggregations@, 0)
    } else if q.traversal is Some && traversal_failure(q.traversal.unwrap()) is Some {
        traversal_failure(q.traversal.unwrap())
    } else {
        limits_failure(q.execution_limits)
    }
}

fn malformed(failure: ValidationError) -> (e: QueryEngineError)
    ensures
        e == (QueryEngineError::MalformedQuery { failure }),
{
    QueryEngineError::MalformedQuery { failure }
}

/// Checks a temporal scope.
pub fn validate_temporal_scope(scope: &TemporalScope) -> (r: Result<(), QueryEngineError>)
    ensures
        r is Ok <==> temporal_scope_failure(*scope) is None,
        r matches Err(e) ==> e == (QueryEngineError::MalformedQuery { failure: temporal_scope_failure(*scope).unwrap() }),
{
    match scope {
        TemporalScope::Current | TemporalScope::AllHistory => Ok(()),
        TemporalScope::PointInTime { at } => {
            if at.as_str().is_empty() {
                return Err(malformed(ValidationError::EmptyTemporalPoint));
            }
            Ok(())
        },
        TemporalScope::TimeRange { from, to } => {
            let empty_from = match from {
                Some(f) => f.as_str().is_empty(),
                None => false,
            };
            let empty_to = match to {
                Some(t) => t.as_str().is_empty(),
                None => false,
            };
            if empty_from || empty_to {
                return Err(malformed(ValidationError::EmptyTemporalRangeBound));
            }
            if let (Some(f), Some(t)) = (from, to) {
                match compare_chars(f.as_str(), t.as_str()) {
                    KeyOrder::Greater => {
                        return Err(malformed(ValidationError::InvalidTemporalRange));
                    },
                    _ => {},
                }
            }
            Ok(())
        },
    }
}

/// Checks a traversal.
pub fn validate_traversal_spec(traversal: &TraversalSpec) -> (r: Result<(), QueryEngineError>)
    ensures
        r is Ok <==> traversal_failure(*traversal) is None,
        r matches Err(e) ==> e == (QueryEngineError::MalformedQuery { failure: traversal_failure(*traversal).unwrap() }),
{
    if traversal.max_depth == 0 {
        return Err(malformed(ValidationError::EmptyTraversalDepth));
    }
    if !no_empty_string(&traversal.relation_types) {
        return Err(malformed(ValidationError::EmptyTraversalRelationType));
    }
    Ok(())
}

/// Reports whether no string of a set is empty.
pub fn no_empty_string(set: &OrdSet<String>) -> (b: bool)
    ensures
        b == !has_empty(set.keys()),
{
    let n = set.len();
    let mut i: usize = 0;
    while i < n
        invariant
            n == set.keys().len(),
            i <= n,
            forall|j: int| 0 <= j < i ==> (#[trigger] set.keys()[j]).len() > 0,
        decreases n - i,
    {
        if set.item_at(i).as_str().is_empty() {
            assert(set.keys()[i as int].len() == 0);
            return false;
        }
        i = i + 1;
    }
    true
}

/// Reports whether no sort key has an empty field.
pub fn no_empty_sort_field(sort: &Vec<SortSpec>) -> (b: bool)
    ensures
        b == !has_empty_sort_field(sort@),
{
    let mut i: usize = 0;
    while i < sort.len()
        invariant
            i <= sort@.len(),
            forall|j: int| 0 <= j < i ==> (#[trigger] sort@[j]).field@.len() > 0,
        decreases sort@.len() - i,
    {
        if sort[i].field.as_str().is_empty() {
            assert(sort@[i as int].field@.len() == 0);
            return false;
        }
        i = i + 1;
    }
    true
}

/// Checks the shape of a predicate.
pub fn validate_predicate_shape(predicate: &Predicate) -> (r: Result<(), QueryEngineError>)
    ensures
        r is Ok <==> predicate_shape_failure(*predicate) is None,
        r matches Err(e) ==> e == (QueryEngineError::MalformedQuery {
            failure: predicate_shape_failure(*predicate).unwrap(),
        }),
    decreases predicate, 0int,
{
    match predicate {
        Predicate::And(children) | Predicate::Or(children) => {
            if children.len() == 0 {
                return Err(malformed(ValidationError::EmptyPredicateBranch));
            }
            validate_children_shape(children, 0)
        },
        Predicate::Not(child) => validate_predicate_shape(child),
        _ => Ok(()),
    }
}

/// Checks the shapes of the children from position `i` on.
fn validate_children_shape(children: &Vec<Predicate>, i: usize) -> (r: Result<(), QueryEngineError>)
    requires
        i <= children@.len(),
    ensures
        r is Ok <==> children_shape_failure(*children, i as int) is None,
        r matches Err(e) ==> e == (QueryEngineError::MalformedQuery {
            failure: children_shape_failure(*children, i as int).unwrap(),
        }),
    decreases children, children@.len() - i,
{
    if i >= children.len() {
        return Ok(());
    }
    proof {
        assert(decreases_to!(children => children[i as int]));
    }
    match validate_predicate_shape(&children[i]) {
        Err(e) => Err(e),
        Ok(()) => validate_children_shape(children, i + 1),
    }
}

/// Checks the aggregations' shapes in order.
pub fn validate_aggregation_shape(aggregations: &Vec<AggregationSpec>) -> (r: Result<(), QueryEngineError>)
    ensures
        r is Ok <==> aggregations_failure_from(aggregations@, 0) is None,
        r matches Err(e) ==> e == (QueryEngineError::MalformedQuery {
            failure: aggregations_failure_from(aggregations@, 0).unwrap(),
        }),
{
    let n = aggregations.len();
    let mut i: usize = 0;
    while i < n
        invariant
            n == aggregations@.len(),
            i <= n,
            aggregations_failure_from(aggregations@, 0) == aggregations_failure_from(aggregations@, i as int),
        decreases n - i,
    {
        let a = &aggregations[i];
        if a.alias.as_str().is_empty() {
            return Err(malformed(ValidationError::EmptyAggregationAlias));
        }
        match a.function {
            AggregationFunction::Count => {
                if a.field.is_some() {
                    return Err(malformed(ValidationError::UnexpectedAggregationField));
                }
            },
            _ => {
                if a.field.is_none() {
                    return Err(malformed(ValidationError::MissingAggregationField));
                }
            },
        }
        i = i + 1;
    }
    Ok(())
}

/// Checks the structure of a query definition.
pub fn validate_query_definition(query: &QueryDefinition) -> (r: Result<(), QueryEngineError>)
    ensures
        r is Ok <==> query_failure(*query) is None,
        r matches Err(e) ==> e == (QueryEngineError::MalformedQuery { failure: query_failure(*query).unwrap() }),
{
    if query.source.is_empty() {
        return Err(malformed(ValidationError::EmptyQuerySource));
    }
    match validate_temporal_scope(&query.temporal_scope) {
        Err(e) => {
            return Err(e);
        },
        Ok(()) => {},
    }
    if let Some(predicate) = &query.predicate {
        match validate_predicate_shape(predicate) {
            Err(e) => {
                return Err(e);
            },
            Ok(()) => {},
        }
    }
    if let Projection::SelectedFields(fields) = &query.projection {
        if !no_empty_string(fields) {
            return Err(malformed(ValidationError::EmptyProjectionField));
        }
    }
    if !no_empty_sort_field(&query.sort) {
        return Err(malformed(ValidationError::EmptySortField));
    }
    if let Some(group) = &query.group {
        if !no_empty_string(&group.fields) {
            return Err(malformed(ValidationError::EmptyGroupField));
        }
    }
    match validate_aggregation_shape(&query.aggregations) {
        Err(e) => {
            return Err(e);
        },
        Ok(()) => {},
    }
    if let Some(traversal) = &query.traversal {
        match validate_traversal_spec(traversal) {
            Err(e) => {
                return Err(e);
            },
            Ok(()) => {},
        }
    }
    validate_execution_limits(&query.execution_limits)
}


/// The first predicate field, depth-first in child order, that the schema
/// does not declare.
pub open spec fn predicate_field_failure(p: Predicate, declared: Set<Seq<char>>) -> Option<Seq<char>>
    decreases p, 0int,
{
    match p {
        Predicate::AlwaysTrue => None,
        Predicate::Equals { field, .. } => if declared.contains(field@) {
            None
        } else {
            Some(field@)
        },
        Predicate::Exists { field } => if declared.contains(field@) {
            None
        } else {
            Some(field@)
        },
        Predicate::Range { field, .. } => if declared.contains(field@) {
            None
        } else {
            Some(field@)
        },
        Predicate::And(children) => children_field_failure(children, declared, 0),
        Predicate::Or(children) => children_field_failure(children, declared, 0),
        Predicate::Not(child) => predicate_field_failure(*child, declared),
    }
}

/// The first undeclared predicate field among children from position `i` on.
pub open spec fn children_field_failure(children: Vec<Predicate>, declared: Set<Seq<char>>, i: int) -> Option<
    Seq<char>,
>
    decreases children, children@.len() - i,
{
    if i < 0 || i >= children@.len() {
        None
    } else if predicate_field_failure(children[i], declared) is Some {
        predicate_field_failure(children[i], declared)
    } else {
        children_field_failure(children, declared, i + 1)
    }
}

/// The first field of a sequence, from position `i` on, that is not declared.
pub open spec fn undeclared_from(fields: Seq<Seq<char>>, declared: Set<Seq<char>>, i: int) -> Option<Seq<char>>
    decreases fields.len() - i,
{
    if i < 0 || i >= fields.len() {
        None
    } else if !declared.contains(fields[i]) {
        Some(fields[i])
    } else {
        undeclared_from(fields, declared, i + 1)
    }
}

/// The sort fields, in order.
pub open spec fn sort_fields(sort: Seq<SortSpec>) -> Seq<Seq<char>> {
    sort.map_values(|s: SortSpec| s.field@)
}

/// The aggregation input fields, in order, skipping those without one.
pub open spec fn aggregation_fields_from(aggs: Seq<AggregationSpec>, declared: Set<Seq<char>>, i: int) -> Option<
    Seq<char>,
>
    decreases aggs.len() - i,
{
    if i < 0 || i >= aggs.len() {
        None
    } else if aggs[i].field is Some && !declared.contains(aggs[i].field.unwrap()@) {
        Some(aggs[i].field.unwrap()@)
    } else {
        aggregation_fields_from(aggs, declared, i + 1)
    }
}

/// The first undeclared field a query uses: predicate, projection, sort,
/// group, aggregation, in that order.
pub open spec fn query_field_failure(q: QueryDefinition, declared: Set<Seq<char>>) -> Option<Seq<char>> {
    if q.predicate is Some && predicate_field_failure(q.predicate.unwrap(), declared) is Some {
        predicate_field_failure(q.predicate.unwrap(), declared)
    } else if q.projection matches Projection::SelectedFields(fields) && undeclared_from(fields.keys(), declared, 0) is Some {
        undeclared_from(q.projection->SelectedFields_0.keys(), declared, 0)
    } else if undeclared_from(sort_fields(q.sort@), declared, 0) is Some {
        undeclared_from(sort_fields(q.sort@), declared, 0)
    } else if q.group is Some && undeclared_from(q.group.unwrap().fields.keys(), declared, 0) is Some {
        undeclared_from(q.group.unwrap().fields.keys(), declared, 0)
    } else {
        aggregation_fields_from(q.aggregations@, declared, 0)
    }
}

/// The first failure of a query against a schema: a structural failure, else
/// an undeclared field.
pub open spec fn query_schema_failure(q: QueryDefinition, declared: Set<Seq<char>>) -> Option<QueryEngineErrorView> {
    if query_failure(q) is Some {
        Some(QueryEngineErrorView::MalformedQuery { failure: query_failure(q).unwrap() })
    } else if query_field_failure(q, declared) is Some {
        Some(QueryEngineErrorView::InvalidField { field: query_field_failure(q, declared).unwrap() })
    } else {
        None
    }
}

fn invalid_field(field: &str) -> (e: QueryEngineError)
    ensures
        e@ == (QueryEngineErrorView::InvalidField { field: field@ }),
{
    QueryEngineError::InvalidField { field: string_of(field) }
}

/// Checks the fields a predicate uses against a schema.
pub fn validate_predicate_fields(predicate: &Predicate, schema: &QuerySchema) -> (r: Result<(), QueryEngineError>)
    ensures
        r is Ok <==> predicate_field_failure(*predicate, schema.fields.as_map().dom()) is None,
        r matches Err(e) ==> e@ == (QueryEngineErrorView::InvalidField {
            field: predicate_field_failure(*predicate, schema.fields.as_map().dom()).unwrap(),
        }),
    decreases predicate, 0int,
{
    match predicate {
        Predicate::AlwaysTrue => Ok(()),
        Predicate::Equals { field, .. } | Predicate::Exists { field } | Predicate::Range { field, .. } => {
            if !schema.contains_field(field.as_str()) {
                return Err(invalid_field(field.as_str()));
            }
            Ok(())
        },
        Predicate::And(children) | Predicate::Or(children) => validate_children_fields(children, schema, 0),
        Predicate::Not(child) => validate_predicate_fields(child, schema),
    }
}

fn validate_children_fields(children: &Vec<Predicate>, schema: &QuerySchema, i: usize) -> (r: Result<(), QueryEngineError>)
    requires
        i <= children@.len(),
    ensures
        r is Ok <==> children_field_failure(*children, schema.fields.as_map().dom(), i as int) is None,
        r matches Err(e) ==> e@ == (QueryEngineErrorView::InvalidField {
            field: children_field_failure(*children, schema.fields.as_map().dom(), i as int).unwrap(),
        }),
    decreases children, children@.len() - i,
{
    if i >= children.len() {
        return Ok(());
    }
    proof {
        assert(decreases_to!(children => children[i as int]));
    }
    match validate_predicate_fields(&children[i], schema) {
        Err(e) => Err(e),
        Ok(()) => validate_children_fields(children, schema, i + 1),
    }
}

/// Checks that every field of a set is declared, in ascending order.
fn validate_field_set(fields: &OrdSet<String>, schema: &QuerySchema) -> (r: Result<(), QueryEngineError>)
    ensures
        r is Ok <==> undeclared_from(fields.keys(), schema.fields.as_map().dom(), 0) is None,
        r matches Err(e) ==> e@ == (QueryEngineErrorView::InvalidField {
            field: undeclared_from(fields.keys(), schema.fields.as_map().dom(), 0).unwrap(),
        }),
{
    let ghost declared = schema.fields.as_map().dom();
    let n = fields.len();
    let mut i: usize = 0;
    while i < n
        invariant
            declared == schema.fields.as_map().dom(),
            n == fields.keys().len(),
            i <= n,
            undeclared_from(fields.keys(), declared, 0) == undeclared_from(fields.keys(), declared, i as int),
        decreases n - i,
    {
        let field = fields.item_at(i);
        if !schema.contains_field(field.as_str()) {
            return Err(invalid_field(field.as_str()));
        }
        i = i + 1;
    }
    Ok(())
}

/// Checks a query against a schema: its structure, then every field it uses.
pub fn validate_query_definition_against_schema(query: &QueryDefinition, schema: &QuerySchema) -> (r: Result<
    (),
    QueryEngineError,
>)
    ensures
        r is Ok <==> query_schema_failure(*query, schema.fields.as_map().dom()) is None,
        r matches Err(e) ==> Some(e@) == query_schema_failure(*query, schema.fields.as_map().dom()),
{
    let ghost declared = schema.fields.as_map().dom();
    match validate_query_definition(query) {
        Err(e) => {
            return Err(e);
        },
        Ok(()) => {},
    }
    if let Some(predicate) = &query.predicate {
        match validate_predicate_fields(predicate, schema) {
            Err(e) => {
                return Err(e);
            },
            Ok(()) => {},
        }
    }
    if let Projection::SelectedFields(fields) = &query.projection {
        match validate_field_set(fields, schema) {
            Err(e) => {
                return Err(e);
            },
            Ok(()) => {},
        }
    }
    match validate_sort_fields(&query.sort, schema) {
        Err(e) => {
            return Err(e);
        },
        Ok(()) => {},
    }
    if let Some(group) = &query.group {
        match validate_field_set(&group.fields, schema) {
            Err(e) => {
                return Err(e);
            },
            Ok(()) => {},
        }
    }
    validate_aggregation_fields(&query.aggregations, schema)
}

fn validate_sort_fields(sort: &Vec<SortSpec>, schema: &QuerySchema) -> (r: Result<(), QueryEngineError>)
    ensures
        r is Ok <==> undeclared_from(sort_fields(sort@), schema.fields.as_map().dom(), 0) is None,
        r matches Err(e) ==> e@ == (QueryEngineErrorView::InvalidField {
            field: undeclared_from(sort_fields(sort@), schema.fields.as_map().dom(), 0).unwrap(),
        }),
{
    let ghost declared = schema.fields.as_map().dom();
    let ghost fs = sort_fields(sort@);
    let n = sort.len();
    let mut i: usize = 0;
    while i < n
        invariant
            declared == schema.fields.as_map().dom(),
            fs == sort_fields(sort@),
            n == sort@.len(),
            i <= n,
            undeclared_from(fs, declared, 0) == undeclared_from(fs, declared, i as int),
        decreases n - i,
    {
        assert(fs[i as int] == sort@[i as int].field@);
        if !schema.contains_field(sort[i].field.as_str()) {
            return Err(invalid_field(sort[i].field.as_str()));
        }
        i = i + 1;
    }
    Ok(())
}

fn validate_aggregation_fields(aggregations: &Vec<AggregationSpec>, schema: &QuerySchema) -> (r: Result<(), QueryEngineError>)
    ensures
        r is Ok <==> aggregation_fields_from(aggregations@, schema.fields.as_map().dom(), 0) is None,
        r matches Err(e) ==> e@ == (QueryEngineErrorView::InvalidField {
            field: aggregation_fields_from(aggregations@, schema.fields.as_map().dom(), 0).unwrap(),
        }),
{
    let ghost declared = schema.fields.as_map().dom();
    let n = aggregations.len();
    let mut i: usize = 0;
    while i < n
        invariant
            declared == schema.fields.as_map().dom(),
            n == aggregations@.len(),
            i <= n,
            aggregation_fields_from(aggregations@, declared, 0) == aggregation_fields_from(aggregations@, declared, i as int),
        decreases n - i,
    {
        if let Some(field) = &aggregations[i].field {
            if !schema.contains_field(field.as_str()) {
                return Err(invalid_field(field.as_str()));
            }
        }
        i = i + 1;
    }
    Ok(())
}

/// The first failure of an execution request, if any.
pub open spec fn execution_request_failure(request: QueryExecutionRequest) -> Option<ValidationError> {
    if query_failure(request.query) is Some {
        query_failure(request.query)
    } else if request.result_id@.len() == 0 {
        Some(ValidationError::EmptyQueryResultId)
    } else if request.pagination.after is Some && request.pagination.after.unwrap()@.len() == 0 {
        Some(ValidationError::EmptyContinuationToken)
    } else if request.pagination.max_items == Some(0usize) {
        Some(ValidationError::ZeroPageSize)
    } else {
        None
    }
}

/// Checks an execution request: its query, its result identity and its page selection.
pub fn validate_query_execution_request(request: &QueryExecutionRequest) -> (r: Result<(), QueryEngineError>)
    ensures
        r is Ok <==> execution_request_failure(*request) is None,
        r matches Err(e) ==> e == (QueryEngineError::MalformedQuery {
            failure: execution_request_failure(*request).unwrap(),
        }),
{
    match validate_query_definition(&request.query) {
        Err(e) => {
            return Err(e);
        },
        Ok(()) => {},
    }
    if request.result_id.is_empty() {
        return Err(malformed(ValidationError::EmptyQueryResultId));
    }
    if let Some(token) = &request.pagination.after {
        if token.is_empty() {
            return Err(malformed(ValidationError::EmptyContinuationToken));
        }
    }
    if let Some(0) = request.pagination.max_items {
        return Err(malformed(ValidationError::ZeroPageSize));
    }
    Ok(())
}

/// The first invalid field of a record against a schema, with the reason, from position `i` on.
pub open spec fn record_fields_failure_from(
    keys: Seq<Seq<char>>,
    fields: Map<Seq<char>, crate::contracts::PropertyValueView>,
    schema: Map<Seq<char>, PropertyValueKind>,
    i: int,
) -> Option<Seq<char>>
    decreases keys.len() - i,
{
    if i < 0 || i >= keys.len() {
        None
    } else if !schema.contains_key(keys[i]) {
        Some("record field "@ + keys[i] + " is not declared by source schema"@)
    } else if value_kind(fields[keys[i]]) != schema[keys[i]] {
        Some("record field "@ + keys[i] + " does not match source schema kind"@)
    } else {
        record_fields_failure_from(keys, fields, schema, i + 1)
    }
}

/// Why a record does not fit the query source and its schema, if it does not.
pub open spec fn record_failure(expected_source: Seq<char>, schema: Map<Seq<char>, PropertyValueKind>, r: QueryRecord) -> Option<
    Seq<char>,
> {
    if r.source@ != expected_source {
        Some("record source does not match query source"@)
    } else if r.record_type@.len() == 0 {
        Some("record type must not be empty"@)
    } else if r.record_id@.len() == 0 {
        Some("record identity must not be empty"@)
    } else if r.ordering_key@.len() == 0 {
        Some("stable ordering key must not be empty"@)
    } else {
        record_fields_failure_from(r.fields.keys(), payload_view(r.fields), schema, 0)
    }
}


fn invalid_record(source: &QuerySourceRef, record_id: &String, reason: String) -> (e: QueryEngineError)
    ensures
        e@ == (QueryEngineErrorView::InvalidSourceRecord { source: source@, record_id: record_id@, reason: reason@ }),
{
    QueryEngineError::InvalidSourceRecord { source: source.clone(), record_id: record_id.clone(), reason }
}

fn field_reason(field: &str, tail: &str) -> (r: String)
    ensures
        r@ == "record field "@ + field@ + tail@,
{
    let mut s = string_of("record field ");
    s.append(field);
    s.append(tail);
    s
}

/// Checks that a source record fits the query source and the source schema.
pub fn validate_query_record_against_schema(expected_source: &QuerySourceRef, schema: &QuerySchema, record: &QueryRecord) -> (r:
    Result<(), QueryEngineError>)
    ensures
        r is Ok <==> record_failure(expected_source@, schema.fields.as_map(), *record) is None,
        r matches Err(e) ==> e@ == (QueryEngineErrorView::InvalidSourceRecord {
            source: record.source@,
            record_id: record.record_id@,
            reason: record_failure(expected_source@, schema.fields.as_map(), *record).unwrap(),
        }),
{
    if !str_eq(record.source.as_str(), expected_source.as_str()) {
        return Err(invalid_record(&record.source, &record.record_id, string_of("record source does not match query source")));
    }
    if record.record_type.as_str().is_empty() {
        return Err(invalid_record(&record.source, &record.record_id, string_of("record type must not be empty")));
    }
    if record.record_id.as_str().is_empty() {
        return Err(invalid_record(&record.source, &record.record_id, string_of("record identity must not be empty")));
    }
    if record.ordering_key.is_empty() {
        return Err(invalid_record(&record.source, &record.record_id, string_of("stable ordering key must not be empty")));
    }
    let ghost keys = record.fields.keys();
    let ghost fields = payload_view(record.fields);
    let ghost sm = schema.fields.as_map();
    let n = record.fields.len();
    let mut i: usize = 0;
    while i < n
        invariant
            keys == record.fields.keys(),
            fields == payload_view(record.fields),
            sm == schema.fields.as_map(),
            n == keys.len(),
            i <= n,
            record_failure(expected_source@, sm, *record) == record_fields_failure_from(keys, fields, sm, i as int),
        decreases n - i,
    {
        let field = record.fields.key_at(i);
        proof {
            record.fields.lemma_value_at(i as int);
        }
        let value = record.fields.value_at(i);
        match schema.fields.get(field) {
            None => {
                return Err(invalid_record(&record.source, &record.record_id, field_reason(field.as_str(), " is not declared by source schema")));
            },
            Some(kind) => {
                if value.kind() != *kind {
                    return Err(invalid_record(&record.source, &record.record_id, field_reason(field.as_str(), " does not match source schema kind")));
                }
            },
        }
        i = i + 1;
    }
    Ok(())
}

/// The reason text of a saved-query schema-version mismatch.
pub open spec fn schema_version_reason(found: u32) -> Seq<char> {
    "expected schema version "@ + decimal(CURRENT_SAVED_QUERY_SCHEMA_VERSION as nat) + ", got "@ + decimal(found as nat)
}

/// The first change-history failure from position `i` on.
pub open spec fn history_failure_from(history: Seq<crate::query_types::SavedQueryChange>, i: int) -> Option<ValidationError>
    decreases history.len() - i,
{
    if i < 0 || i >= history.len() {
        None
    } else if history[i].actor@.len() == 0 {
        Some(ValidationError::EmptySavedQueryChangeActor)
    } else if history[i].changed_at@.len() == 0 {
        Some(ValidationError::EmptySavedQueryChangeTimestamp)
    } else {
        history_failure_from(history, i + 1)
    }
}

/// The first failure of a saved query, if any.
pub open spec fn saved_query_failure(q: SavedQueryDefinition) -> Option<QueryEngineErrorView> {
    if q.schema_version != CURRENT_SAVED_QUERY_SCHEMA_VERSION {
        Some(QueryEngineErrorView::SavedQuerySchemaVersionMismatch { reason: schema_version_reason(q.schema_version) })
    } else if q.id@.len() == 0 {
        Some(QueryEngineErrorView::MalformedQuery { failure: ValidationError::EmptySavedQueryId })
    } else if q.name@.len() == 0 {
        Some(QueryEngineErrorView::MalformedQuery { failure: ValidationError::EmptySavedQueryName })
    } else if q.version@ == 0 {
        Some(QueryEngineErrorView::MalformedQuery { failure: ValidationError::ZeroSavedQueryVersion })
    } else if q.owner@.len() == 0 {
        Some(QueryEngineErrorView::MalformedQuery { failure: ValidationError::EmptySavedQueryOwner })
    } else if q.access_permission_scope@.len() == 0 {
        Some(QueryEngineErrorView::MalformedQuery { failure: ValidationError::EmptySavedQueryAccessPermissionScope })
    } else if q.change_history@.len() == 0 {
        Some(QueryEngineErrorView::MalformedQuery { failure: ValidationError::EmptySavedQueryChangeHistory })
    } else if history_failure_from(q.change_history@, 0) is Some {
        Some(QueryEngineErrorView::MalformedQuery { failure: history_failure_from(q.change_history@, 0).unwrap() })
    } else if query_failure(q.query_definition) is Some {
        Some(QueryEngineErrorView::MalformedQuery { failure: query_failure(q.query_definition).unwrap() })
    } else {
        None
    }
}

fn check_history(history: &Vec<crate::query_types::SavedQueryChange>) -> (r: Result<(), QueryEngineError>)
    ensures
        r is Ok <==> history_failure_from(history@, 0) is None,
        r matches Err(e) ==> e == (QueryEngineError::MalformedQuery { failure: history_failure_from(history@, 0).unwrap() }),
{
    let n = history.len();
    let mut i: usize = 0;
    while i < n
        invariant
            n == history@.len(),
            i <= n,
            history_failure_from(history@, 0) == history_failure_from(history@, i as int),
        decreases n - i,
    {
        if history[i].actor.as_str().is_empty() {
            return Err(malformed(ValidationError::EmptySavedQueryChangeActor));
        }
        if history[i].changed_at.as_str().is_empty() {
            return Err(malformed(ValidationError::EmptySavedQueryChangeTimestamp));
        }
        i = i + 1;
    }
    Ok(())
}

/// Checks a saved query: its schema version, its governance metadata and its query.
pub fn validate_saved_query_definition(saved_query: &SavedQueryDefinition) -> (r: Result<(), QueryEngineError>)
    ensures
        r is Ok <==> saved_query_failure(*saved_query) is None,
        r matches Err(e) ==> Some(e@) == saved_query_failure(*saved_query),
{
    if saved_query.schema_version != CURRENT_SAVED_QUERY_SCHEMA_VERSION {
        let mut reason = string_of("expected schema version ");
        append_decimal(&mut reason, CURRENT_SAVED_QUERY_SCHEMA_VERSION as u64);
        reason.append(", got ");
        append_decimal(&mut reason, saved_query.schema_version as u64);
        assert(reason@ =~= schema_version_reason(saved_query.schema_version));
        return Err(QueryEngineError::SavedQuerySchemaVersionMismatch { reason });
    }
    if saved_query.id.is_empty() {
        return Err(malformed(ValidationError::EmptySavedQueryId));
    }
    if saved_query.name.as_str().is_empty() {
        return Err(malformed(ValidationError::EmptySavedQueryName));
    }
    if saved_query.version.value() == 0 {
        return Err(malformed(ValidationError::ZeroSavedQueryVersion));
    }
    if saved_query.owner.as_str().is_empty() {
        return Err(malformed(ValidationError::EmptySavedQueryOwner));
    }
    if saved_query.access_permission_scope.as_str().is_empty() {
        return Err(malformed(ValidationError::EmptySavedQueryAccessPermissionScope));
    }
    if saved_query.change_history.len() == 0 {
        return Err(malformed(ValidationError::EmptySavedQueryChangeHistory));
    }
    match check_history(&saved_query.change_history) {
        Err(e) => {
            return Err(e);
        },
        Ok(()) => {},
    }
    validate_query_definition(&saved_query.query_definition)
}

/// The first failure of a context package request, if any.
pub open spec fn context_package_failure(request: ContextPackageRequest) -> Option<ValidationError> {
    if request.package_id@.len() == 0 {
        Some(ValidationError::EmptyContextPackageId)
    } else if request.max_items == 0 {
        Some(ValidationError::ZeroContextPackageItemLimit)
    } else if request.max_depth == 0 {
        Some(ValidationError::ZeroContextPackageDepthLimit)
    } else {
        execution_request_failure(request.execution_request)
    }
}

/// Checks a context package request and the execution request it wraps.
pub fn validate_context_package_request(request: &ContextPackageRequest) -> (r: Result<(), QueryEngineError>)
    ensures
        r is Ok <==> context_package_failure(*request) is None,
        r matches Err(e) ==> e == (QueryEngineError::MalformedQuery { failure: context_package_failure(*request).unwrap() }),
{
    if request.package_id.is_empty() {
        return Err(malformed(ValidationError::EmptyContextPackageId));
    }
    if request.max_items == 0 {
        return Err(malformed(ValidationError::ZeroContextPackageItemLimit));
    }
    if request.max_depth == 0 {
        return Err(malformed(ValidationError::ZeroContextPackageDepthLimit));
    }
    validate_query_execution_request(&request.execution_request)
}

/// The failure of branch `i` of an inquiry, if any; a branch identity that
/// an earlier branch already used is a duplicate.
pub open spec fn branch_failure(request: InquiryExecutionRequest, i: int) -> Option<ValidationError> {
    let b = request.branches@[i];
    if b.branch_id@.len() == 0 {
        Some(ValidationError::EmptyInquiryBranchId)
    } else if exists|j: int| 0 <= j < i && #[trigger] request.branches@[j].branch_id@ == b.branch_id@ {
        Some(ValidationError::DuplicateInquiryBranchId)
    } else if b.parent_inquiry_id@ != request.inquiry_id@ {
        Some(ValidationError::InquiryBranchParentMismatch)
    } else if b.purpose@.len() == 0 {
        Some(ValidationError::EmptyInquiryBranchPurpose)
    } else if b.result_id@.len() == 0 {
        Some(ValidationError::EmptyInquiryBranchResultId)
    } else if b.branch_depth == 0 {
        Some(ValidationError::ZeroInquiryBranchDepth)
    } else if b.branch_depth > request.policy.max_branch_depth {
        Some(ValidationError::InquiryBranchDepthLimitExceeded)
    } else if exists|k: int| 0 <= k < b.evidence_requirements@.len() && #[trigger] b.evidence_requirements@[k]@.len() == 0 {
        Some(ValidationError::EmptyInquiryEvidenceRequirement)
    } else {
        query_failure(b.query)
    }
}

/// The first branch failure from position `i` on.
pub open spec fn branches_failure_from(request: InquiryExecutionRequest, i: int) -> Option<ValidationError>
    decreases request.branches@.len() - i,
{
    if i < 0 || i >= request.branches@.len() {
        None
    } else if branch_failure(request, i) is Some {
        branch_failure(request, i)
    } else {
        branches_failure_from(request, i + 1)
    }
}

/// The first failure of an inquiry request, if any.
pub open spec fn inquiry_failure(request: InquiryExecutionRequest) -> Option<ValidationError> {
    if request.inquiry_id@.len() == 0 {
        Some(ValidationError::EmptyInquiryId)
    } else if request.context_package_id@.len() == 0 {
        Some(ValidationError::EmptyContextPackageId)
    } else if request.branches@.len() == 0 {
        Some(ValidationError::EmptyInquiryBranches)
    } else if request.policy.max_branch_count == 0 {
        Some(ValidationError::ZeroInquiryBranchCountLimit)
    } else if request.policy.max_branch_depth == 0 {
        Some(ValidationError::ZeroInquiryBranchDepthLimit)
    } else if request.branches@.len() > request.policy.max_branch_count {
        Some(ValidationError::InquiryBranchCountLimitExceeded)
    } else {
        branches_failure_from(request, 0)
    }
}

fn no_empty_requirement(requirements: &Vec<String>) -> (b: bool)
    ensures
        b == !(exists|k: int| 0 <= k < requirements@.len() && #[trigger] requirements@[k]@.len() == 0),
{
    let mut i: usize = 0;
    while i < requirements.len()
        invariant
            i <= requirements@.len(),
            forall|k: int| 0 <= k < i ==> (#[trigger] requirements@[k])@.len() > 0,
        decreases requirements@.len() - i,
    {
        if requirements[i].as_str().is_empty() {
            assert(requirements@[i as int]@.len() == 0);
            return false;
        }
        i = i + 1;
    }
    true
}

/// Checks a parallel inquiry request: its identities, its limits and each branch in order.
pub fn validate_inquiry_execution_request(request: &InquiryExecutionRequest) -> (r: Result<(), QueryEngineError>)
    ensures
        r is Ok <==> inquiry_failure(*request) is None,
        r matches Err(e) ==> e == (QueryEngineError::MalformedQuery { failure: inquiry_failure(*request).unwrap() }),
{
    if request.inquiry_id.is_empty() {
        return Err(malformed(ValidationError::EmptyInquiryId));
    }
    if request.context_package_id.is_empty() {
        return Err(malformed(ValidationError::EmptyContextPackageId));
    }
    if request.branches.len() == 0 {
        return Err(malformed(ValidationError::EmptyInquiryBranches));
    }
    if request.policy.max_branch_count == 0 {
        return Err(malformed(ValidationError::ZeroInquiryBranchCountLimit));
    }
    if request.policy.max_branch_depth == 0 {
        return Err(malformed(ValidationError::ZeroInquiryBranchDepthLimit));
    }
    if request.branches.len() > request.policy.max_branch_count {
        return Err(malformed(ValidationError::InquiryBranchCountLimitExceeded));
    }
    let mut seen: OrdSet<crate::query_types::InquiryBranchId> = OrdSet::new();
    let n = request.branches.len();
    let mut i: usize = 0;
    while i < n
        invariant
            n == request.branches@.len(),
            i <= n,
            inquiry_failure(*request) == branches_failure_from(*request, 0),
            branches_failure_from(*request, 0) == branches_failure_from(*request, i as int),
            forall|x: Seq<char>| #[trigger] seen.as_set().contains(x) <==> exists|j: int| 0 <= j < i
                && #[trigger] request.branches@[j].branch_id@ == x,
        decreases n - i,
    {
        let branch = &request.branches[i];
        if branch.branch_id.is_empty() {
            return Err(malformed(ValidationError::EmptyInquiryBranchId));
        }
        let added = seen.insert(branch.branch_id.clone());
        if !added {
            proof {
                let x = branch.branch_id@;
                assert(exists|j: int| 0 <= j < i && #[trigger] request.branches@[j].branch_id@ == x);
            }
            return Err(malformed(ValidationError::DuplicateInquiryBranchId));
        }
        if !str_eq(branch.parent_inquiry_id.as_str(), request.inquiry_id.as_str()) {
            return Err(malformed(ValidationError::InquiryBranchParentMismatch));
        }
        if branch.purpose.as_str().is_empty() {
            return Err(malformed(ValidationError::EmptyInquiryBranchPurpose));
        }
        if branch.result_id.is_empty() {
            return Err(malformed(ValidationError::EmptyInquiryBranchResultId));
        }
        if branch.branch_depth == 0 {
            return Err(malformed(ValidationError::ZeroInquiryBranchDepth));
        }
        if branch.branch_depth > request.policy.max_branch_depth {
            return Err(malformed(ValidationError::InquiryBranchDepthLimitExceeded));
        }
        if !no_empty_requirement(&branch.evidence_requirements) {
            return Err(malformed(ValidationError::EmptyInquiryEvidenceRequirement));
        }
        match validate_query_definition(&branch.query) {
            Err(e) => {
                return Err(e);
            },
            Ok(()) => {},
        }
        proof {
            assert forall|x: Seq<char>| #[trigger] seen.as_set().contains(x) <==> exists|j: int| 0 <= j < i + 1
                && #[trigger] request.branches@[j].branch_id@ == x by {
                if x == branch.branch_id@ {
                    assert(request.branches@[i as int].branch_id@ == x);
                }
                if exists|j: int| 0 <= j < i + 1 && #[trigger] request.branches@[j].branch_id@ == x {
                    let j = choose|j: int| 0 <= j < i + 1 && #[trigger] request.branches@[j].branch_id@ == x;
                    if j < i {
                        assert(exists|j2: int| 0 <= j2 < i && #[trigger] request.branches@[j2].branch_id@ == x);
                    }
                }
            }
        }
        i = i + 1;
    }
    Ok(())
}
} // verus!
