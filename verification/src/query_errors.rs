//! Structured Query Engine error taxonomy, with the message each error displays.
use vstd::prelude::*;
use crate::contracts::{reason_token, AuthorizationTarget, AuthorizationTargetView, ConsistencyBoundaryUnavailableReason};
use crate::query_limits::{limit_name, ExecutionLimitKind, QueryTimeout};
use crate::query_types::{capability_name, QuerySourceRef, SavedQueryId, SourceCapability};
use crate::text::{append_decimal, decimal, push_char, string_of};

verus! {

/// Structural query-definition failures.
#[derive(Clone, Copy, Debug, Eq, PartialEq, Structural)]
pub enum ValidationError {
    /// The query source reference is empty.
    EmptyQuerySource,
    /// The traversal maximum depth is zero.
    EmptyTraversalDepth,
    /// A traversal relation type is empty.
    EmptyTraversalRelationType,
    /// A point-in-time temporal scope has an empty point.
    EmptyTemporalPoint,
    /// A supplied temporal range bound is empty.
    EmptyTemporalRangeBound,
    /// A temporal range lower bound sorts after its upper bound.
    InvalidTemporalRange,
    /// An `And` or `Or` predicate has no children.
    EmptyPredicateBranch,
    /// A selected projection field is empty.
    EmptyProjectionField,
    /// A sort field is empty.
    EmptySortField,
    /// A group field is empty.
    EmptyGroupField,
    /// An aggregation alias is empty.
    EmptyAggregationAlias,
    /// A non-count aggregation has no input field.
    MissingAggregationField,
    /// A count aggregation supplies an input field.
    UnexpectedAggregationField,
    /// The result-count limit is zero.
    ZeroResultLimit,
    /// The evaluation-step limit is zero.
    ZeroEvaluationStepLimit,
    /// The timeout is zero.
    ZeroTimeout,
    /// The caller-supplied result identity is empty.
    EmptyQueryResultId,
    /// A supplied continuation token is empty.
    EmptyContinuationToken,
    /// The page size is zero.
    ZeroPageSize,
    /// The saved query identity is empty.
    EmptySavedQueryId,
    /// The saved query name is empty.
    EmptySavedQueryName,
    /// The saved query version is zero.
    ZeroSavedQueryVersion,
    /// The saved query owner is empty.
    EmptySavedQueryOwner,
    /// The saved query access permission scope is empty.
    EmptySavedQueryAccessPermissionScope,
    /// The saved query change history is empty.
    EmptySavedQueryChangeHistory,
    /// A saved query change has an empty actor.
    EmptySavedQueryChangeActor,
    /// A saved query change has an empty timestamp.
    EmptySavedQueryChangeTimestamp,
    /// The context package identity is empty.
    EmptyContextPackageId,
    /// The context package item limit is zero.
    ZeroContextPackageItemLimit,
    /// The context package depth limit is zero.
    ZeroContextPackageDepthLimit,
    /// The inquiry identity is empty.
    EmptyInquiryId,
    /// The inquiry defines no branch.
    EmptyInquiryBranches,
    /// The inquiry branch-count limit is zero.
    ZeroInquiryBranchCountLimit,
    /// The inquiry branch-depth limit is zero.
    ZeroInquiryBranchDepthLimit,
    /// The inquiry has more branches than the policy allows.
    InquiryBranchCountLimitExceeded,
    /// An inquiry branch identity is empty.
    EmptyInquiryBranchId,
    /// Two inquiry branches share an identity.
    DuplicateInquiryBranchId,
    /// An inquiry branch names another parent inquiry.
    InquiryBranchParentMismatch,
    /// An inquiry branch purpose is empty.
    EmptyInquiryBranchPurpose,
    /// An inquiry branch result identity is empty.
    EmptyInquiryBranchResultId,
    /// An inquiry branch depth is zero.
    ZeroInquiryBranchDepth,
    /// An inquiry branch is deeper than the policy allows.
    InquiryBranchDepthLimitExceeded,
    /// An inquiry branch evidence requirement is empty.
    EmptyInquiryEvidenceRequirement,
}

/// The message a validation failure displays.
pub open spec fn validation_message(f: ValidationError) -> Seq<char> {
    match f {
        ValidationError::EmptyQuerySource => "query source must not be empty"@,
        ValidationError::EmptyTraversalDepth => "traversal max depth must be greater than zero"@,
        ValidationError::EmptyTraversalRelationType => "traversal relation type must not be empty"@,
        ValidationError::EmptyTemporalPoint => "temporal point must not be empty"@,
        ValidationError::EmptyTemporalRangeBound => "temporal range bound must not be empty when supplied"@,
        ValidationError::InvalidTemporalRange => "temporal range lower bound must not sort after upper bound"@,
        ValidationError::EmptyPredicateBranch => "predicate branch must not be empty"@,
        ValidationError::EmptyProjectionField => "projection field must not be empty"@,
        ValidationError::EmptySortField => "sort field must not be empty"@,
        ValidationError::EmptyGroupField => "group field must not be empty"@,
        ValidationError::EmptyAggregationAlias => "aggregation alias must not be empty"@,
        ValidationError::MissingAggregationField => "aggregation function requires an input field"@,
        ValidationError::UnexpectedAggregationField => "count aggregation must not supply an input field"@,
        ValidationError::ZeroResultLimit => "result limit must be greater than zero"@,
        ValidationError::ZeroEvaluationStepLimit => "evaluation step limit must be greater than zero"@,
        ValidationError::ZeroTimeout => "timeout must be greater than zero"@,
        ValidationError::EmptyQueryResultId => "query result identity must not be empty"@,
        ValidationError::EmptyContinuationToken => "continuation token must not be empty"@,
        ValidationError::ZeroPageSize => "page size must be greater than zero"@,
        ValidationError::EmptySavedQueryId => "saved query identity must not be empty"@,
        ValidationError::EmptySavedQueryName => "saved query name must not be empty"@,
        ValidationError::ZeroSavedQueryVersion => "saved query version must be greater than zero"@,
        ValidationError::EmptySavedQueryOwner => "saved query owner must not be empty"@,
        ValidationError::EmptySavedQueryAccessPermissionScope => "saved query access permission scope must not be empty"@,
        ValidationError::EmptySavedQueryChangeHistory => "saved query change history must not be empty"@,
        ValidationError::EmptySavedQueryChangeActor => "saved query change actor must not be empty"@,
        ValidationError::EmptySavedQueryChangeTimestamp => "saved query change timestamp must not be empty"@,
        ValidationError::EmptyContextPackageId => "context package identity must not be empty"@,
        ValidationError::ZeroContextPackageItemLimit => "context package item limit must be greater than zero"@,
        ValidationError::ZeroContextPackageDepthLimit => "context package depth limit must be greater than zero"@,
        ValidationError::EmptyInquiryId => "inquiry identity must not be empty"@,
        ValidationError::EmptyInquiryBranches => "inquiry must define at least one branch"@,
        ValidationError::ZeroInquiryBranchCountLimit => "inquiry branch count limit must be greater than zero"@,
        ValidationError::ZeroInquiryBranchDepthLimit => "inquiry branch depth limit must be greater than zero"@,
        ValidationError::InquiryBranchCountLimitExceeded => "inquiry branch count exceeds the policy limit"@,
        ValidationError::EmptyInquiryBranchId => "inquiry branch identity must not be empty"@,
        ValidationError::DuplicateInquiryBranchId => "inquiry branch identity must be unique"@,
        ValidationError::InquiryBranchParentMismatch => "inquiry branch parent must match the inquiry"@,
        ValidationError::EmptyInquiryBranchPurpose => "inquiry branch purpose must not be empty"@,
        ValidationError::EmptyInquiryBranchResultId => "inquiry branch result identity must not be empty"@,
        ValidationError::ZeroInquiryBranchDepth => "inquiry branch depth must be greater than zero"@,
        ValidationError::InquiryBranchDepthLimitExceeded => "inquiry branch depth exceeds the policy limit"@,
        ValidationError::EmptyInquiryEvidenceRequirement => "inquiry evidence requirement must not be empty"@,
    }
}

impl ValidationError {
    /// Returns the message this failure displays.
    pub fn message(&self) -> (r: &'static str)
        ensures
            r@ == validation_message(*self),
    {
        match self {
            ValidationError::EmptyQuerySource => "query source must not be empty",
            ValidationError::EmptyTraversalDepth => "traversal max depth must be greater than zero",
            ValidationError::EmptyTraversalRelationType => "traversal relation type must not be empty",
            ValidationError::EmptyTemporalPoint => "temporal point must not be empty",
            ValidationError::EmptyTemporalRangeBound => "temporal range bound must not be empty when supplied",
            ValidationError::InvalidTemporalRange => "temporal range lower bound must not sort after upper bound",
            ValidationError::EmptyPredicateBranch => "predicate branch must not be empty",
            ValidationError::EmptyProjectionField => "projection field must not be empty",
            ValidationError::EmptySortField => "sort field must not be empty",
            ValidationError::EmptyGroupField => "group field must not be empty",
            ValidationError::EmptyAggregationAlias => "aggregation alias must not be empty",
            ValidationError::MissingAggregationField => "aggregation function requires an input field",
            ValidationError::UnexpectedAggregationField => "count aggregation must not supply an input field",
            ValidationError::ZeroResultLimit => "result limit must be greater than zero",
            ValidationError::ZeroEvaluationStepLimit => "evaluation step limit must be greater than zero",
            ValidationError::ZeroTimeout => "timeout must be greater than zero",
            ValidationError::EmptyQueryResultId => "query result identity must not be empty",
            ValidationError::EmptyContinuationToken => "continuation token must not be empty",
            ValidationError::ZeroPageSize => "page size must be greater than zero",
            ValidationError::EmptySavedQueryId => "saved query identity must not be empty",
            ValidationError::EmptySavedQueryName => "saved query name must not be empty",
            ValidationError::ZeroSavedQueryVersion => "saved query version must be greater than zero",
            ValidationError::EmptySavedQueryOwner => "saved query owner must not be empty",
            ValidationError::EmptySavedQueryAccessPermissionScope => "saved query access permission scope must not be empty",
            ValidationError::EmptySavedQueryChangeHistory => "saved query change history must not be empty",
            ValidationError::EmptySavedQueryChangeActor => "saved query change actor must not be empty",
            ValidationError::EmptySavedQueryChangeTimestamp => "saved query change timestamp must not be empty",
            ValidationError::EmptyContextPackageId => "context package identity must not be empty",
            ValidationError::ZeroContextPackageItemLimit => "context package item limit must be greater than zero",
            ValidationError::ZeroContextPackageDepthLimit => "context package depth limit must be greater than zero",
            ValidationError::EmptyInquiryId => "inquiry identity must not be empty",
            ValidationError::EmptyInquiryBranches => "inquiry must define at least one branch",
            ValidationError::ZeroInquiryBranchCountLimit => "inquiry branch count limit must be greater than zero",
            ValidationError::ZeroInquiryBranchDepthLimit => "inquiry branch depth limit must be greater than zero",
            ValidationError::InquiryBranchCountLimitExceeded => "inquiry branch count exceeds the policy limit",
            ValidationError::EmptyInquiryBranchId => "inquiry branch identity must not be empty",
            ValidationError::DuplicateInquiryBranchId => "inquiry branch identity must be unique",
            ValidationError::InquiryBranchParentMismatch => "inquiry branch parent must match the inquiry",
            ValidationError::EmptyInquiryBranchPurpose => "inquiry branch purpose must not be empty",
            ValidationError::EmptyInquiryBranchResultId => "inquiry branch result identity must not be empty",
            ValidationError::ZeroInquiryBranchDepth => "inquiry branch depth must be greater than zero",
            ValidationError::InquiryBranchDepthLimitExceeded => "inquiry branch depth exceeds the policy limit",
            ValidationError::EmptyInquiryEvidenceRequirement => "inquiry evidence requirement must not be empty",
        }
    }
}

/// Query Engine errors.
#[derive(Debug)]
pub enum QueryEngineError {
    /// The query definition is structurally malformed.
    MalformedQuery {
        /// Specific validation failure.
        failure: ValidationError,
    },
    /// A field is not declared by the source schema.
    InvalidField {
        /// The undeclared field.
        field: String,
    },
    /// The query names a source the provider does not serve.
    UnknownSource {
        /// The unknown source.
        source: QuerySourceRef,
    },
    /// The source does not support a capability the query uses.
    UnsupportedCapability {
        /// The source.
        source: QuerySourceRef,
        /// The unsupported capability.
        capability: SourceCapability,
    },
    /// An execution limit was exceeded.
    ExecutionLimitExceeded {
        /// The exceeded limit.
        limit: ExecutionLimitKind,
    },
    /// The deterministic timeout elapsed.
    Timeout {
        /// The timeout.
        timeout: QueryTimeout,
    },
    /// Execution was cancelled.
    Cancelled,
    /// The authorization provider failed.
    AuthorizationProviderUnavailable {
        /// The provider's message.
        message: String,
    },
    /// Access to a target was denied.
    PermissionDenied {
        /// The denied target.
        target: AuthorizationTarget,
    },
    /// The source is unavailable.
    SourceUnavailable {
        /// The source.
        source: QuerySourceRef,
        /// The source's message.
        message: String,
    },
    /// The source could not supply its consistency boundary.
    ConsistencyBoundaryUnavailable {
        /// The source.
        source: QuerySourceRef,
        /// Why the boundary is unavailable.
        reason: ConsistencyBoundaryUnavailableReason,
    },
    /// The source returned an invalid record.
    InvalidSourceRecord {
        /// The source.
        source: QuerySourceRef,
        /// The record identity.
        record_id: String,
        /// Why the record is invalid.
        reason: String,
    },
    /// Execution could not complete.
    IncompleteExecution {
        /// Why execution is incomplete.
        reason: String,
    },
    /// A saved query has another schema version.
    SavedQuerySchemaVersionMismatch {
        /// The mismatch.
        reason: String,
    },
    /// A continuation cursor is invalid.
    InvalidCursor {
        /// Why the cursor is invalid.
        reason: String,
    },
    /// A continuation cursor has expired.
    ExpiredCursor {
        /// Why the cursor expired.
        reason: String,
    },
    /// No execution strategy is available.
    ExecutionStrategyUnavailable {
        /// Why no strategy is available.
        reason: String,
    },
    /// A saved query does not exist or is hidden from the caller.
    SavedQueryNotFound {
        /// The saved query identity.
        saved_query_id: SavedQueryId,
    },
    /// The saved query catalog failed.
    SavedQueryCatalogUnavailable {
        /// The catalog's message.
        message: String,
    },
}

/// Abstract contents of a Query Engine error.
pub enum QueryEngineErrorView {
    MalformedQuery { failure: ValidationError },
    InvalidField { field: Seq<char> },
    UnknownSource { source: Seq<char> },
    UnsupportedCapability { source: Seq<char>, capability: SourceCapability },
    ExecutionLimitExceeded { limit: ExecutionLimitKind },
    Timeout { timeout: QueryTimeout },
    Cancelled,
    AuthorizationProviderUnavailable { message: Seq<char> },
    PermissionDenied { target: AuthorizationTargetView },
    SourceUnavailable { source: Seq<char>, message: Seq<char> },
    ConsistencyBoundaryUnavailable { source: Seq<char>, reason: ConsistencyBoundaryUnavailableReason },
    InvalidSourceRecord { source: Seq<char>, record_id: Seq<char>, reason: Seq<char> },
    IncompleteExecution { reason: Seq<char> },
    SavedQuerySchemaVersionMismatch { reason: Seq<char> },
    InvalidCursor { reason: Seq<char> },
    ExpiredCursor { reason: Seq<char> },
    ExecutionStrategyUnavailable { reason: Seq<char> },
    SavedQueryNotFound { saved_query_id: Seq<char> },
    SavedQueryCatalogUnavailable { message: Seq<char> },
}

impl View for QueryEngineError {
    type V = QueryEngineErrorView;

    open spec fn view(&self) -> QueryEngineErrorView {
        match self {
            QueryEngineError::MalformedQuery { failure } => QueryEngineErrorView::MalformedQuery { failure: *failure },
            QueryEngineError::InvalidField { field } => QueryEngineErrorView::InvalidField { field: field@ },
            QueryEngineError::UnknownSource { source } => QueryEngineErrorView::UnknownSource { source: source@ },
            QueryEngineError::UnsupportedCapability { source, capability } =>
                QueryEngineErrorView::UnsupportedCapability { source: source@, capability: *capability },
            QueryEngineError::ExecutionLimitExceeded { limit } => QueryEngineErrorView::ExecutionLimitExceeded {
                limit: *limit,
            },
            QueryEngineError::Timeout { timeout } => QueryEngineErrorView::Timeout { timeout: *timeout },
            QueryEngineError::Cancelled => QueryEngineErrorView::Cancelled,
            QueryEngineError::AuthorizationProviderUnavailable { message } =>
                QueryEngineErrorView::AuthorizationProviderUnavailable { message: message@ },
            QueryEngineError::PermissionDenied { target } => QueryEngineErrorView::PermissionDenied {
                target: target@,
            },
            QueryEngineError::SourceUnavailable { source, message } => QueryEngineErrorView::SourceUnavailable {
                source: source@,
                message: message@,
            },
            QueryEngineError::ConsistencyBoundaryUnavailable { source, reason } =>
                QueryEngineErrorView::ConsistencyBoundaryUnavailable { source: source@, reason: *reason },
            QueryEngineError::InvalidSourceRecord { source, record_id, reason } =>
                QueryEngineErrorView::InvalidSourceRecord { source: source@, record_id: record_id@, reason: reason@ },
            QueryEngineError::IncompleteExecution { reason } => QueryEngineErrorView::IncompleteExecution {
                reason: reason@,
            },
            QueryEngineError::SavedQuerySchemaVersionMismatch { reason } =>
                QueryEngineErrorView::SavedQuerySchemaVersionMismatch { reason: reason@ },
            QueryEngineError::InvalidCursor { reason } => QueryEngineErrorView::InvalidCursor { reason: reason@ },
            QueryEngineError::ExpiredCursor { reason } => QueryEngineErrorView::ExpiredCursor { reason: reason@ },
            QueryEngineError::ExecutionStrategyUnavailable { reason } =>
                QueryEngineErrorView::ExecutionStrategyUnavailable { reason: reason@ },
            QueryEngineError::SavedQueryNotFound { saved_query_id } => QueryEngineErrorView::SavedQueryNotFound {
                saved_query_id: saved_query_id@,
            },
            QueryEngineError::SavedQueryCatalogUnavailable { message } =>
                QueryEngineErrorView::SavedQueryCatalogUnavailable { message: message@ },
        }
    }
}

impl QueryEngineErrorView {
    /// The message the error displays.
    pub open spec fn message(self) -> Seq<char> {
        match self {
            QueryEngineErrorView::MalformedQuery { failure } => "malformed query: "@ + validation_message(failure),
            QueryEngineErrorView::InvalidField { field } => "invalid query field: "@ + field,
            QueryEngineErrorView::UnknownSource { source } => "unknown query source: "@ + source,
            QueryEngineErrorView::UnsupportedCapability { source, capability } => "query source "@ + source
                + " does not support "@ + capability_name(capability),
            QueryEngineErrorView::ExecutionLimitExceeded { limit } => "query execution limit exceeded: "@
                + limit_name(limit),
            QueryEngineErrorView::Timeout { timeout } => "query timed out after "@ + decimal(timeout.millis() as nat)
                + " ms"@,
            QueryEngineErrorView::Cancelled => "query cancelled"@,
            QueryEngineErrorView::AuthorizationProviderUnavailable { message } =>
                "authorization provider unavailable: "@ + message,
            QueryEngineErrorView::PermissionDenied { target } => "permission denied for "@ + target.source_namespace
                + ":"@ + target.object_type + ":"@ + target.object_identifier,
            QueryEngineErrorView::SourceUnavailable { source, message } => "query source "@ + source
                + " unavailable: "@ + message,
            QueryEngineErrorView::ConsistencyBoundaryUnavailable { source, reason } => "query source "@ + source
                + " could not supply consistency boundary: "@ + reason_token(reason),
            QueryEngineErrorView::InvalidSourceRecord { source, record_id, reason } => "query source "@ + source
                + " returned invalid record "@ + record_id + ": "@ + reason,
            QueryEngineErrorView::IncompleteExecution { reason } => "query execution incomplete: "@ + reason,
            QueryEngineErrorView::SavedQuerySchemaVersionMismatch { reason } =>
                "saved query schema-version mismatch: "@ + reason,
            QueryEngineErrorView::InvalidCursor { reason } => "invalid cursor: "@ + reason,
            QueryEngineErrorView::ExpiredCursor { reason } => "expired cursor: "@ + reason,
            QueryEngineErrorView::ExecutionStrategyUnavailable { reason } => "execution strategy unavailable: "@
                + reason,
            QueryEngineErrorView::SavedQueryNotFound { saved_query_id } => "saved query not found: "@
                + saved_query_id,
            QueryEngineErrorView::SavedQueryCatalogUnavailable { message } =>
                "saved query catalog unavailable: "@ + message,
        }
    }
}

fn joined(prefix: &str, rest: &str) -> (r: String)
    ensures
        r@ == prefix@ + rest@,
{
    let mut s = string_of(prefix);
    s.append(rest);
    s
}

impl QueryEngineError {
    /// Returns the message this error displays.
    pub fn to_message(&self) -> (r: String)
        ensures
            r@ == self@.message(),
    {
        let ghost v = self@;
        match self {
            QueryEngineError::MalformedQuery { failure } => joined("malformed query: ", failure.message()),
            QueryEngineError::InvalidField { field } => joined("invalid query field: ", field.as_str()),
            QueryEngineError::UnknownSource { source } => joined("unknown query source: ", source.as_str()),
            QueryEngineError::UnsupportedCapability { source, capability } => {
                let mut s = joined("query source ", source.as_str());
                s.append(" does not support ");
                s.append(capability.name());
                s
            },
            QueryEngineError::ExecutionLimitExceeded { limit } => joined(
                "query execution limit exceeded: ",
                limit.name(),
            ),
            QueryEngineError::Timeout { timeout } => {
                let mut s = string_of("query timed out after ");
                append_decimal(&mut s, timeout.milliseconds());
                s.append(" ms");
                assert(s@ =~= v.message());
                s
            },
            QueryEngineError::Cancelled => string_of("query cancelled"),
            QueryEngineError::AuthorizationProviderUnavailable { message } => joined(
                "authorization provider unavailable: ",
                message.as_str(),
            ),
            QueryEngineError::PermissionDenied { target } => {
                let mut s = joined("permission denied for ", target.source_namespace());
                s.append(":");
                s.append(target.object_type());
                s.append(":");
                s.append(target.object_identifier());
                s
            },
            QueryEngineError::SourceUnavailable { source, message } => {
                let mut s = joined("query source ", source.as_str());
                s.append(" unavailable: ");
                s.append(message.as_str());
                s
            },
            QueryEngineError::ConsistencyBoundaryUnavailable { source, reason } => {
                let mut s = joined("query source ", source.as_str());
                s.append(" could not supply consistency boundary: ");
                s.append(reason.canonical_token());
                s
            },
            QueryEngineError::InvalidSourceRecord { source, record_id, reason } => {
                let mut s = joined("query source ", source.as_str());
                s.append(" returned invalid record ");
                s.append(record_id.as_str());
                s.append(": ");
                s.append(reason.as_str());
                s
            },
            QueryEngineError::IncompleteExecution { reason } => joined("query execution incomplete: ", reason.as_str()),
            QueryEngineError::SavedQuerySchemaVersionMismatch { reason } => joined(
                "saved query schema-version mismatch: ",
                reason.as_str(),
            ),
            QueryEngineError::InvalidCursor { reason } => joined("invalid cursor: ", reason.as_str()),
            QueryEngineError::ExpiredCursor { reason } => joined("expired cursor: ", reason.as_str()),
            QueryEngineError::ExecutionStrategyUnavailable { reason } => joined(
                "execution strategy unavailable: ",
                reason.as_str(),
            ),
            QueryEngineError::SavedQueryNotFound { saved_query_id } => joined(
                "saved query not found: ",
                saved_query_id.as_str(),
            ),
            QueryEngineError::SavedQueryCatalogUnavailable { message } => joined(
                "saved query catalog unavailable: ",
                message.as_str(),
            ),
        }
    }
}

} // verus!
