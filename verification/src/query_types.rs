//! Query Engine data contracts: sources and capabilities, query
//! definitions, source records, results and their provenance, saved queries,
//! context packages and inquiries.
use vstd::prelude::*;
use crate::collections::{OrdMap, OrdSet, OrderedKey};
use crate::contracts::{clone_opt_string, opt_view, AuthorizationTarget, AuthorizationTargetView,
    CallerPermissionContext, ConsistencyBoundary, PropertyValue, PropertyValueKind, PropertyValueView,
    Version};
use crate::query_limits::ExecutionLimits;
use crate::text::{chars_lt, compare_chars, lemma_chars_lt_irreflexive, lemma_chars_lt_total,
    lemma_chars_lt_transitive, KeyOrder};

verus! {

/// Opaque reference to a query source.
#[derive(Debug, Eq, PartialEq, Ord, PartialOrd, Hash)]
pub struct QuerySourceRef(String);

impl View for QuerySourceRef {
    type V = Seq<char>;

    closed spec fn view(&self) -> Seq<char> {
        self.0@
    }
}

impl Clone for QuerySourceRef {
    fn clone(&self) -> (r: Self)
        ensures
            r@ == self@,
    {
        QuerySourceRef(self.0.clone())
    }
}

impl QuerySourceRef {
    /// Creates a query source reference.
    pub fn new(value: &str) -> (r: Self)
        ensures
            r@ == value@,
    {
        QuerySourceRef(String::from_str(value))
    }

    /// Returns the source token.
    pub fn as_str(&self) -> (r: &str)
        ensures
            r@ == self@,
    {
        self.0.as_str()
    }

    /// Reports whether the source token is empty.
    pub fn is_empty(&self) -> (b: bool)
        ensures
            b == (self@.len() == 0),
    {
        self.0.as_str().is_empty()
    }

    /// Returns the token as an owned string, as its display form.
    pub fn to_string(&self) -> (r: String)
        ensures
            r@ == self@,
    {
        self.0.clone()
    }
}

/// Caller-supplied identity of a query result.
#[derive(Debug, Eq, PartialEq, Ord, PartialOrd, Hash)]
pub struct QueryResultId(String);

impl View for QueryResultId {
    type V = Seq<char>;

    closed spec fn view(&self) -> Seq<char> {
        self.0@
    }
}

impl Clone for QueryResultId {
    fn clone(&self) -> (r: Self)
        ensures
            r@ == self@,
    {
        QueryResultId(self.0.clone())
    }
}

impl QueryResultId {
    /// Creates a query result identity.
    pub fn new(value: &str) -> (r: Self)
        ensures
            r@ == value@,
    {
        QueryResultId(String::from_str(value))
    }

    /// Returns the result identity token.
    pub fn as_str(&self) -> (r: &str)
        ensures
            r@ == self@,
    {
        self.0.as_str()
    }

    /// Reports whether the result identity token is empty.
    pub fn is_empty(&self) -> (b: bool)
        ensures
            b == (self@.len() == 0),
    {
        self.0.as_str().is_empty()
    }

    /// Returns the token as an owned string, as its display form.
    pub fn to_string(&self) -> (r: String)
        ensures
            r@ == self@,
    {
        self.0.clone()
    }
}

/// Identity of a saved query.
#[derive(Debug, Eq, PartialEq, Ord, PartialOrd, Hash)]
pub struct SavedQueryId(String);

impl View for SavedQueryId {
    type V = Seq<char>;

    closed spec fn view(&self) -> Seq<char> {
        self.0@
    }
}

impl Clone for SavedQueryId {
    fn clone(&self) -> (r: Self)
        ensures
            r@ == self@,
    {
        SavedQueryId(self.0.clone())
    }
}

impl SavedQueryId {
    /// Creates a saved query identity.
    pub fn new(value: &str) -> (r: Self)
        ensures
            r@ == value@,
    {
        SavedQueryId(String::from_str(value))
    }

    /// Returns the saved query identity token.
    pub fn as_str(&self) -> (r: &str)
        ensures
            r@ == self@,
    {
        self.0.as_str()
    }

    /// Reports whether the saved query identity token is empty.
    pub fn is_empty(&self) -> (b: bool)
        ensures
            b == (self@.len() == 0),
    {
        self.0.as_str().is_empty()
    }

    /// Returns the token as an owned string, as its display form.
    pub fn to_string(&self) -> (r: String)
        ensures
            r@ == self@,
    {
        self.0.clone()
    }
}

impl OrderedKey for SavedQueryId {
    type KeyView = Seq<char>;

    open spec fn key_view(&self) -> Seq<char> {
        self@
    }

    open spec fn view_lt(a: Seq<char>, b: Seq<char>) -> bool {
        chars_lt(a, b)
    }

    proof fn lemma_view_lt_irreflexive(a: Seq<char>) {
        lemma_chars_lt_irreflexive(a);
    }

    proof fn lemma_view_lt_transitive(a: Seq<char>, b: Seq<char>, c: Seq<char>) {
        lemma_chars_lt_transitive(a, b, c);
    }

    proof fn lemma_view_lt_total(a: Seq<char>, b: Seq<char>) {
        lemma_chars_lt_total(a, b);
    }

    fn compare_key(&self, other: &Self) -> (r: KeyOrder) {
        compare_chars(self.0.as_str(), other.0.as_str())
    }

    fn copy_key(&self) -> (r: Self) {
        self.clone()
    }
}

/// Identity of a context package.
#[derive(Debug, Eq, PartialEq, Ord, PartialOrd, Hash)]
pub struct ContextPackageId(String);

impl View for ContextPackageId {
    type V = Seq<char>;

    closed spec fn view(&self) -> Seq<char> {
        self.0@
    }
}

impl Clone for ContextPackageId {
    fn clone(&self) -> (r: Self)
        ensures
            r@ == self@,
    {
        ContextPackageId(self.0.clone())
    }
}

impl ContextPackageId {
    /// Creates a context package identity.
    pub fn new(value: &str) -> (r: Self)
        ensures
            r@ == value@,
    {
        ContextPackageId(String::from_str(value))
    }

    /// Returns the context package identity token.
    pub fn as_str(&self) -> (r: &str)
        ensures
            r@ == self@,
    {
        self.0.as_str()
    }

    /// Reports whether the context package identity token is empty.
    pub fn is_empty(&self) -> (b: bool)
        ensures
            b == (self@.len() == 0),
    {
        self.0.as_str().is_empty()
    }

    /// Returns the token as an owned string, as its display form.
    pub fn to_string(&self) -> (r: String)
        ensures
            r@ == self@,
    {
        self.0.clone()
    }
}

/// Identity of a parallel inquiry.
#[derive(Debug, Eq, PartialEq, Ord, PartialOrd, Hash)]
pub struct InquiryId(String);

impl View for InquiryId {
    type V = Seq<char>;

    closed spec fn view(&self) -> Seq<char> {
        self.0@
    }
}

impl Clone for InquiryId {
    fn clone(&self) -> (r: Self)
        ensures
            r@ == self@,
    {
        InquiryId(self.0.clone())
    }
}

impl InquiryId {
    /// Creates an inquiry identity.
    pub fn new(value: &str) -> (r: Self)
        ensures
            r@ == value@,
    {
        InquiryId(String::from_str(value))
    }

    /// Returns the inquiry identity token.
    pub fn as_str(&self) -> (r: &str)
        ensures
            r@ == self@,
    {
        self.0.as_str()
    }

    /// Reports whether the inquiry identity token is empty.
    pub fn is_empty(&self) -> (b: bool)
        ensures
            b == (self@.len() == 0),
    {
        self.0.as_str().is_empty()
    }

    /// Returns the token as an owned string, as its display form.
    pub fn to_string(&self) -> (r: String)
        ensures
            r@ == self@,
    {
        self.0.clone()
    }
}

/// Identity of one inquiry branch.
#[derive(Debug, Eq, PartialEq, Ord, PartialOrd, Hash)]
pub struct InquiryBranchId(String);

impl View for InquiryBranchId {
    type V = Seq<char>;

    closed spec fn view(&self) -> Seq<char> {
        self.0@
    }
}

impl Clone for InquiryBranchId {
    fn clone(&self) -> (r: Self)
        ensures
            r@ == self@,
    {
        InquiryBranchId(self.0.clone())
    }
}

impl InquiryBranchId {
    /// Creates an inquiry branch identity.
    pub fn new(value: &str) -> (r: Self)
        ensures
            r@ == value@,
    {
        InquiryBranchId(String::from_str(value))
    }

    /// Returns the inquiry branch identity token.
    pub fn as_str(&self) -> (r: &str)
        ensures
            r@ == self@,
    {
        self.0.as_str()
    }

    /// Reports whether the inquiry branch identity token is empty.
    pub fn is_empty(&self) -> (b: bool)
        ensures
            b == (self@.len() == 0),
    {
        self.0.as_str().is_empty()
    }

    /// Returns the token as an owned string, as its display form.
    pub fn to_string(&self) -> (r: String)
        ensures
            r@ == self@,
    {
        self.0.clone()
    }
}

impl OrderedKey for InquiryBranchId {
    type KeyView = Seq<char>;

    open spec fn key_view(&self) -> Seq<char> {
        self@
    }

    open spec fn view_lt(a: Seq<char>, b: Seq<char>) -> bool {
        chars_lt(a, b)
    }

    proof fn lemma_view_lt_irreflexive(a: Seq<char>) {
        lemma_chars_lt_irreflexive(a);
    }

    proof fn lemma_view_lt_transitive(a: Seq<char>, b: Seq<char>, c: Seq<char>) {
        lemma_chars_lt_transitive(a, b, c);
    }

    proof fn lemma_view_lt_total(a: Seq<char>, b: Seq<char>) {
        lemma_chars_lt_total(a, b);
    }

    fn compare_key(&self, other: &Self) -> (r: KeyOrder) {
        compare_chars(self.0.as_str(), other.0.as_str())
    }

    fn copy_key(&self) -> (r: Self) {
        self.clone()
    }
}

/// Opaque continuation token of a paginated result.
#[derive(Debug, Eq, PartialEq, Ord, PartialOrd, Hash)]
pub struct ContinuationToken(String);

impl View for ContinuationToken {
    type V = Seq<char>;

    closed spec fn view(&self) -> Seq<char> {
        self.0@
    }
}

impl Clone for ContinuationToken {
    fn clone(&self) -> (r: Self)
        ensures
            r@ == self@,
    {
        ContinuationToken(self.0.clone())
    }
}

impl ContinuationToken {
    /// Creates a continuation token.
    pub fn new(value: &str) -> (r: Self)
        ensures
            r@ == value@,
    {
        ContinuationToken(String::from_str(value))
    }

    /// Returns the continuation token.
    pub fn as_str(&self) -> (r: &str)
        ensures
            r@ == self@,
    {
        self.0.as_str()
    }

    /// Reports whether the continuation token is empty.
    pub fn is_empty(&self) -> (b: bool)
        ensures
            b == (self@.len() == 0),
    {
        self.0.as_str().is_empty()
    }

    /// Returns the token as an owned string, as its display form.
    pub fn to_string(&self) -> (r: String)
        ensures
            r@ == self@,
    {
        self.0.clone()
    }
}

/// A capability that a query source may support.
#[derive(Clone, Copy, Debug, Eq, PartialEq, Structural)]
pub enum SourceCapability {
    /// Temporal scopes other than the current state.
    TemporalScope,
    /// Relation traversal.
    Traversal,
    /// Predicates.
    Predicate,
    /// Field projection.
    Projection,
    /// Sorting.
    Sorting,
    /// Grouping.
    Grouping,
    /// Aggregation.
    Aggregation,
}

/// The display name of a capability.
pub open spec fn capability_name(c: SourceCapability) -> Seq<char> {
    match c {
        SourceCapability::TemporalScope => "temporal scope"@,
        SourceCapability::Traversal => "traversal"@,
        SourceCapability::Predicate => "predicate"@,
        SourceCapability::Projection => "projection"@,
        SourceCapability::Sorting => "sorting"@,
        SourceCapability::Grouping => "grouping"@,
        SourceCapability::Aggregation => "aggregation"@,
    }
}

impl SourceCapability {
    /// Returns the display name of the capability.
    pub fn name(&self) -> (r: &'static str)
        ensures
            r@ == capability_name(*self),
    {
        match self {
            SourceCapability::TemporalScope => "temporal scope",
            SourceCapability::Traversal => "traversal",
            SourceCapability::Predicate => "predicate",
            SourceCapability::Projection => "projection",
            SourceCapability::Sorting => "sorting",
            SourceCapability::Grouping => "grouping",
            SourceCapability::Aggregation => "aggregation",
        }
    }
}

/// The capabilities a query source declares.
#[derive(Clone, Copy, Debug, Eq, PartialEq, Structural)]
pub struct SourceCapabilities {
    /// Whether temporal scopes other than the current state are supported.
    pub temporal_scope: bool,
    /// Whether traversal is supported.
    pub traversal: bool,
    /// Whether predicates are supported.
    pub predicates: bool,
    /// Whether projection is supported.
    pub projection: bool,
    /// Whether sorting is supported.
    pub sorting: bool,
    /// Whether grouping is supported.
    pub grouping: bool,
    /// Whether aggregation is supported.
    pub aggregation: bool,
}

impl SourceCapabilities {
    /// No capability.
    pub fn none() -> (r: Self)
        ensures
            !r.temporal_scope && !r.traversal && !r.predicates && !r.projection && !r.sorting && !r.grouping
                && !r.aggregation,
    {
        SourceCapabilities {
            temporal_scope: false,
            traversal: false,
            predicates: false,
            projection: false,
            sorting: false,
            grouping: false,
            aggregation: false,
        }
    }

    /// Every capability.
    pub fn all() -> (r: Self)
        ensures
            r.temporal_scope && r.traversal && r.predicates && r.projection && r.sorting && r.grouping
                && r.aggregation,
    {
        SourceCapabilities {
            temporal_scope: true,
            traversal: true,
            predicates: true,
            projection: true,
            sorting: true,
            grouping: true,
            aggregation: true,
        }
    }
}

impl Default for SourceCapabilities {
    fn default() -> (r: Self)
        ensures
            !r.temporal_scope && !r.traversal && !r.predicates && !r.projection && !r.sorting && !r.grouping
                && !r.aggregation,
    {
        SourceCapabilities::none()
    }
}

/// Lifecycle status of a saved query.
#[derive(Clone, Copy, Debug, Eq, PartialEq, Ord, PartialOrd, Hash, Structural)]
pub enum SavedQueryValidationStatus {
    /// Draft definition.
    Draft,
    /// Reviewed definition.
    Reviewed,
    /// Approved for regulated use.
    ApprovedForRegulatedUse,
    /// Retired definition.
    Retired,
}

/// Classification of a result item.
#[derive(Clone, Copy, Debug, Eq, PartialEq, Ord, PartialOrd, Hash, Structural)]
pub enum ResultClassification {
    /// A fact read from a source.
    SourceFact,
    /// A value computed by the query.
    ComputedValue,
    /// A statistical correlation.
    StatisticalCorrelation,
    /// An AI-generated hypothesis.
    AiGeneratedHypothesis,
    /// A conclusion approved by a human.
    HumanApprovedConclusion,
}

/// Direction of a relation traversal.
#[derive(Clone, Copy, Debug, Eq, PartialEq, Structural)]
pub enum TraversalDirection {
    /// Follow outbound relations.
    Outbound,
    /// Follow inbound relations.
    Inbound,
    /// Follow relations in both directions.
    Both,
}

/// Sort direction.
#[derive(Clone, Copy, Debug, Eq, PartialEq, Structural)]
pub enum SortDirection {
    /// Ascending order.
    Ascending,
    /// Descending order.
    Descending,
}

/// Aggregation function.
#[derive(Clone, Copy, Debug, Eq, PartialEq, Structural)]
pub enum AggregationFunction {
    /// Number of records.
    Count,
    /// Sum of numeric values.
    Sum,
    /// Average of numeric values.
    Average,
    /// Least value.
    Min,
    /// Greatest value.
    Max,
    /// Number of distinct values.
    DistinctCount,
}

/// Whether a result may be returned when a consistency slot is unavailable.
#[derive(Clone, Copy, Debug, Eq, PartialEq, Structural)]
pub enum PartialResultPolicy {
    /// Reject the query.
    RejectPartial,
    /// Return the result marked incomplete.
    AllowIncomplete,
}

/// How a result is meant to be presented.
#[derive(Clone, Copy, Debug, Eq, PartialEq, Structural)]
pub enum PresentationType {
    /// A set of records.
    RecordSet,
    /// A linked-object view.
    LinkedObjectView,
    /// A timeline.
    Timeline,
    /// A chart-ready series.
    ChartReadySeries,
    /// A matrix.
    Matrix,
    /// A set of document references.
    DocumentReferenceSet,
    /// An evidence package.
    EvidencePackage,
}


/// Version of the saved-query schema this library reads and writes.
pub const CURRENT_SAVED_QUERY_SCHEMA_VERSION: u32 = 1;

/// Abstract contents of a temporal scope.
pub enum TemporalScopeView {
    Current,
    PointInTime { at: Seq<char> },
    TimeRange { from: Option<Seq<char>>, to: Option<Seq<char>> },
    AllHistory,
}

/// Temporal scope of a query.
#[derive(Debug)]
pub enum TemporalScope {
    /// The current state.
    Current,
    /// The state at one point in time.
    PointInTime {
        /// The point in time.
        at: String,
    },
    /// The states within a time range.
    TimeRange {
        /// Optional lower bound.
        from: Option<String>,
        /// Optional upper bound.
        to: Option<String>,
    },
    /// The whole history.
    AllHistory,
}

impl View for TemporalScope {
    type V = TemporalScopeView;

    open spec fn view(&self) -> TemporalScopeView {
        match self {
            TemporalScope::Current => TemporalScopeView::Current,
            TemporalScope::PointInTime { at } => TemporalScopeView::PointInTime { at: at@ },
            TemporalScope::TimeRange { from, to } => TemporalScopeView::TimeRange {
                from: opt_view(*from),
                to: opt_view(*to),
            },
            TemporalScope::AllHistory => TemporalScopeView::AllHistory,
        }
    }
}

impl Clone for TemporalScope {
    fn clone(&self) -> (r: Self)
        ensures
            r@ == self@,
    {
        match self {
            TemporalScope::Current => TemporalScope::Current,
            TemporalScope::PointInTime { at } => TemporalScope::PointInTime { at: at.clone() },
            TemporalScope::TimeRange { from, to } => TemporalScope::TimeRange {
                from: clone_opt_string(from),
                to: clone_opt_string(to),
            },
            TemporalScope::AllHistory => TemporalScope::AllHistory,
        }
    }
}

/// Abstract contents of a predicate.
pub enum PredicateView {
    AlwaysTrue,
    Equals { field: Seq<char>, value: PropertyValueView },
    Exists { field: Seq<char> },
    Range { field: Seq<char>, lower: Option<PropertyValueView>, upper: Option<PropertyValueView> },
    And(Seq<PredicateView>),
    Or(Seq<PredicateView>),
    Not(Box<PredicateView>),
}

/// A structured record predicate.
#[derive(Debug)]
pub enum Predicate {
    /// Matches every record.
    AlwaysTrue,
    /// The field is present and equal to the value.
    Equals {
        /// Field name.
        field: String,
        /// Expected value.
        value: PropertyValue,
    },
    /// The field is present.
    Exists {
        /// Field name.
        field: String,
    },
    /// The field is present and within the optional inclusive bounds.
    Range {
        /// Field name.
        field: String,
        /// Optional inclusive lower bound.
        lower: Option<PropertyValue>,
        /// Optional inclusive upper bound.
        upper: Option<PropertyValue>,
    },
    /// Every child matches.
    And(Vec<Predicate>),
    /// Some child matches.
    Or(Vec<Predicate>),
    /// The child does not match.
    Not(Box<Predicate>),
}

/// An optional value by its view.
pub open spec fn opt_value_view(v: Option<PropertyValue>) -> Option<PropertyValueView> {
    match v {
        Some(x) => Some(x@),
        None => None,
    }
}

/// The abstract contents of a predicate.
pub open spec fn predicate_view(p: Predicate) -> PredicateView
    decreases p,
{
    match p {
        Predicate::AlwaysTrue => PredicateView::AlwaysTrue,
        Predicate::Equals { field, value } => PredicateView::Equals { field: field@, value: value@ },
        Predicate::Exists { field } => PredicateView::Exists { field: field@ },
        Predicate::Range { field, lower, upper } => PredicateView::Range {
            field: field@,
            lower: opt_value_view(lower),
            upper: opt_value_view(upper),
        },
        Predicate::And(children) => PredicateView::And(
            Seq::new(
                children@.len(),
                |i: int|
                    if 0 <= i < children.len() {
                        predicate_view(children[i])
                    } else {
                        PredicateView::AlwaysTrue
                    },
            ),
        ),
        Predicate::Or(children) => PredicateView::Or(
            Seq::new(
                children@.len(),
                |i: int|
                    if 0 <= i < children.len() {
                        predicate_view(children[i])
                    } else {
                        PredicateView::AlwaysTrue
                    },
            ),
        ),
        Predicate::Not(child) => PredicateView::Not(Box::new(predicate_view(*child))),
    }
}

fn clone_opt_value(v: &Option<PropertyValue>) -> (r: Option<PropertyValue>)
    ensures
        opt_value_view(r) == opt_value_view(*v),
{
    match v {
        Some(x) => Some(x.clone()),
        None => None,
    }
}

/// Copies a predicate and all of its children.
pub fn copy_predicate(p: &Predicate) -> (r: Predicate)
    ensures
        predicate_view(r) == predicate_view(*p),
    decreases p,
{
    match p {
        Predicate::AlwaysTrue => Predicate::AlwaysTrue,
        Predicate::Equals { field, value } => Predicate::Equals { field: field.clone(), value: value.clone() },
        Predicate::Exists { field } => Predicate::Exists { field: field.clone() },
        Predicate::Range { field, lower, upper } => Predicate::Range {
            field: field.clone(),
            lower: clone_opt_value(lower),
            upper: clone_opt_value(upper),
        },
        Predicate::And(children) => {
            let out = copy_predicates(children);
            proof {
                let a = predicate_view(Predicate::And(out));
                let b = predicate_view(*p);
                assert(a->And_0.len() == b->And_0.len());
                assert forall|i: int| 0 <= i < a->And_0.len() implies a->And_0[i] == b->And_0[i] by {
                    assert(a->And_0[i] == predicate_view(out@[i]));
                    assert(b->And_0[i] == predicate_view(children@[i]));
                }
                assert(a->And_0 =~= b->And_0);
            }
            Predicate::And(out)
        },
        Predicate::Or(children) => {
            let out = copy_predicates(children);
            proof {
                let a = predicate_view(Predicate::Or(out));
                let b = predicate_view(*p);
                assert(a->Or_0.len() == b->Or_0.len());
                assert forall|i: int| 0 <= i < a->Or_0.len() implies a->Or_0[i] == b->Or_0[i] by {
                    assert(a->Or_0[i] == predicate_view(out@[i]));
                    assert(b->Or_0[i] == predicate_view(children@[i]));
                }
                assert(a->Or_0 =~= b->Or_0);
            }
            Predicate::Or(out)
        },
        Predicate::Not(child) => Predicate::Not(Box::new(copy_predicate(child))),
    }
}

/// Copies a list of predicates.
pub fn copy_predicates(children: &Vec<Predicate>) -> (r: Vec<Predicate>)
    ensures
        r@.len() == children@.len(),
        forall|i: int| 0 <= i < children@.len() ==> predicate_view(#[trigger] r@[i]) == predicate_view(children@[i]),
    decreases children,
{
    let mut out: Vec<Predicate> = Vec::new();
    let n = children.len();
    let mut i: usize = 0;
    while i < n
        invariant
            n == children@.len(),
            i <= n,
            out@.len() == i,
            forall|j: int| 0 <= j < i ==> predicate_view(#[trigger] out@[j]) == predicate_view(children@[j]),
        decreases n - i,
    {
        proof {
            assert(decreases_to!(children => children[i as int]));
        }
        out.push(copy_predicate(&children[i]));
        i = i + 1;
    }
    out
}

impl Clone for Predicate {
    fn clone(&self) -> (r: Self)
        ensures
            predicate_view(r) == predicate_view(*self),
    {
        copy_predicate(self)
    }
}

/// Abstract contents of a projection: `None` for every field, else the
/// selected fields in ascending order.
pub type ProjectionView = Option<Seq<Seq<char>>>;

/// Which fields a result item carries.
#[derive(Debug)]
pub enum Projection {
    /// Every field.
    AllFields,
    /// Only the selected fields.
    SelectedFields(OrdSet<String>),
}

impl View for Projection {
    type V = Option<Seq<Seq<char>>>;

    open spec fn view(&self) -> Option<Seq<Seq<char>>> {
        match self {
            Projection::AllFields => None,
            Projection::SelectedFields(fields) => Some(fields.keys()),
        }
    }
}

impl Clone for Projection {
    fn clone(&self) -> (r: Self)
        ensures
            r@ == self@,
    {
        match self {
            Projection::AllFields => Projection::AllFields,
            Projection::SelectedFields(fields) => Projection::SelectedFields(fields.copy()),
        }
    }
}

/// One sort key of a query.
#[derive(Debug)]
pub struct SortSpec {
    /// Field to sort by.
    pub field: String,
    /// Sort direction.
    pub direction: SortDirection,
}

impl View for SortSpec {
    type V = (Seq<char>, SortDirection);

    open spec fn view(&self) -> (Seq<char>, SortDirection) {
        (self.field@, self.direction)
    }
}

impl Clone for SortSpec {
    fn clone(&self) -> (r: Self)
        ensures
            r@ == self@,
    {
        SortSpec { field: self.field.clone(), direction: self.direction }
    }
}

impl SortSpec {
    /// Creates a sort key.
    pub fn new(field: &str, direction: SortDirection) -> (r: Self)
        ensures
            r@ == (field@, direction),
    {
        SortSpec { field: String::from_str(field), direction }
    }
}

/// Grouping of a query's records.
#[derive(Debug)]
pub struct GroupSpec {
    /// Fields whose values form the group key.
    pub fields: OrdSet<String>,
}

impl GroupSpec {
    /// Creates a grouping.
    pub fn new(fields: OrdSet<String>) -> (r: Self)
        ensures
            r.fields == fields,
    {
        GroupSpec { fields }
    }
}

impl Clone for GroupSpec {
    fn clone(&self) -> (r: Self)
        ensures
            r.fields.keys() == self.fields.keys(),
    {
        GroupSpec { fields: self.fields.copy() }
    }
}

/// Abstract contents of an aggregation.
pub struct AggregationSpecView {
    pub function: AggregationFunction,
    pub field: Option<Seq<char>>,
    pub alias: Seq<char>,
}

/// One aggregation of a query.
#[derive(Debug)]
pub struct AggregationSpec {
    /// The function.
    pub function: AggregationFunction,
    /// The input field; none for `Count`.
    pub field: Option<String>,
    /// The output field name.
    pub alias: String,
}

impl View for AggregationSpec {
    type V = AggregationSpecView;

    open spec fn view(&self) -> AggregationSpecView {
        AggregationSpecView { function: self.function, field: opt_view(self.field), alias: self.alias@ }
    }
}

impl Clone for AggregationSpec {
    fn clone(&self) -> (r: Self)
        ensures
            r@ == self@,
    {
        AggregationSpec { function: self.function, field: clone_opt_string(&self.field), alias: self.alias.clone() }
    }
}

impl AggregationSpec {
    /// Creates an aggregation.
    pub fn new(function: AggregationFunction, field: Option<String>, alias: &str) -> (r: Self)
        ensures
            r@ == (AggregationSpecView { function, field: opt_view(field), alias: alias@ }),
    {
        AggregationSpec { function, field, alias: String::from_str(alias) }
    }
}

/// Abstract contents of a traversal.
pub struct TraversalSpecView {
    pub direction: TraversalDirection,
    pub max_depth: usize,
    pub relation_types: Seq<Seq<char>>,
}

/// Relation traversal of a query.
#[derive(Debug)]
pub struct TraversalSpec {
    /// Direction to follow.
    pub direction: TraversalDirection,
    /// Maximum depth.
    pub max_depth: usize,
    /// Relation types to follow.
    pub relation_types: OrdSet<String>,
}

impl View for TraversalSpec {
    type V = TraversalSpecView;

    open spec fn view(&self) -> TraversalSpecView {
        TraversalSpecView {
            direction: self.direction,
            max_depth: self.max_depth,
            relation_types: self.relation_types.keys(),
        }
    }
}

impl Clone for TraversalSpec {
    fn clone(&self) -> (r: Self)
        ensures
            r@ == self@,
    {
        TraversalSpec {
            direction: self.direction,
            max_depth: self.max_depth,
            relation_types: self.relation_types.copy(),
        }
    }
}

impl TraversalSpec {
    /// Creates a traversal.
    pub fn new(direction: TraversalDirection, max_depth: usize, relation_types: OrdSet<String>) -> (r: Self)
        ensures
            r.direction == direction,
            r.max_depth == max_depth,
            r.relation_types == relation_types,
    {
        TraversalSpec { direction, max_depth, relation_types }
    }
}

/// A stable ordering key: a list of string segments, compared lexicographically.
#[derive(Debug)]
pub struct StableOrderingKey {
    segments: Vec<String>,
}

/// The views of a list of strings.
pub open spec fn strings_view(v: Seq<String>) -> Seq<Seq<char>> {
    v.map_values(|s: String| s@)
}

impl View for StableOrderingKey {
    type V = Seq<Seq<char>>;

    closed spec fn view(&self) -> Seq<Seq<char>> {
        strings_view(self.segments@)
    }
}

/// Copies a list of strings.
pub fn copy_strings(v: &Vec<String>) -> (r: Vec<String>)
    ensures
        strings_view(r@) == strings_view(v@),
{
    let r = v.clone();
    assert(strings_view(r@) =~= strings_view(v@));
    r
}

impl Clone for StableOrderingKey {
    fn clone(&self) -> (r: Self)
        ensures
            r@ == self@,
    {
        StableOrderingKey { segments: copy_strings(&self.segments) }
    }
}

impl StableOrderingKey {
    /// Creates an ordering key from its segments.
    pub fn new(segments: Vec<String>) -> (r: Self)
        ensures
            r@ == strings_view(segments@),
    {
        StableOrderingKey { segments }
    }

    /// Returns the segments.
    pub fn segments(&self) -> (r: &Vec<String>)
        ensures
            strings_view(r@) == self@,
    {
        &self.segments
    }

    /// Reports whether the key has no segment.
    pub fn is_empty(&self) -> (b: bool)
        ensures
            b == (self@.len() == 0),
    {
        self.segments.len() == 0
    }
}

/// The fields a source declares, with their kinds.
#[derive(Debug)]
pub struct QuerySchema {
    /// Declared fields and their kinds.
    pub fields: OrdMap<String, PropertyValueKind>,
}

impl QuerySchema {
    /// Creates a schema.
    pub fn new(fields: OrdMap<String, PropertyValueKind>) -> (r: Self)
        ensures
            r.fields == fields,
    {
        QuerySchema { fields }
    }

    /// Reports whether the schema declares a field.
    pub fn contains_field(&self, field: &str) -> (b: bool)
        ensures
            b == self.fields.as_map().contains_key(field@),
    {
        let key = String::from_str(field);
        self.fields.contains_key(&key)
    }
}

impl Default for QuerySchema {
    fn default() -> (r: Self)
        ensures
            r.fields.as_map() == Map::<Seq<char>, PropertyValueKind>::empty(),
    {
        QuerySchema { fields: OrdMap::new() }
    }
}

/// Abstract contents of a query definition.
pub struct QueryDefinitionView {
    pub source: Seq<char>,
    pub temporal_scope: TemporalScopeView,
    pub predicate: Option<PredicateView>,
    pub projection: Option<Seq<Seq<char>>>,
    pub sort: Seq<(Seq<char>, SortDirection)>,
    pub group: Option<Seq<Seq<char>>>,
    pub aggregations: Seq<AggregationSpecView>,
    pub traversal: Option<TraversalSpecView>,
    pub partial_result_policy: PartialResultPolicy,
    pub presentation_type: PresentationType,
    pub execution_limits: ExecutionLimits,
}

/// The view of an optional predicate.
pub open spec fn opt_predicate_view(p: Option<Predicate>) -> Option<PredicateView> {
    match p {
        Some(x) => Some(predicate_view(x)),
        None => None,
    }
}

/// The views of a list.
pub open spec fn seq_view<T: View>(s: Seq<T>) -> Seq<T::V> {
    s.map_values(|x: T| x@)
}

/// A structured query over one source.
#[derive(Debug)]
pub struct QueryDefinition {
    /// The source to read.
    pub source: QuerySourceRef,
    /// The temporal scope.
    pub temporal_scope: TemporalScope,
    /// Optional record predicate.
    pub predicate: Option<Predicate>,
    /// Field projection.
    pub projection: Projection,
    /// Sort keys, most significant first.
    pub sort: Vec<SortSpec>,
    /// Optional grouping.
    pub group: Option<GroupSpec>,
    /// Aggregations.
    pub aggregations: Vec<AggregationSpec>,
    /// Optional relation traversal.
    pub traversal: Option<TraversalSpec>,
    /// What to do when a consistency slot is unavailable.
    pub partial_result_policy: PartialResultPolicy,
    /// How the result is meant to be presented.
    pub presentation_type: PresentationType,
    /// Execution limits.
    pub execution_limits: ExecutionLimits,
}

impl View for QueryDefinition {
    type V = QueryDefinitionView;

    open spec fn view(&self) -> QueryDefinitionView {
        QueryDefinitionView {
            source: self.source@,
            temporal_scope: self.temporal_scope@,
            predicate: opt_predicate_view(self.predicate),
            projection: self.projection@,
            sort: seq_view(self.sort@),
            group: match self.group {
                Some(g) => Some(g.fields.keys()),
                None => None,
            },
            aggregations: seq_view(self.aggregations@),
            traversal: match self.traversal {
                Some(t) => Some(t@),
                None => None,
            },
            partial_result_policy: self.partial_result_policy,
            presentation_type: self.presentation_type,
            execution_limits: self.execution_limits,
        }
    }
}

/// Copies a list of sort keys.
fn copy_sort(v: &Vec<SortSpec>) -> (r: Vec<SortSpec>)
    ensures
        seq_view(r@) == seq_view(v@),
{
    let mut out: Vec<SortSpec> = Vec::new();
    let mut i: usize = 0;
    while i < v.len()
        invariant
            i <= v@.len(),
            out@.len() == i,
            forall|j: int| 0 <= j < i ==> (#[trigger] out@[j])@ == v@[j]@,
        decreases v@.len() - i,
    {
        out.push(v[i].clone());
        i = i + 1;
    }
    assert(seq_view(out@) =~= seq_view(v@));
    out
}

/// Copies a list of aggregations.
fn copy_aggregations(v: &Vec<AggregationSpec>) -> (r: Vec<AggregationSpec>)
    ensures
        seq_view(r@) == seq_view(v@),
{
    let mut out: Vec<AggregationSpec> = Vec::new();
    let mut i: usize = 0;
    while i < v.len()
        invariant
            i <= v@.len(),
            out@.len() == i,
            forall|j: int| 0 <= j < i ==> (#[trigger] out@[j])@ == v@[j]@,
        decreases v@.len() - i,
    {
        out.push(v[i].clone());
        i = i + 1;
    }
    assert(seq_view(out@) =~= seq_view(v@));
    out
}

impl Clone for QueryDefinition {
    fn clone(&self) -> (r: Self)
        ensures
            r@ == self@,
    {
        let predicate = match &self.predicate {
            Some(p) => Some(copy_predicate(p)),
            None => None,
        };
        let group = match &self.group {
            Some(g) => Some(g.clone()),
            None => None,
        };
        let traversal = match &self.traversal {
            Some(t) => Some(t.clone()),
            None => None,
        };
        QueryDefinition {
            source: self.source.clone(),
            temporal_scope: self.temporal_scope.clone(),
            predicate,
            projection: self.projection.clone(),
            sort: copy_sort(&self.sort),
            group,
            aggregations: copy_aggregations(&self.aggregations),
            traversal,
            partial_result_policy: self.partial_result_policy,
            presentation_type: self.presentation_type,
            execution_limits: self.execution_limits,
        }
    }
}

impl QueryDefinition {
    /// Creates a query over every field of a source, without predicate,
    /// sorting, grouping or aggregation, and without execution limits.
    pub fn new(
        source: QuerySourceRef,
        temporal_scope: TemporalScope,
        traversal: Option<TraversalSpec>,
        partial_result_policy: PartialResultPolicy,
        presentation_type: PresentationType,
    ) -> (r: Self)
        ensures
            r.source@ == source@,
            r.temporal_scope@ == temporal_scope@,
            r.predicate is None,
            r.projection is AllFields,
            r.sort@.len() == 0,
            r.group is None,
            r.aggregations@.len() == 0,
            r.traversal == traversal,
            r.partial_result_policy == partial_result_policy,
            r.presentation_type == presentation_type,
            r.execution_limits.max_result_count is None,
            r.execution_limits.max_evaluation_steps is None,
            r.execution_limits.timeout is None,
    {
        QueryDefinition {
            source,
            temporal_scope,
            predicate: None,
            projection: Projection::AllFields,
            sort: Vec::new(),
            group: None,
            aggregations: Vec::new(),
            traversal,
            partial_result_policy,
            presentation_type,
            execution_limits: ExecutionLimits::unbounded(),
        }
    }

    /// Returns the query with a predicate.
    pub fn with_predicate(self, predicate: Predicate) -> (r: Self)
        ensures
            r == (QueryDefinition { predicate: Some(predicate), ..self }),
    {
        QueryDefinition { predicate: Some(predicate), ..self }
    }

    /// Returns the query with a projection.
    pub fn with_projection(self, projection: Projection) -> (r: Self)
        ensures
            r == (QueryDefinition { projection, ..self }),
    {
        QueryDefinition { projection, ..self }
    }

    /// Returns the query with sort keys.
    pub fn with_sort(self, sort: Vec<SortSpec>) -> (r: Self)
        ensures
            r == (QueryDefinition { sort, ..self }),
    {
        QueryDefinition { sort, ..self }
    }

    /// Returns the query with a grouping.
    pub fn with_group(self, group: GroupSpec) -> (r: Self)
        ensures
            r == (QueryDefinition { group: Some(group), ..self }),
    {
        QueryDefinition { group: Some(group), ..self }
    }

    /// Returns the query with aggregations.
    pub fn with_aggregations(self, aggregations: Vec<AggregationSpec>) -> (r: Self)
        ensures
            r == (QueryDefinition { aggregations, ..self }),
    {
        QueryDefinition { aggregations, ..self }
    }

    /// Returns the query with execution limits.
    pub fn with_execution_limits(self, execution_limits: ExecutionLimits) -> (r: Self)
        ensures
            r == (QueryDefinition { execution_limits, ..self }),
    {
        QueryDefinition { execution_limits, ..self }
    }
}


/// One entry of a saved query's change history.
#[derive(Debug)]
pub struct SavedQueryChange {
    /// Who made the change.
    pub actor: String,
    /// When the change was made.
    pub changed_at: String,
    /// Why the change was made.
    pub reason: String,
}

impl View for SavedQueryChange {
    type V = (Seq<char>, Seq<char>, Seq<char>);

    open spec fn view(&self) -> (Seq<char>, Seq<char>, Seq<char>) {
        (self.actor@, self.changed_at@, self.reason@)
    }
}

impl Clone for SavedQueryChange {
    fn clone(&self) -> (r: Self)
        ensures
            r@ == self@,
    {
        SavedQueryChange { actor: self.actor.clone(), changed_at: self.changed_at.clone(), reason: self.reason.clone() }
    }
}

impl SavedQueryChange {
    /// Creates a change-history entry.
    pub fn new(actor: &str, changed_at: &str, reason: &str) -> (r: Self)
        ensures
            r@ == (actor@, changed_at@, reason@),
    {
        SavedQueryChange {
            actor: String::from_str(actor),
            changed_at: String::from_str(changed_at),
            reason: String::from_str(reason),
        }
    }
}

/// A reusable, versioned query definition with its governance metadata.
#[derive(Debug)]
pub struct SavedQueryDefinition {
    /// Saved-query schema version.
    pub schema_version: u32,
    /// Saved query identity.
    pub id: SavedQueryId,
    /// Display name.
    pub name: String,
    /// Saved query version.
    pub version: Version,
    /// Owner.
    pub owner: String,
    /// Permission scope governing access.
    pub access_permission_scope: String,
    /// Validation status.
    pub validation_status: SavedQueryValidationStatus,
    /// Change history.
    pub change_history: Vec<SavedQueryChange>,
    /// The stored query.
    pub query_definition: QueryDefinition,
}

impl SavedQueryDefinition {
    /// Creates a saved query at the current schema version.
    pub fn new(
        id: SavedQueryId,
        name: &str,
        version: Version,
        owner: &str,
        access_permission_scope: &str,
        validation_status: SavedQueryValidationStatus,
        change_history: Vec<SavedQueryChange>,
        query_definition: QueryDefinition,
    ) -> (r: Self)
        ensures
            r.schema_version == CURRENT_SAVED_QUERY_SCHEMA_VERSION,
            r.id@ == id@,
            r.name@ == name@,
            r.version == version,
            r.owner@ == owner@,
            r.access_permission_scope@ == access_permission_scope@,
            r.validation_status == validation_status,
            r.change_history == change_history,
            r.query_definition == query_definition,
    {
        SavedQueryDefinition {
            schema_version: CURRENT_SAVED_QUERY_SCHEMA_VERSION,
            id,
            name: String::from_str(name),
            version,
            owner: String::from_str(owner),
            access_permission_scope: String::from_str(access_permission_scope),
            validation_status,
            change_history,
            query_definition,
        }
    }

    /// The authorization target of this saved query.
    pub fn authorization_target(&self) -> (r: AuthorizationTarget)
        ensures
            r@ == saved_query_target(self.id@),
    {
        saved_query_authorization_target(&self.id)
    }
}

/// The authorization target of a saved query.
pub open spec fn saved_query_target(id: Seq<char>) -> AuthorizationTargetView {
    AuthorizationTargetView {
        source_namespace: "query-engine"@,
        object_type: "saved-query"@,
        object_identifier: id,
        subresource: None,
    }
}

/// Returns the authorization target of a saved query.
pub fn saved_query_authorization_target(saved_query_id: &SavedQueryId) -> (r: AuthorizationTarget)
    ensures
        r@ == saved_query_target(saved_query_id@),
{
    AuthorizationTarget::new("query-engine", "saved-query", saved_query_id.as_str())
}

/// Request to execute a saved query.
#[derive(Debug)]
pub struct SavedQueryExecutionRequest {
    /// The saved query to execute.
    pub saved_query_id: SavedQueryId,
    /// The caller's permission context.
    pub caller_context: CallerPermissionContext,
    /// The caller-supplied result identity.
    pub result_id: QueryResultId,
}

impl SavedQueryExecutionRequest {
    /// Creates a saved-query execution request.
    pub fn new(saved_query_id: SavedQueryId, caller_context: CallerPermissionContext, result_id: QueryResultId) -> (r:
        Self)
        ensures
            r.saved_query_id@ == saved_query_id@,
            r.caller_context@ == caller_context@,
            r.result_id@ == result_id@,
    {
        SavedQueryExecutionRequest { saved_query_id, caller_context, result_id }
    }
}

/// Page selection of a query execution.
#[derive(Debug)]
pub struct Pagination {
    /// Continuation token of the previous page, if any.
    pub after: Option<ContinuationToken>,
    /// Optional page size.
    pub max_items: Option<usize>,
}

impl Pagination {
    /// The whole result as one page.
    pub fn unpaged() -> (r: Self)
        ensures
            r.after is None,
            r.max_items is None,
    {
        Pagination { after: None, max_items: None }
    }

    /// The first page of at most `max_items` items.
    pub fn first_page(max_items: usize) -> (r: Self)
        ensures
            r.after is None,
            r.max_items == Some(max_items),
    {
        Pagination { after: None, max_items: Some(max_items) }
    }

    /// The page after a continuation token, of at most `max_items` items.
    pub fn after(token: ContinuationToken, max_items: usize) -> (r: Self)
        ensures
            r.after == Some(token),
            r.max_items == Some(max_items),
    {
        Pagination { after: Some(token), max_items: Some(max_items) }
    }
}

/// Request to execute one query.
#[derive(Debug)]
pub struct QueryExecutionRequest {
    /// The query.
    pub query: QueryDefinition,
    /// The caller's permission context.
    pub caller_context: CallerPermissionContext,
    /// The caller-supplied result identity.
    pub result_id: QueryResultId,
    /// Page selection.
    pub pagination: Pagination,
}

impl QueryExecutionRequest {
    /// Creates an unpaged execution request.
    pub fn new(query: QueryDefinition, caller_context: CallerPermissionContext, result_id: QueryResultId) -> (r: Self)
        ensures
            r.query == query,
            r.caller_context@ == caller_context@,
            r.result_id@ == result_id@,
            r.pagination.after is None,
            r.pagination.max_items is None,
    {
        QueryExecutionRequest { query, caller_context, result_id, pagination: Pagination::unpaged() }
    }

    /// Returns the request with a page selection.
    pub fn with_pagination(self, pagination: Pagination) -> (r: Self)
        ensures
            r == (QueryExecutionRequest { pagination, ..self }),
    {
        QueryExecutionRequest { pagination, ..self }
    }
}

/// Abstract contents of a source record.
pub struct QueryRecordView {
    pub source: Seq<char>,
    pub record_type: Seq<char>,
    pub record_id: Seq<char>,
    pub ordering_key: Seq<Seq<char>>,
    pub field_keys: Seq<Seq<char>>,
    pub fields: Map<Seq<char>, PropertyValueView>,
    pub timestamps: Map<Seq<char>, Seq<char>>,
    pub source_version: Option<u64>,
    pub permission_scope: Option<Seq<char>>,
    pub integrity: Option<Seq<char>>,
    pub classification: ResultClassification,
}

/// The view of an optional version.
pub open spec fn opt_version_view(v: Option<Version>) -> Option<u64> {
    match v {
        Some(x) => Some(x@),
        None => None,
    }
}

/// The view of a map of strings.
pub open spec fn string_map_view(m: OrdMap<String, String>) -> Map<Seq<char>, Seq<char>> {
    m.as_map().map_values(|v: String| v@)
}

/// A record read from a query source.
#[derive(Debug)]
pub struct QueryRecord {
    /// The source the record was read from.
    pub source: QuerySourceRef,
    /// The record type.
    pub record_type: String,
    /// The record identity.
    pub record_id: String,
    /// Stable ordering key.
    pub ordering_key: StableOrderingKey,
    /// Field values.
    pub fields: OrdMap<String, PropertyValue>,
    /// Named timestamps.
    pub timestamps: OrdMap<String, String>,
    /// Optional source version.
    pub source_version: Option<Version>,
    /// Optional permission scope.
    pub permission_scope: Option<String>,
    /// Optional integrity marker.
    pub integrity: Option<String>,
    /// Classification.
    pub classification: ResultClassification,
}

impl View for QueryRecord {
    type V = QueryRecordView;

    open spec fn view(&self) -> QueryRecordView {
        QueryRecordView {
            source: self.source@,
            record_type: self.record_type@,
            record_id: self.record_id@,
            ordering_key: self.ordering_key@,
            field_keys: self.fields.keys(),
            fields: crate::event_types::payload_view(self.fields),
            timestamps: string_map_view(self.timestamps),
            source_version: opt_version_view(self.source_version),
            permission_scope: opt_view(self.permission_scope),
            integrity: opt_view(self.integrity),
            classification: self.classification,
        }
    }
}

/// Copies a map of strings.
pub fn copy_string_map(m: &OrdMap<String, String>) -> (r: OrdMap<String, String>)
    ensures
        string_map_view(r) == string_map_view(*m),
{
    let r = m.clone();
    proof {
        m.lemma_shape();
        r.lemma_shape();
        assert forall|k: Seq<char>| #[trigger] r.as_map().contains_key(k) implies r.as_map()[k]@ == m.as_map()[k]@ by {
            let i = r.keys().index_of(k);
            r.lemma_value_at(i);
            m.lemma_value_at(i);
        }
        assert(string_map_view(r) =~= string_map_view(*m));
    }
    r
}

impl Clone for QueryRecord {
    fn clone(&self) -> (r: Self)
        ensures
            r@ == self@,
    {
        let fields = crate::event_types::copy_values(&self.fields);
        QueryRecord {
            source: self.source.clone(),
            record_type: self.record_type.clone(),
            record_id: self.record_id.clone(),
            ordering_key: self.ordering_key.clone(),
            fields,
            timestamps: copy_string_map(&self.timestamps),
            source_version: self.source_version,
            permission_scope: clone_opt_string(&self.permission_scope),
            integrity: clone_opt_string(&self.integrity),
            classification: self.classification,
        }
    }
}

impl QueryRecord {
    /// Creates a source-fact record without timestamps, version, scope or integrity marker.
    pub fn source_fact(
        source: QuerySourceRef,
        record_type: &str,
        record_id: &str,
        ordering_key: StableOrderingKey,
        fields: OrdMap<String, PropertyValue>,
    ) -> (r: Self)
        ensures
            r.source@ == source@,
            r.record_type@ == record_type@,
            r.record_id@ == record_id@,
            r.ordering_key@ == ordering_key@,
            r.fields == fields,
            r.timestamps.keys().len() == 0,
            r.source_version is None,
            r.permission_scope is None,
            r.integrity is None,
            r.classification == ResultClassification::SourceFact,
    {
        QueryRecord {
            source,
            record_type: String::from_str(record_type),
            record_id: String::from_str(record_id),
            ordering_key,
            fields,
            timestamps: OrdMap::new(),
            source_version: None,
            permission_scope: None,
            integrity: None,
            classification: ResultClassification::SourceFact,
        }
    }

    /// Returns the record with named timestamps.
    pub fn with_timestamps(self, timestamps: OrdMap<String, String>) -> (r: Self)
        ensures
            r == (QueryRecord { timestamps, ..self }),
    {
        QueryRecord { timestamps, ..self }
    }

    /// Returns the record with a source version.
    pub fn with_source_version(self, source_version: Version) -> (r: Self)
        ensures
            r == (QueryRecord { source_version: Some(source_version), ..self }),
    {
        QueryRecord { source_version: Some(source_version), ..self }
    }

    /// Returns the record with a permission scope.
    pub fn with_permission_scope(self, permission_scope: &str) -> (r: Self)
        ensures
            r.permission_scope is Some,
            opt_view(r.permission_scope) == Some(permission_scope@),
            r == (QueryRecord { permission_scope: r.permission_scope, ..self }),
    {
        QueryRecord { permission_scope: Some(String::from_str(permission_scope)), ..self }
    }

    /// Returns the record with an integrity marker.
    pub fn with_integrity(self, integrity: &str) -> (r: Self)
        ensures
            opt_view(r.integrity) == Some(integrity@),
            r == (QueryRecord { integrity: r.integrity, ..self }),
    {
        QueryRecord { integrity: Some(String::from_str(integrity)), ..self }
    }

    /// Returns the record with a classification.
    pub fn with_classification(self, classification: ResultClassification) -> (r: Self)
        ensures
            r == (QueryRecord { classification, ..self }),
    {
        QueryRecord { classification, ..self }
    }

    /// The authorization target of this record.
    pub fn authorization_target(&self) -> (r: AuthorizationTarget)
        ensures
            r@ == record_target(self@),
    {
        AuthorizationTarget::new(self.source.as_str(), self.record_type.as_str(), self.record_id.as_str())
    }
}

/// The authorization target of a record: its source, type and identity.
pub open spec fn record_target(r: QueryRecordView) -> AuthorizationTargetView {
    AuthorizationTargetView {
        source_namespace: r.source,
        object_type: r.record_type,
        object_identifier: r.record_id,
        subresource: None,
    }
}

/// Where a result item came from.
#[derive(Debug)]
pub struct ResultProvenance {
    /// The source.
    pub source: QuerySourceRef,
    /// The source record type, or `aggregate`.
    pub source_record_type: Option<String>,
    /// The identities of the source records.
    pub source_record_ids: OrdSet<String>,
    /// The query that produced the item.
    pub query_definition: QueryDefinition,
    /// Named timestamps of the source record.
    pub timestamps: OrdMap<String, String>,
    /// Optional source version.
    pub source_version: Option<Version>,
    /// Optional permission scope.
    pub permission_scope: Option<String>,
    /// Optional integrity marker.
    pub integrity: Option<String>,
    /// Optional access restriction.
    pub access_restriction: Option<String>,
}

/// One item of a query result.
#[derive(Debug)]
pub struct QueryResultItem {
    /// Stable ordering key.
    pub ordering_key: StableOrderingKey,
    /// Projected or computed fields.
    pub fields: OrdMap<String, PropertyValue>,
    /// Classification.
    pub classification: ResultClassification,
    /// Provenance.
    pub provenance: ResultProvenance,
}

/// Whether a result is complete.
#[derive(Debug)]
pub enum QueryCompleteness {
    /// Every consistency slot was available.
    Complete,
    /// Some slot was unavailable and partial results were allowed.
    Incomplete {
        /// Canonical token of the unavailability reason.
        reason: String,
    },
}

/// The result of one query execution.
#[derive(Debug)]
pub struct QueryResult {
    /// Caller-supplied result identity.
    pub id: QueryResultId,
    /// Result version.
    pub version: Version,
    /// The executed query.
    pub query_definition: QueryDefinition,
    /// The source's consistency boundary.
    pub consistency_boundary: ConsistencyBoundary,
    /// Presentation type.
    pub presentation_type: PresentationType,
    /// Items, in result order.
    pub items: Vec<QueryResultItem>,
    /// Completeness.
    pub completeness: QueryCompleteness,
}

/// Request to build a context package.
#[derive(Debug)]
pub struct ContextPackageRequest {
    /// Package identity.
    pub package_id: ContextPackageId,
    /// The query execution to wrap.
    pub execution_request: QueryExecutionRequest,
    /// Maximum number of items.
    pub max_items: usize,
    /// Maximum depth.
    pub max_depth: usize,
}

impl ContextPackageRequest {
    /// Creates a context package request.
    pub fn new(package_id: ContextPackageId, execution_request: QueryExecutionRequest, max_items: usize, max_depth: usize) -> (r:
        Self)
        ensures
            r.package_id@ == package_id@,
            r.execution_request == execution_request,
            r.max_items == max_items,
            r.max_depth == max_depth,
    {
        ContextPackageRequest { package_id, execution_request, max_items, max_depth }
    }
}

/// A bounded package wrapping one authorized query result.
#[derive(Debug)]
pub struct ContextPackage {
    /// Package identity.
    pub id: ContextPackageId,
    /// Package version.
    pub version: Version,
    /// The caller's permission context.
    pub caller_context: CallerPermissionContext,
    /// Maximum depth.
    pub max_depth: usize,
    /// The wrapped result.
    pub query_result: QueryResult,
}

/// One branch of a parallel inquiry.
#[derive(Debug)]
pub struct InquiryBranchDefinition {
    /// Branch identity.
    pub branch_id: InquiryBranchId,
    /// The inquiry the branch belongs to.
    pub parent_inquiry_id: InquiryId,
    /// Purpose of the branch.
    pub purpose: String,
    /// Result identity of the branch's query.
    pub result_id: QueryResultId,
    /// Depth of the branch.
    pub branch_depth: usize,
    /// Evidence the branch must supply.
    pub evidence_requirements: Vec<String>,
    /// The branch's query.
    pub query: QueryDefinition,
}

/// Limits of a parallel inquiry.
#[derive(Clone, Copy, Debug, Eq, PartialEq, Structural)]
pub struct InquiryExecutionPolicy {
    /// Maximum number of branches.
    pub max_branch_count: usize,
    /// Maximum branch depth.
    pub max_branch_depth: usize,
}

/// Request to execute a parallel inquiry.
#[derive(Debug)]
pub struct InquiryExecutionRequest {
    /// Inquiry identity.
    pub inquiry_id: InquiryId,
    /// Context package the inquiry works in.
    pub context_package_id: ContextPackageId,
    /// Branches.
    pub branches: Vec<InquiryBranchDefinition>,
    /// Limits.
    pub policy: InquiryExecutionPolicy,
}


/// Abstract contents of a result provenance.
pub struct ResultProvenanceView {
    pub source: Seq<char>,
    pub source_record_type: Option<Seq<char>>,
    pub source_record_ids: Set<Seq<char>>,
    pub query_definition: QueryDefinitionView,
    pub timestamps: Map<Seq<char>, Seq<char>>,
    pub source_version: Option<u64>,
    pub permission_scope: Option<Seq<char>>,
    pub integrity: Option<Seq<char>>,
    pub access_restriction: Option<Seq<char>>,
}

impl View for ResultProvenance {
    type V = ResultProvenanceView;

    open spec fn view(&self) -> ResultProvenanceView {
        ResultProvenanceView {
            source: self.source@,
            source_record_type: opt_view(self.source_record_type),
            source_record_ids: self.source_record_ids.as_set(),
            query_definition: self.query_definition@,
            timestamps: string_map_view(self.timestamps),
            source_version: opt_version_view(self.source_version),
            permission_scope: opt_view(self.permission_scope),
            integrity: opt_view(self.integrity),
            access_restriction: opt_view(self.access_restriction),
        }
    }
}

/// Abstract contents of a result item.
pub struct QueryResultItemView {
    pub ordering_key: Seq<Seq<char>>,
    pub fields: Map<Seq<char>, PropertyValueView>,
    pub classification: ResultClassification,
    pub provenance: ResultProvenanceView,
}

impl View for QueryResultItem {
    type V = QueryResultItemView;

    open spec fn view(&self) -> QueryResultItemView {
        QueryResultItemView {
            ordering_key: self.ordering_key@,
            fields: crate::event_types::payload_view(self.fields),
            classification: self.classification,
            provenance: self.provenance@,
        }
    }
}
} // verus!
