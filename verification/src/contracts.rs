//! Dependency-neutral Runtime data contracts shared by the Runtime engines:
//! opaque identifiers, versions, authorization requests and decisions,
//! consistency boundaries and the tagged primitive Runtime value.
use vstd::prelude::*;
use crate::collections::OrderedKey;
use crate::text::{append_length_prefixed, chars_lt, compare_chars, lemma_chars_lt_irreflexive,
    lemma_chars_lt_total, lemma_chars_lt_transitive, length_prefixed, push_char, KeyOrder};
use vstd::string::StrSliceExecFns;
use vstd::std_specs::cmp::PartialEqSpec;

verus! {

/// Opaque globally unique identifier for a Runtime Object.
#[derive(Debug, Eq, PartialEq, Ord, PartialOrd, Hash)]
pub struct ObjectId(String);

impl View for ObjectId {
    type V = Seq<char>;

    closed spec fn view(&self) -> Seq<char> {
        self.0@
    }
}

impl Clone for ObjectId {
    fn clone(&self) -> (r: Self)
        ensures
            r@ == self@,
    {
        ObjectId(self.0.clone())
    }
}

impl ObjectId {
    /// Creates a new opaque Object identifier from a caller-supplied token.
    pub fn new(value: &str) -> (r: Self)
        ensures
            r@ == value@,
    {
        ObjectId(String::from_str(value))
    }

    /// Returns the identifier token without assigning any business meaning to it.
    pub fn as_str(&self) -> (r: &str)
        ensures
            r@ == self@,
    {
        self.0.as_str()
    }

    /// Reports whether the identifier token is empty.
    pub fn is_empty(&self) -> (b: bool)
        ensures
            b == (self@.len() == 0),
    {
        self.0.as_str().is_empty()
    }

    /// Returns the token as an owned string, as its display form.
    pub fn to_string(&self) -> (r: String)
        ensures
            r@ == self@,
    {
        self.0.clone()
    }
}

impl OrderedKey for ObjectId {
    type KeyView = Seq<char>;

    open spec fn key_view(&self) -> Seq<char> {
        self@
    }

    open spec fn view_lt(a: Seq<char>, b: Seq<char>) -> bool {
        chars_lt(a, b)
    }

    proof fn lemma_view_lt_irreflexive(a: Seq<char>) {
        lemma_chars_lt_irreflexive(a);
    }

    proof fn lemma_view_lt_transitive(a: Seq<char>, b: Seq<char>, c: Seq<char>) {
        lemma_chars_lt_transitive(a, b, c);
    }

    proof fn lemma_view_lt_total(a: Seq<char>, b: Seq<char>) {
        lemma_chars_lt_total(a, b);
    }

    fn compare_key(&self, other: &Self) -> (r: KeyOrder) {
        compare_chars(self.0.as_str(), other.0.as_str())
    }

    fn copy_key(&self) -> (r: Self) {
        self.clone()
    }
}

/// Monotonic per-object version used for optimistic concurrency.
#[derive(Clone, Copy, Debug, Eq, PartialEq, Ord, PartialOrd, Structural)]
pub struct Version(u64);

impl View for Version {
    type V = u64;

    closed spec fn view(&self) -> u64 {
        self.0
    }
}

impl Version {
    /// Returns the initial version assigned to a newly created Object.
    pub fn initial() -> (r: Self)
        ensures
            r@ == 1,
    {
        Version(1)
    }

    /// Creates a version from a raw monotonic marker.
    pub fn new(value: u64) -> (r: Self)
        ensures
            r@ == value,
    {
        Version(value)
    }

    /// Returns the raw monotonic marker.
    pub fn value(self) -> (r: u64)
        ensures
            r == self@,
    {
        self.0
    }

    /// Returns the next version after a successful update.
    pub fn next(self) -> (r: Self)
        requires
            self@ < u64::MAX,
        ensures
            r@ == self@ + 1,
    {
        Version(self.0 + 1)
    }

    /// Reports whether two versions carry the same marker.
    pub fn same_as(self, other: Self) -> (b: bool)
        ensures
            b == (self@ == other@),
    {
        self.0 == other.0
    }
}

/// The version after `v` is strictly greater than `v`: versions only move forward.
pub proof fn law_version_next_is_greater(v: Version)
    requires
        v@ < u64::MAX,
    ensures
        v@ < v@ + 1,
        v@ + 1 <= u64::MAX,
{
}

/// Opaque Unit-of-Work handle representing one physical storage-transaction boundary.
#[derive(Debug, Eq, PartialEq, Ord, PartialOrd, Hash)]
pub struct UnitOfWork(String);

impl View for UnitOfWork {
    type V = Seq<char>;

    closed spec fn view(&self) -> Seq<char> {
        self.0@
    }
}

impl Clone for UnitOfWork {
    fn clone(&self) -> (r: Self)
        ensures
            r@ == self@,
    {
        UnitOfWork(self.0.clone())
    }
}

impl UnitOfWork {
    /// Creates a new opaque Unit-of-Work handle from a caller-supplied token.
    pub fn new(value: &str) -> (r: Self)
        ensures
            r@ == value@,
    {
        UnitOfWork(String::from_str(value))
    }

    /// Returns the handle token without assigning any business meaning to it.
    pub fn as_str(&self) -> (r: &str)
        ensures
            r@ == self@,
    {
        self.0.as_str()
    }

    /// Reports whether the handle token is empty.
    pub fn is_empty(&self) -> (b: bool)
        ensures
            b == (self@.len() == 0),
    {
        self.0.as_str().is_empty()
    }

    /// Returns the token as an owned string, as its display form.
    pub fn to_string(&self) -> (r: String)
        ensures
            r@ == self@,
    {
        self.0.clone()
    }
}
/// Opaque caller/permission context supplied by Security.
#[derive(Debug, Eq, PartialEq, Ord, PartialOrd, Hash)]
pub struct CallerPermissionContext(String);

impl View for CallerPermissionContext {
    type V = Seq<char>;

    closed spec fn view(&self) -> Seq<char> {
        self.0@
    }
}

impl Clone for CallerPermissionContext {
    fn clone(&self) -> (r: Self)
        ensures
            r@ == self@,
    {
        CallerPermissionContext(self.0.clone())
    }
}

impl CallerPermissionContext {
    /// Creates a caller/permission context from a caller-supplied opaque token.
    pub fn new(value: &str) -> (r: Self)
        ensures
            r@ == value@,
    {
        CallerPermissionContext(String::from_str(value))
    }

    /// Returns the opaque context token without assigning policy meaning to it.
    pub fn as_str(&self) -> (r: &str)
        ensures
            r@ == self@,
    {
        self.0.as_str()
    }

    /// Reports whether the context token is empty.
    pub fn is_empty(&self) -> (b: bool)
        ensures
            b == (self@.len() == 0),
    {
        self.0.as_str().is_empty()
    }

    /// Returns the token as an owned string, as its display form.
    pub fn to_string(&self) -> (r: String)
        ensures
            r@ == self@,
    {
        self.0.clone()
    }
}
/// Opaque authorization action token supplied to Security.
#[derive(Debug, Eq, PartialEq, Ord, PartialOrd, Hash)]
pub struct PermissionAction(String);

impl View for PermissionAction {
    type V = Seq<char>;

    closed spec fn view(&self) -> Seq<char> {
        self.0@
    }
}

impl Clone for PermissionAction {
    fn clone(&self) -> (r: Self)
        ensures
            r@ == self@,
    {
        PermissionAction(self.0.clone())
    }
}

impl PermissionAction {
    /// Creates an authorization action from a caller-supplied opaque token.
    pub fn new(value: &str) -> (r: Self)
        ensures
            r@ == value@,
    {
        PermissionAction(String::from_str(value))
    }

    /// Returns the opaque action token.
    pub fn as_str(&self) -> (r: &str)
        ensures
            r@ == self@,
    {
        self.0.as_str()
    }

    /// Reports whether the action token is empty.
    pub fn is_empty(&self) -> (b: bool)
        ensures
            b == (self@.len() == 0),
    {
        self.0.as_str().is_empty()
    }

    /// Returns the token as an owned string, as its display form.
    pub fn to_string(&self) -> (r: String)
        ensures
            r@ == self@,
    {
        self.0.clone()
    }
}
/// Abstract contents of an authorization target.
pub struct AuthorizationTargetView {
    pub source_namespace: Seq<char>,
    pub object_type: Seq<char>,
    pub object_identifier: Seq<char>,
    pub subresource: Option<Seq<char>>,
}

/// Opaque target reference evaluated by Security for one authorization action.
#[derive(Debug, Eq, PartialEq, Ord, PartialOrd, Hash)]
pub struct AuthorizationTarget {
    source_namespace: String,
    object_type: String,
    object_identifier: String,
    subresource: Option<String>,
}

/// The view of an optional owned string.
pub open spec fn opt_view(s: Option<String>) -> Option<Seq<char>> {
    match s {
        Some(v) => Some(v@),
        None => None,
    }
}

/// Clones an optional string.
pub fn clone_opt_string(s: &Option<String>) -> (r: Option<String>)
    ensures
        opt_view(r) == opt_view(*s),
{
    match s {
        Some(v) => Some(v.clone()),
        None => None,
    }
}

/// Borrows an optional owned string as an optional string slice.
pub fn opt_as_str(s: &Option<String>) -> (r: Option<&str>)
    ensures
        r is Some == s is Some,
        r matches Some(v) ==> s matches Some(w) && v@ == w@,
{
    match s {
        Some(v) => Some(v.as_str()),
        None => None,
    }
}

impl View for AuthorizationTarget {
    type V = AuthorizationTargetView;

    closed spec fn view(&self) -> AuthorizationTargetView {
        AuthorizationTargetView {
            source_namespace: self.source_namespace@,
            object_type: self.object_type@,
            object_identifier: self.object_identifier@,
            subresource: opt_view(self.subresource),
        }
    }
}

impl Clone for AuthorizationTarget {
    fn clone(&self) -> (r: Self)
        ensures
            r@ == self@,
    {
        AuthorizationTarget {
            source_namespace: self.source_namespace.clone(),
            object_type: self.object_type.clone(),
            object_identifier: self.object_identifier.clone(),
            subresource: clone_opt_string(&self.subresource),
        }
    }
}

impl AuthorizationTarget {
    /// Creates a target reference without a subresource component.
    pub fn new(source_namespace: &str, object_type: &str, object_identifier: &str) -> (r: Self)
        ensures
            r@.source_namespace == source_namespace@,
            r@.object_type == object_type@,
            r@.object_identifier == object_identifier@,
            r@.subresource is None,
    {
        AuthorizationTarget {
            source_namespace: String::from_str(source_namespace),
            object_type: String::from_str(object_type),
            object_identifier: String::from_str(object_identifier),
            subresource: None,
        }
    }

    /// Returns a copy of this target with a subresource component attached.
    pub fn with_subresource(self, subresource: &str) -> (r: Self)
        ensures
            r@.source_namespace == self@.source_namespace,
            r@.object_type == self@.object_type,
            r@.object_identifier == self@.object_identifier,
            r@.subresource == Some(subresource@),
    {
        AuthorizationTarget { subresource: Some(String::from_str(subresource)), ..self }
    }

    /// Returns the source or namespace component that owns this record.
    pub fn source_namespace(&self) -> (r: &str)
        ensures
            r@ == self@.source_namespace,
    {
        self.source_namespace.as_str()
    }

    /// Returns the object-type component of the target reference.
    pub fn object_type(&self) -> (r: &str)
        ensures
            r@ == self@.object_type,
    {
        self.object_type.as_str()
    }

    /// Returns the source-local object identifier component.
    pub fn object_identifier(&self) -> (r: &str)
        ensures
            r@ == self@.object_identifier,
    {
        self.object_identifier.as_str()
    }

    /// Returns the optional field, attachment, or evidence-level subresource token.
    pub fn subresource(&self) -> (r: Option<&str>)
        ensures
            r is Some == self@.subresource is Some,
            r matches Some(v) ==> self@.subresource == Some(v@),
    {
        opt_as_str(&self.subresource)
    }

    /// Reports whether every required target component is populated.
    pub fn has_required_components(&self) -> (b: bool)
        ensures
            b == (self@.source_namespace.len() > 0 && self@.object_type.len() > 0
                && self@.object_identifier.len() > 0),
    {
        !self.source_namespace.as_str().is_empty() && !self.object_type.as_str().is_empty()
            && !self.object_identifier.as_str().is_empty()
    }
}

/// Abstract contents of an authorization request.
pub struct AuthorizationRequestView {
    pub context: Seq<char>,
    pub action: Seq<char>,
    pub target: AuthorizationTargetView,
}

/// Complete authorization request evaluated by an injected provider.
#[derive(Debug, Eq, PartialEq, Ord, PartialOrd, Hash)]
pub struct AuthorizationRequest {
    context: CallerPermissionContext,
    action: PermissionAction,
    target: AuthorizationTarget,
}

impl View for AuthorizationRequest {
    type V = AuthorizationRequestView;

    closed spec fn view(&self) -> AuthorizationRequestView {
        AuthorizationRequestView {
            context: self.context@,
            action: self.action@,
            target: self.target@,
        }
    }
}

impl Clone for AuthorizationRequest {
    fn clone(&self) -> (r: Self)
        ensures
            r@ == self@,
    {
        AuthorizationRequest {
            context: self.context.clone(),
            action: self.action.clone(),
            target: self.target.clone(),
        }
    }
}

impl AuthorizationRequest {
    /// Creates an authorization request from opaque context, action, and target values.
    pub fn new(
        context: CallerPermissionContext,
        action: PermissionAction,
        target: AuthorizationTarget,
    ) -> (r: Self)
        ensures
            r@.context == context@,
            r@.action == action@,
            r@.target == target@,
    {
        AuthorizationRequest { context, action, target }
    }

    /// Returns the opaque caller/permission context.
    pub fn context(&self) -> (r: &CallerPermissionContext)
        ensures
            r@ == self@.context,
    {
        &self.context
    }

    /// Returns the opaque authorization action.
    pub fn action(&self) -> (r: &PermissionAction)
        ensures
            r@ == self@.action,
    {
        &self.action
    }

    /// Returns the target reference for this request.
    pub fn target(&self) -> (r: &AuthorizationTarget)
        ensures
            r@ == self@.target,
    {
        &self.target
    }
}

/// Authorization result decided by Security.
#[derive(Clone, Copy, Debug, Eq, PartialEq, Ord, PartialOrd, Hash, Structural)]
pub enum AuthorizationEffect {
    /// The caller may observe the target for the requested action.
    Allow,
    /// The caller is explicitly denied for the requested action.
    Deny,
    /// The caller is denied and the target's existence must not be disclosed.
    HiddenDeny,
}

/// Abstract contents of a decision trace envelope.
pub struct AuthorizationDecisionTraceView {
    pub policy_revision: Seq<char>,
    pub decision_id: Seq<char>,
    pub decided_at: Seq<char>,
    pub provider_id: Seq<char>,
    pub reason_code: Seq<char>,
}

/// Minimal operational trace envelope carried with each authorization decision.
#[derive(Debug, Eq, PartialEq, Ord, PartialOrd, Hash)]
pub struct AuthorizationDecisionTrace {
    policy_revision: String,
    decision_id: String,
    decided_at: String,
    provider_id: String,
    reason_code: String,
}

impl View for AuthorizationDecisionTrace {
    type V = AuthorizationDecisionTraceView;

    closed spec fn view(&self) -> AuthorizationDecisionTraceView {
        AuthorizationDecisionTraceView {
            policy_revision: self.policy_revision@,
            decision_id: self.decision_id@,
            decided_at: self.decided_at@,
            provider_id: self.provider_id@,
            reason_code: self.reason_code@,
        }
    }
}

impl Clone for AuthorizationDecisionTrace {
    fn clone(&self) -> (r: Self)
        ensures
            r@ == self@,
    {
        AuthorizationDecisionTrace {
            policy_revision: self.policy_revision.clone(),
            decision_id: self.decision_id.clone(),
            decided_at: self.decided_at.clone(),
            provider_id: self.provider_id.clone(),
            reason_code: self.reason_code.clone(),
        }
    }
}

impl AuthorizationDecisionTrace {
    /// Creates a trace envelope supplied by the concrete authorization provider.
    pub fn new(
        policy_revision: &str,
        decision_id: &str,
        decided_at: &str,
        provider_id: &str,
        reason_code: &str,
    ) -> (r: Self)
        ensures
            r@.policy_revision == policy_revision@,
            r@.decision_id == decision_id@,
            r@.decided_at == decided_at@,
            r@.provider_id == provider_id@,
            r@.reason_code == reason_code@,
    {
        AuthorizationDecisionTrace {
            policy_revision: String::from_str(policy_revision),
            decision_id: String::from_str(decision_id),
            decided_at: String::from_str(decided_at),
            provider_id: String::from_str(provider_id),
            reason_code: String::from_str(reason_code),
        }
    }

    /// Returns the policy or ruleset revision reference.
    pub fn policy_revision(&self) -> (r: &str)
        ensures
            r@ == self@.policy_revision,
    {
        self.policy_revision.as_str()
    }

    /// Returns the provider-supplied decision or evaluation identifier.
    pub fn decision_id(&self) -> (r: &str)
        ensures
            r@ == self@.decision_id,
    {
        self.decision_id.as_str()
    }

    /// Returns the provider-supplied decision timestamp token.
    pub fn decided_at(&self) -> (r: &str)
        ensures
            r@ == self@.decided_at,
    {
        self.decided_at.as_str()
    }

    /// Returns the provider identifier that produced the decision.
    pub fn provider_id(&self) -> (r: &str)
        ensures
            r@ == self@.provider_id,
    {
        self.provider_id.as_str()
    }

    /// Returns the internal provider reason code.
    pub fn reason_code(&self) -> (r: &str)
        ensures
            r@ == self@.reason_code,
    {
        self.reason_code.as_str()
    }
}

/// Abstract contents of an authorization decision.
pub struct AuthorizationDecisionView {
    pub effect: AuthorizationEffect,
    pub trace: AuthorizationDecisionTraceView,
}

/// Authorization decision plus its operational trace envelope.
///
/// Two decisions are equal when their effects are equal; the trace is
/// operational metadata and takes no part in the comparison.
#[derive(Debug)]
pub struct AuthorizationDecision {
    effect: AuthorizationEffect,
    trace: AuthorizationDecisionTrace,
}

impl View for AuthorizationDecision {
    type V = AuthorizationDecisionView;

    closed spec fn view(&self) -> AuthorizationDecisionView {
        AuthorizationDecisionView { effect: self.effect, trace: self.trace@ }
    }
}

impl Clone for AuthorizationDecision {
    fn clone(&self) -> (r: Self)
        ensures
            r@ == self@,
    {
        AuthorizationDecision { effect: self.effect, trace: self.trace.clone() }
    }
}

impl PartialEq for AuthorizationDecision {
    fn eq(&self, other: &Self) -> (r: bool) {
        match (self.effect, other.effect) {
            (AuthorizationEffect::Allow, AuthorizationEffect::Allow) => true,
            (AuthorizationEffect::Deny, AuthorizationEffect::Deny) => true,
            (AuthorizationEffect::HiddenDeny, AuthorizationEffect::HiddenDeny) => true,
            _ => false,
        }
    }
}

impl vstd::std_specs::cmp::PartialEqSpecImpl for AuthorizationDecision {
    open spec fn obeys_eq_spec() -> bool {
        true
    }

    open spec fn eq_spec(&self, other: &Self) -> bool {
        self@.effect == other@.effect
    }
}

impl Eq for AuthorizationDecision {}

impl AuthorizationDecision {
    /// Creates a decision from an effect and provider-supplied trace envelope.
    pub fn new(effect: AuthorizationEffect, trace: AuthorizationDecisionTrace) -> (r: Self)
        ensures
            r@.effect == effect,
            r@.trace == trace@,
    {
        AuthorizationDecision { effect, trace }
    }

    /// Creates an allow decision.
    pub fn allow(trace: AuthorizationDecisionTrace) -> (r: Self)
        ensures
            r@.effect == AuthorizationEffect::Allow,
            r@.trace == trace@,
    {
        Self::new(AuthorizationEffect::Allow, trace)
    }

    /// Creates an explicit deny decision.
    pub fn deny(trace: AuthorizationDecisionTrace) -> (r: Self)
        ensures
            r@.effect == AuthorizationEffect::Deny,
            r@.trace == trace@,
    {
        Self::new(AuthorizationEffect::Deny, trace)
    }

    /// Creates a hidden-deny decision.
    pub fn hidden_deny(trace: AuthorizationDecisionTrace) -> (r: Self)
        ensures
            r@.effect == AuthorizationEffect::HiddenDeny,
            r@.trace == trace@,
    {
        Self::new(AuthorizationEffect::HiddenDeny, trace)
    }

    /// Returns the decision effect chosen by Security.
    pub fn effect(&self) -> (r: AuthorizationEffect)
        ensures
            r == self@.effect,
    {
        self.effect
    }

    /// Returns the operational trace envelope carried with the decision.
    pub fn trace(&self) -> (r: &AuthorizationDecisionTrace)
        ensures
            r@ == self@.trace,
    {
        &self.trace
    }
}

/// Decisions compare equal exactly when their effects are equal, whatever their traces.
pub proof fn law_decision_equality_ignores_trace(a: AuthorizationDecision, b: AuthorizationDecision)
    ensures
        a.eq_spec(&b) <==> a@.effect == b@.effect,
{
}

/// Authorization request and decision captured together for semantic comparison.
#[derive(Clone, Debug)]
pub struct AuthorizationEvaluation {
    request: AuthorizationRequest,
    decision: AuthorizationDecision,
}

impl AuthorizationEvaluation {
    /// Creates an authorization evaluation record.
    pub fn new(request: AuthorizationRequest, decision: AuthorizationDecision) -> (r: Self)
        ensures
            r.request_spec()@ == request@,
            r.decision_spec()@ == decision@,
    {
        AuthorizationEvaluation { request, decision }
    }

    /// The evaluated authorization request.
    pub closed spec fn request_spec(&self) -> AuthorizationRequest {
        self.request
    }

    /// Returns the evaluated authorization request.
    pub fn request(&self) -> (r: &AuthorizationRequest)
        ensures
            *r == self.request_spec(),
    {
        &self.request
    }

    /// The decision produced for the request.
    pub closed spec fn decision_spec(&self) -> AuthorizationDecision {
        self.decision
    }

    /// Returns the decision produced for the request.
    pub fn decision(&self) -> (r: &AuthorizationDecision)
        ensures
            *r == self.decision_spec(),
    {
        &self.decision
    }
}

impl PartialEq for AuthorizationEvaluation {
    fn eq(&self, other: &Self) -> (r: bool) {
        crate::security::same_request(&self.request, &other.request) && self.decision == other.decision
    }
}

impl vstd::std_specs::cmp::PartialEqSpecImpl for AuthorizationEvaluation {
    open spec fn obeys_eq_spec() -> bool {
        true
    }

    open spec fn eq_spec(&self, other: &Self) -> bool {
        self.request_spec()@ == other.request_spec()@ && self.decision_spec()@.effect == other.decision_spec()@.effect
    }
}

impl Eq for AuthorizationEvaluation {}

/// Evaluations compare equal exactly when their requests carry the same
/// components and their decisions the same effect, whatever their traces.
pub proof fn law_evaluation_equality_includes_request(a: AuthorizationEvaluation, b: AuthorizationEvaluation)
    ensures
        a.eq_spec(&b) <==> a.request_spec()@ == b.request_spec()@ && a.decision_spec()@.effect == b.decision_spec()@.effect,
{
}

/// Contract implemented by a provider that owns authorization policy evaluation.
///
/// The trait defines only the dependency-neutral shape; it implements no policy.
pub trait AuthorizationProvider {
    /// Provider-specific authorization error type.
    type Error;

    /// Decides one authorization request.
    fn decide(&self, request: &AuthorizationRequest) -> Result<AuthorizationDecision, Self::Error>;
}

/// Contract implemented by a provider that owns Unit-of-Work lifecycle behavior.
pub trait UnitOfWorkLifecycle {
    /// Provider-specific lifecycle error type.
    type Error;

    /// Begins participation in a Unit of Work owned by the concrete provider.
    fn begin_unit_of_work(&mut self, unit_of_work: &UnitOfWork) -> Result<(), Self::Error>;

    /// Commits the provider-owned work staged against the supplied handle.
    fn commit_unit_of_work(&mut self, unit_of_work: &UnitOfWork) -> Result<(), Self::Error>;

    /// Rolls back the provider-owned work staged against the supplied handle.
    fn rollback_unit_of_work(&mut self, unit_of_work: &UnitOfWork) -> Result<(), Self::Error>;
}

/// Contract implemented by a provider that can stage writes into a Unit of Work.
pub trait UnitOfWorkStaging<Write> {
    /// Provider-specific staging error type.
    type Error;

    /// Stages one provider-owned write against the supplied Unit-of-Work handle.
    fn stage_unit_of_work_write(&mut self, unit_of_work: &UnitOfWork, write: Write) -> Result<
        (),
        Self::Error,
    >;
}

/// Abstract contents of a stable consistency marker.
pub struct StableConsistencyMarkerView {
    pub namespace: Seq<char>,
    pub marker: Seq<char>,
}

/// Stable marker used by one component slot in a `ConsistencyBoundary`.
#[derive(Debug, Eq, PartialEq, Ord, PartialOrd, Hash)]
pub struct StableConsistencyMarker {
    namespace: String,
    marker: String,
}

impl View for StableConsistencyMarker {
    type V = StableConsistencyMarkerView;

    closed spec fn view(&self) -> StableConsistencyMarkerView {
        StableConsistencyMarkerView { namespace: self.namespace@, marker: self.marker@ }
    }
}

impl Clone for StableConsistencyMarker {
    fn clone(&self) -> (r: Self)
        ensures
            r@ == self@,
    {
        StableConsistencyMarker { namespace: self.namespace.clone(), marker: self.marker.clone() }
    }
}

impl StableConsistencyMarker {
    /// Creates a stable marker with an explicit namespace.
    pub fn new(namespace: &str, marker: &str) -> (r: Self)
        ensures
            r@.namespace == namespace@,
            r@.marker == marker@,
    {
        StableConsistencyMarker {
            namespace: String::from_str(namespace),
            marker: String::from_str(marker),
        }
    }

    /// Returns the marker namespace.
    pub fn namespace(&self) -> (r: &str)
        ensures
            r@ == self@.namespace,
    {
        self.namespace.as_str()
    }

    /// Returns the marker value within its namespace.
    pub fn marker(&self) -> (r: &str)
        ensures
            r@ == self@.marker,
    {
        self.marker.as_str()
    }

    /// Reports whether both namespace and marker are populated.
    pub fn has_required_components(&self) -> (b: bool)
        ensures
            b == (self@.namespace.len() > 0 && self@.marker.len() > 0),
    {
        !self.namespace.as_str().is_empty() && !self.marker.as_str().is_empty()
    }
}

/// Structured reason a requested consistency-boundary slot could not be produced.
#[derive(Clone, Copy, Debug, Eq, PartialEq, Ord, PartialOrd, Hash, Structural)]
pub enum ConsistencyBoundaryUnavailableReason {
    /// The owning component does not yet expose a public API for this marker.
    ComponentApiNotAvailable,
    /// The owning source is transiently unreachable.
    TransientlyUnreachable,
    /// The owning source permanently does not support this boundary component.
    PermanentlyUnsupported,
    /// The caller lacks access to the information required to produce the marker.
    AuthorizationRestricted,
    /// A previously used marker was lost or is no longer verifiable.
    MarkerLostOrUnverifiable,
    /// The source produced only a weaker consistency guarantee than requested.
    WeakerConsistencyGuarantee,
}

/// The stable canonical token of a reason.
pub open spec fn reason_token(reason: ConsistencyBoundaryUnavailableReason) -> Seq<char> {
    match reason {
        ConsistencyBoundaryUnavailableReason::ComponentApiNotAvailable => "component-api-not-available"@,
        ConsistencyBoundaryUnavailableReason::TransientlyUnreachable => "transiently-unreachable"@,
        ConsistencyBoundaryUnavailableReason::PermanentlyUnsupported => "permanently-unsupported"@,
        ConsistencyBoundaryUnavailableReason::AuthorizationRestricted => "authorization-restricted"@,
        ConsistencyBoundaryUnavailableReason::MarkerLostOrUnverifiable => "marker-lost-or-unverifiable"@,
        ConsistencyBoundaryUnavailableReason::WeakerConsistencyGuarantee => "weaker-consistency-guarantee"@,
    }
}

impl ConsistencyBoundaryUnavailableReason {
    /// Returns the stable canonical token for this reason.
    pub fn canonical_token(self) -> (r: &'static str)
        ensures
            r@ == reason_token(self),
    {
        match self {
            ConsistencyBoundaryUnavailableReason::ComponentApiNotAvailable => "component-api-not-available",
            ConsistencyBoundaryUnavailableReason::TransientlyUnreachable => "transiently-unreachable",
            ConsistencyBoundaryUnavailableReason::PermanentlyUnsupported => "permanently-unsupported",
            ConsistencyBoundaryUnavailableReason::AuthorizationRestricted => "authorization-restricted",
            ConsistencyBoundaryUnavailableReason::MarkerLostOrUnverifiable => "marker-lost-or-unverifiable",
            ConsistencyBoundaryUnavailableReason::WeakerConsistencyGuarantee => "weaker-consistency-guarantee",
        }
    }
}

/// Abstract contents of an unavailable slot.
pub struct ConsistencyBoundaryUnavailableView {
    pub reason: ConsistencyBoundaryUnavailableReason,
    pub detail: Seq<char>,
}

/// Structured unavailable state for one requested consistency-boundary slot.
#[derive(Debug, Eq, PartialEq, Ord, PartialOrd, Hash)]
pub struct ConsistencyBoundaryUnavailable {
    reason: ConsistencyBoundaryUnavailableReason,
    detail: String,
}

impl View for ConsistencyBoundaryUnavailable {
    type V = ConsistencyBoundaryUnavailableView;

    closed spec fn view(&self) -> ConsistencyBoundaryUnavailableView {
        ConsistencyBoundaryUnavailableView { reason: self.reason, detail: self.detail@ }
    }
}

impl Clone for ConsistencyBoundaryUnavailable {
    fn clone(&self) -> (r: Self)
        ensures
            r@ == self@,
    {
        ConsistencyBoundaryUnavailable { reason: self.reason, detail: self.detail.clone() }
    }
}

impl ConsistencyBoundaryUnavailable {
    /// Creates an unavailable marker with a structured reason and opaque detail token.
    pub fn new(reason: ConsistencyBoundaryUnavailableReason, detail: &str) -> (r: Self)
        ensures
            r@.reason == reason,
            r@.detail == detail@,
    {
        ConsistencyBoundaryUnavailable { reason, detail: String::from_str(detail) }
    }

    /// Returns the structured unavailable reason.
    pub fn reason(&self) -> (r: ConsistencyBoundaryUnavailableReason)
        ensures
            r == self@.reason,
    {
        self.reason
    }

    /// Returns the opaque unavailable detail token.
    pub fn detail(&self) -> (r: &str)
        ensures
            r@ == self@.detail,
    {
        self.detail.as_str()
    }
}

/// Three-state consistency-boundary slot.
#[derive(Debug, Eq, PartialEq, Ord, PartialOrd, Hash)]
pub enum ConsistencySlot<T> {
    /// The component was not needed for this boundary.
    NotRequested,
    /// The component was needed, but no stable marker could be supplied.
    Unavailable(ConsistencyBoundaryUnavailable),
    /// The component was needed and supplied a stable marker.
    Available(T),
}

impl<T> ConsistencySlot<T> {
    /// Reports whether this slot carries an available value.
    pub fn is_available(&self) -> (b: bool)
        ensures
            b == (self is Available),
    {
        match self {
            ConsistencySlot::Available(_) => true,
            _ => false,
        }
    }

    /// Reports whether this slot was not requested.
    pub fn is_not_requested(&self) -> (b: bool)
        ensures
            b == (self is NotRequested),
    {
        match self {
            ConsistencySlot::NotRequested => true,
            _ => false,
        }
    }

    /// Reports whether this slot was requested but unavailable.
    pub fn is_unavailable(&self) -> (b: bool)
        ensures
            b == (self is Unavailable),
    {
        match self {
            ConsistencySlot::Unavailable(_) => true,
            _ => false,
        }
    }
}

/// Abstract contents of one consistency slot holding a stable marker.
pub enum SlotView {
    NotRequested,
    Unavailable(ConsistencyBoundaryUnavailableView),
    Available(StableConsistencyMarkerView),
}

/// The abstract contents of a marker slot.
pub open spec fn slot_view(slot: ConsistencySlot<StableConsistencyMarker>) -> SlotView {
    match slot {
        ConsistencySlot::NotRequested => SlotView::NotRequested,
        ConsistencySlot::Unavailable(u) => SlotView::Unavailable(u@),
        ConsistencySlot::Available(m) => SlotView::Available(m@),
    }
}

/// Clones a marker slot.
pub fn clone_slot(slot: &ConsistencySlot<StableConsistencyMarker>) -> (r: ConsistencySlot<
    StableConsistencyMarker,
>)
    ensures
        slot_view(r) == slot_view(*slot),
{
    match slot {
        ConsistencySlot::NotRequested => ConsistencySlot::NotRequested,
        ConsistencySlot::Unavailable(u) => ConsistencySlot::Unavailable(u.clone()),
        ConsistencySlot::Available(m) => ConsistencySlot::Available(m.clone()),
    }
}

impl Clone for ConsistencySlot<StableConsistencyMarker> {
    fn clone(&self) -> (r: Self)
        ensures
            slot_view(r) == slot_view(*self),
    {
        clone_slot(self)
    }
}

/// Abstract contents of a consistency boundary, one slot per Runtime component.
pub struct ConsistencyBoundaryView {
    pub object_runtime: SlotView,
    pub event_engine: SlotView,
    pub transaction_engine: SlotView,
    pub computed_value_source: SlotView,
    pub concept_mapping: SlotView,
    pub query_definition: SlotView,
}

/// Shared consistency boundary attached to reproducible Runtime read results.
#[derive(Debug, Eq, PartialEq, Ord, PartialOrd, Hash)]
pub struct ConsistencyBoundary {
    object_runtime: ConsistencySlot<StableConsistencyMarker>,
    event_engine: ConsistencySlot<StableConsistencyMarker>,
    transaction_engine: ConsistencySlot<StableConsistencyMarker>,
    computed_value_source: ConsistencySlot<StableConsistencyMarker>,
    concept_mapping: ConsistencySlot<StableConsistencyMarker>,
    query_definition: ConsistencySlot<StableConsistencyMarker>,
}

impl View for ConsistencyBoundary {
    type V = ConsistencyBoundaryView;

    closed spec fn view(&self) -> ConsistencyBoundaryView {
        ConsistencyBoundaryView {
            object_runtime: slot_view(self.object_runtime),
            event_engine: slot_view(self.event_engine),
            transaction_engine: slot_view(self.transaction_engine),
            computed_value_source: slot_view(self.computed_value_source),
            concept_mapping: slot_view(self.concept_mapping),
            query_definition: slot_view(self.query_definition),
        }
    }
}

impl Clone for ConsistencyBoundary {
    fn clone(&self) -> (r: Self)
        ensures
            r@ == self@,
    {
        ConsistencyBoundary {
            object_runtime: clone_slot(&self.object_runtime),
            event_engine: clone_slot(&self.event_engine),
            transaction_engine: clone_slot(&self.transaction_engine),
            computed_value_source: clone_slot(&self.computed_value_source),
            concept_mapping: clone_slot(&self.concept_mapping),
            query_definition: clone_slot(&self.query_definition),
        }
    }
}

/// One line of the canonical encoding: the slot name, `=`, the slot state, a newline.
pub open spec fn slot_line(name: Seq<char>, slot: SlotView) -> Seq<char> {
    name + "="@ + match slot {
        SlotView::NotRequested => "not-requested"@,
        SlotView::Unavailable(u) => "unavailable;reason="@ + reason_token(u.reason) + ";detail="@
            + length_prefixed(u.detail),
        SlotView::Available(m) => "available;namespace="@ + length_prefixed(m.namespace)
            + ";marker="@ + length_prefixed(m.marker),
    } + "\n"@
}

/// The canonical encoding of a boundary: a version header, then one line per slot
/// in fixed component order.
pub open spec fn canonical_encoding(b: ConsistencyBoundaryView) -> Seq<char> {
    "open-eqms.consistency-boundary.v1\n"@ + slot_line("object-runtime"@, b.object_runtime)
        + slot_line("event-engine"@, b.event_engine) + slot_line(
        "transaction-engine"@,
        b.transaction_engine,
    ) + slot_line("computed-value-source"@, b.computed_value_source) + slot_line(
        "concept-mapping"@,
        b.concept_mapping,
    ) + slot_line("query-definition"@, b.query_definition)
}

fn append_consistency_slot(
    name: &str,
    slot: &ConsistencySlot<StableConsistencyMarker>,
    output: &mut String,
)
    ensures
        final(output)@ == old(output)@ + slot_line(name@, slot_view(*slot)),
{
    let ghost start = output@;
    output.append(name);
    push_char(output, '=');
    let ghost mid = output@;
    match slot {
        ConsistencySlot::NotRequested => {
            output.append("not-requested");
        },
        ConsistencySlot::Unavailable(unavailable) => {
            output.append("unavailable;reason=");
            output.append(unavailable.reason().canonical_token());
            output.append(";detail=");
            append_length_prefixed(output, unavailable.detail());
        },
        ConsistencySlot::Available(marker) => {
            output.append("available;namespace=");
            append_length_prefixed(output, marker.namespace());
            output.append(";marker=");
            append_length_prefixed(output, marker.marker());
        },
    }
    output.append("\n");
    proof {
        reveal_strlit("=");
        assert("="@ =~= seq!['=']);
        assert(output@ =~= start + slot_line(name@, slot_view(*slot)));
    }
}

impl ConsistencyBoundary {
    /// Creates a boundary whose slots are all not requested.
    pub fn empty() -> (r: Self)
        ensures
            r@.object_runtime is NotRequested,
            r@.event_engine is NotRequested,
            r@.transaction_engine is NotRequested,
            r@.computed_value_source is NotRequested,
            r@.concept_mapping is NotRequested,
            r@.query_definition is NotRequested,
    {
        ConsistencyBoundary {
            object_runtime: ConsistencySlot::NotRequested,
            event_engine: ConsistencySlot::NotRequested,
            transaction_engine: ConsistencySlot::NotRequested,
            computed_value_source: ConsistencySlot::NotRequested,
            concept_mapping: ConsistencySlot::NotRequested,
            query_definition: ConsistencySlot::NotRequested,
        }
    }

    /// Returns a copy with the Object Runtime slot replaced.
    pub fn with_object_runtime(self, slot: ConsistencySlot<StableConsistencyMarker>) -> (r: Self)
        ensures
            r@ == (ConsistencyBoundaryView { object_runtime: slot_view(slot), ..self@ }),
    {
        ConsistencyBoundary { object_runtime: slot, ..self }
    }

    /// Returns a copy with the Event Engine slot replaced.
    pub fn with_event_engine(self, slot: ConsistencySlot<StableConsistencyMarker>) -> (r: Self)
        ensures
            r@ == (ConsistencyBoundaryView { event_engine: slot_view(slot), ..self@ }),
    {
        ConsistencyBoundary { event_engine: slot, ..self }
    }

    /// Returns a copy with the Transaction Engine slot replaced.
    pub fn with_transaction_engine(self, slot: ConsistencySlot<StableConsistencyMarker>) -> (r:
        Self)
        ensures
            r@ == (ConsistencyBoundaryView { transaction_engine: slot_view(slot), ..self@ }),
    {
        ConsistencyBoundary { transaction_engine: slot, ..self }
    }

    /// Returns a copy with the Computed Value Source slot replaced.
    pub fn with_computed_value_source(self, slot: ConsistencySlot<StableConsistencyMarker>) -> (r:
        Self)
        ensures
            r@ == (ConsistencyBoundaryView { computed_value_source: slot_view(slot), ..self@ }),
    {
        ConsistencyBoundary { computed_value_source: slot, ..self }
    }

    /// Returns a copy with the Concept Mapping slot replaced.
    pub fn with_concept_mapping(self, slot: ConsistencySlot<StableConsistencyMarker>) -> (r: Self)
        ensures
            r@ == (ConsistencyBoundaryView { concept_mapping: slot_view(slot), ..self@ }),
    {
        ConsistencyBoundary { concept_mapping: slot, ..self }
    }

    /// Returns a copy with the Query Definition slot replaced.
    pub fn with_query_definition(self, slot: ConsistencySlot<StableConsistencyMarker>) -> (r: Self)
        ensures
            r@ == (ConsistencyBoundaryView { query_definition: slot_view(slot), ..self@ }),
    {
        ConsistencyBoundary { query_definition: slot, ..self }
    }

    /// Returns the Object Runtime component slot.
    pub fn object_runtime(&self) -> (r: &ConsistencySlot<StableConsistencyMarker>)
        ensures
            slot_view(*r) == self@.object_runtime,
    {
        &self.object_runtime
    }

    /// Returns the Event Engine component slot.
    pub fn event_engine(&self) -> (r: &ConsistencySlot<StableConsistencyMarker>)
        ensures
            slot_view(*r) == self@.event_engine,
    {
        &self.event_engine
    }

    /// Returns the Transaction Engine component slot.
    pub fn transaction_engine(&self) -> (r: &ConsistencySlot<StableConsistencyMarker>)
        ensures
            slot_view(*r) == self@.transaction_engine,
    {
        &self.transaction_engine
    }

    /// Returns the Computed Value Source component slot.
    pub fn computed_value_source(&self) -> (r: &ConsistencySlot<StableConsistencyMarker>)
        ensures
            slot_view(*r) == self@.computed_value_source,
    {
        &self.computed_value_source
    }

    /// Returns the Concept Mapping component slot.
    pub fn concept_mapping(&self) -> (r: &ConsistencySlot<StableConsistencyMarker>)
        ensures
            slot_view(*r) == self@.concept_mapping,
    {
        &self.concept_mapping
    }

    /// Returns the Query Definition component slot.
    pub fn query_definition(&self) -> (r: &ConsistencySlot<StableConsistencyMarker>)
        ensures
            slot_view(*r) == self@.query_definition,
    {
        &self.query_definition
    }

    /// Returns the deterministic canonical string representation.
    pub fn canonical_string(&self) -> (r: String)
        ensures
            r@ == canonical_encoding(self@),
    {
        let mut output = String::from_str("open-eqms.consistency-boundary.v1\n");
        append_consistency_slot("object-runtime", &self.object_runtime, &mut output);
        append_consistency_slot("event-engine", &self.event_engine, &mut output);
        append_consistency_slot("transaction-engine", &self.transaction_engine, &mut output);
        append_consistency_slot("computed-value-source", &self.computed_value_source, &mut output);
        append_consistency_slot("concept-mapping", &self.concept_mapping, &mut output);
        append_consistency_slot("query-definition", &self.query_definition, &mut output);
        proof {
            assert(output@ =~= canonical_encoding(self@));
        }
        output
    }

    /// Returns the deterministic canonical byte representation.
    pub fn canonical_bytes(&self) -> (r: Vec<u8>)
        ensures
            r@ == vstd::utf8::encode_utf8(canonical_encoding(self@)),
    {
        let s = self.canonical_string();
        s.as_str().as_bytes_vec()
    }
}

impl Default for ConsistencyBoundary {
    fn default() -> (r: Self)
        ensures
            r@ == ConsistencyBoundary::empty_view(),
    {
        Self::empty()
    }
}

impl ConsistencyBoundary {
    /// The view of a boundary whose slots are all not requested.
    pub open spec fn empty_view() -> ConsistencyBoundaryView {
        ConsistencyBoundaryView {
            object_runtime: SlotView::NotRequested,
            event_engine: SlotView::NotRequested,
            transaction_engine: SlotView::NotRequested,
            computed_value_source: SlotView::NotRequested,
            concept_mapping: SlotView::NotRequested,
            query_definition: SlotView::NotRequested,
        }
    }
}

/// Primitive property or payload value kinds shared by Runtime data contracts.
#[derive(Clone, Copy, Debug, Eq, PartialEq, Ord, PartialOrd, Hash, Structural)]
pub enum PropertyValueKind {
    /// User-authored text, optionally tagged by language on the value.
    Text,
    /// Reference to a localization key.
    LocalizedTextKey,
    /// Numeric value.
    Number,
    /// Boolean value.
    Boolean,
    /// Caller-supplied date/time token.
    DateTime,
    /// Enumerated token.
    EnumValue,
    /// Reference to another Object.
    Reference,
    /// Reference to an attachment.
    AttachmentReference,
    /// Binary blob.
    BinaryBlob,
}

/// A tagged primitive Runtime value.
///
/// `Number` carries the IEEE 754 binary64 bit pattern of the numeric value.
#[derive(Debug, PartialEq)]
pub enum PropertyValue {
    /// User-authored text and optional language tag.
    Text {
        /// Text value.
        value: String,
        /// Optional language tag for user-authored text.
        language: Option<String>,
    },
    /// Reference to a package-supplied localized text key.
    LocalizedTextKey(String),
    /// Numeric value, as the bit pattern of an IEEE 754 binary64 number.
    Number(u64),
    /// Boolean value.
    Boolean(bool),
    /// Caller-supplied date/time token.
    DateTime(String),
    /// Enumerated token.
    EnumValue(String),
    /// Object reference value.
    Reference(ObjectId),
    /// Attachment reference token.
    AttachmentReference(String),
    /// Binary blob value.
    BinaryBlob(Vec<u8>),
}

/// Abstract contents of a Runtime value.
pub enum PropertyValueView {
    Text { value: Seq<char>, language: Option<Seq<char>> },
    LocalizedTextKey(Seq<char>),
    Number(u64),
    Boolean(bool),
    DateTime(Seq<char>),
    EnumValue(Seq<char>),
    Reference(Seq<char>),
    AttachmentReference(Seq<char>),
    BinaryBlob(Seq<u8>),
}

impl View for PropertyValue {
    type V = PropertyValueView;

    open spec fn view(&self) -> PropertyValueView {
        match self {
            PropertyValue::Text { value, language } => PropertyValueView::Text {
                value: value@,
                language: opt_view(*language),
            },
            PropertyValue::LocalizedTextKey(v) => PropertyValueView::LocalizedTextKey(v@),
            PropertyValue::Number(n) => PropertyValueView::Number(*n),
            PropertyValue::Boolean(b) => PropertyValueView::Boolean(*b),
            PropertyValue::DateTime(v) => PropertyValueView::DateTime(v@),
            PropertyValue::EnumValue(v) => PropertyValueView::EnumValue(v@),
            PropertyValue::Reference(v) => PropertyValueView::Reference(v@),
            PropertyValue::AttachmentReference(v) => PropertyValueView::AttachmentReference(v@),
            PropertyValue::BinaryBlob(v) => PropertyValueView::BinaryBlob(v@),
        }
    }
}

impl Clone for PropertyValue {
    fn clone(&self) -> (r: Self)
        ensures
            r@ == self@,
    {
        match self {
            PropertyValue::Text { value, language } => PropertyValue::Text {
                value: value.clone(),
                language: clone_opt_string(language),
            },
            PropertyValue::LocalizedTextKey(v) => PropertyValue::LocalizedTextKey(v.clone()),
            PropertyValue::Number(n) => PropertyValue::Number(*n),
            PropertyValue::Boolean(b) => PropertyValue::Boolean(*b),
            PropertyValue::DateTime(v) => PropertyValue::DateTime(v.clone()),
            PropertyValue::EnumValue(v) => PropertyValue::EnumValue(v.clone()),
            PropertyValue::Reference(v) => PropertyValue::Reference(v.clone()),
            PropertyValue::AttachmentReference(v) => PropertyValue::AttachmentReference(v.clone()),
            PropertyValue::BinaryBlob(v) => {
                let c = v.clone();
                assert(c@ =~= v@);
                PropertyValue::BinaryBlob(c)
            },
        }
    }
}

/// The kind of a value.
pub open spec fn value_kind(v: PropertyValueView) -> PropertyValueKind {
    match v {
        PropertyValueView::Text { .. } => PropertyValueKind::Text,
        PropertyValueView::LocalizedTextKey(_) => PropertyValueKind::LocalizedTextKey,
        PropertyValueView::Number(_) => PropertyValueKind::Number,
        PropertyValueView::Boolean(_) => PropertyValueKind::Boolean,
        PropertyValueView::DateTime(_) => PropertyValueKind::DateTime,
        PropertyValueView::EnumValue(_) => PropertyValueKind::EnumValue,
        PropertyValueView::Reference(_) => PropertyValueKind::Reference,
        PropertyValueView::AttachmentReference(_) => PropertyValueKind::AttachmentReference,
        PropertyValueView::BinaryBlob(_) => PropertyValueKind::BinaryBlob,
    }
}

impl PropertyValue {
    /// Returns the primitive kind represented by this value.
    pub fn kind(&self) -> (k: PropertyValueKind)
        ensures
            k == value_kind(self@),
    {
        match self {
            PropertyValue::Text { .. } => PropertyValueKind::Text,
            PropertyValue::LocalizedTextKey(_) => PropertyValueKind::LocalizedTextKey,
            PropertyValue::Number(_) => PropertyValueKind::Number,
            PropertyValue::Boolean(_) => PropertyValueKind::Boolean,
            PropertyValue::DateTime(_) => PropertyValueKind::DateTime,
            PropertyValue::EnumValue(_) => PropertyValueKind::EnumValue,
            PropertyValue::Reference(_) => PropertyValueKind::Reference,
            PropertyValue::AttachmentReference(_) => PropertyValueKind::AttachmentReference,
            PropertyValue::BinaryBlob(_) => PropertyValueKind::BinaryBlob,
        }
    }
}

} // verus!
