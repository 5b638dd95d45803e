//! The minimal deterministic Security authorization provider: a policy of
//! exact authorization rules over complete requests, a configured default
//! denial, and a reproducible decision trace.
use vstd::prelude::*;
use crate::contracts::{
    AuthorizationDecision, AuthorizationDecisionTrace, AuthorizationDecisionTraceView,
    AuthorizationDecisionView, AuthorizationEffect, AuthorizationProvider, AuthorizationRequest,
    AuthorizationRequestView,
};
use crate::text::{append_length_prefixed, length_prefixed, str_eq, string_of};

verus! {

/// Specific malformed policy or rule inputs.
#[derive(Clone, Copy, Debug, Eq, PartialEq, Structural)]
pub enum SecurityValidationError {
    /// The policy revision is empty.
    EmptyPolicyRevision,
    /// The provider identity is empty.
    EmptyProviderId,
    /// The deterministic decision-id namespace is empty.
    EmptyDecisionIdNamespace,
    /// The caller-supplied decided-at token is empty.
    EmptyDecidedAt,
    /// The configured default denial effect would allow access.
    DefaultEffectMustDeny,
    /// The caller permission context is empty.
    EmptyCallerPermissionContext,
    /// The permission action is empty.
    EmptyPermissionAction,
    /// The target source namespace is empty.
    EmptyTargetSourceNamespace,
    /// The target object type is empty.
    EmptyTargetObjectType,
    /// The target object identifier is empty.
    EmptyTargetObjectIdentifier,
    /// The supplied target subresource is empty.
    EmptyTargetSubresource,
}

/// Deterministic Security provider errors.
#[derive(Clone, Copy, Debug, Eq, PartialEq, Structural)]
pub enum SecurityError {
    /// The policy configuration is malformed.
    MalformedPolicy {
        /// Specific validation failure.
        failure: SecurityValidationError,
    },
    /// An exact authorization rule or request is malformed.
    MalformedRule {
        /// Specific validation failure.
        failure: SecurityValidationError,
    },
    /// The policy already contains an exact rule for the same request key.
    DuplicateRule,
}

/// The message a validation failure displays.
pub open spec fn validation_message(f: SecurityValidationError) -> Seq<char> {
    match f {
        SecurityValidationError::EmptyPolicyRevision => "policy revision must not be empty"@,
        SecurityValidationError::EmptyProviderId => "provider identity must not be empty"@,
        SecurityValidationError::EmptyDecisionIdNamespace => "decision-id namespace must not be empty"@,
        SecurityValidationError::EmptyDecidedAt => "decided-at token must not be empty"@,
        SecurityValidationError::DefaultEffectMustDeny => "default effect must be Deny or HiddenDeny"@,
        SecurityValidationError::EmptyCallerPermissionContext => "caller permission context must not be empty"@,
        SecurityValidationError::EmptyPermissionAction => "permission action must not be empty"@,
        SecurityValidationError::EmptyTargetSourceNamespace => "target source namespace must not be empty"@,
        SecurityValidationError::EmptyTargetObjectType => "target object type must not be empty"@,
        SecurityValidationError::EmptyTargetObjectIdentifier => "target object identifier must not be empty"@,
        SecurityValidationError::EmptyTargetSubresource =>
            "target subresource must not be empty when supplied"@,
    }
}

/// The message an error displays.
pub open spec fn security_error_message(e: SecurityError) -> Seq<char> {
    match e {
        SecurityError::MalformedPolicy { failure } => "malformed security policy: "@ + validation_message(failure),
        SecurityError::MalformedRule { failure } => "malformed authorization rule: "@ + validation_message(failure),
        SecurityError::DuplicateRule => "duplicate exact authorization rule"@,
    }
}

impl SecurityValidationError {
    /// Returns the message this failure displays.
    pub fn message(&self) -> (r: &'static str)
        ensures
            r@ == validation_message(*self),
    {
        match self {
            SecurityValidationError::EmptyPolicyRevision => "policy revision must not be empty",
            SecurityValidationError::EmptyProviderId => "provider identity must not be empty",
            SecurityValidationError::EmptyDecisionIdNamespace => "decision-id namespace must not be empty",
            SecurityValidationError::EmptyDecidedAt => "decided-at token must not be empty",
            SecurityValidationError::DefaultEffectMustDeny => "default effect must be Deny or HiddenDeny",
            SecurityValidationError::EmptyCallerPermissionContext => "caller permission context must not be empty",
            SecurityValidationError::EmptyPermissionAction => "permission action must not be empty",
            SecurityValidationError::EmptyTargetSourceNamespace => "target source namespace must not be empty",
            SecurityValidationError::EmptyTargetObjectType => "target object type must not be empty",
            SecurityValidationError::EmptyTargetObjectIdentifier => "target object identifier must not be empty",
            SecurityValidationError::EmptyTargetSubresource => "target subresource must not be empty when supplied",
        }
    }
}

impl SecurityError {
    /// Returns the message this error displays.
    pub fn to_message(&self) -> (r: String)
        ensures
            r@ == security_error_message(*self),
    {
        match self {
            SecurityError::MalformedPolicy { failure } => {
                let mut s = string_of("malformed security policy: ");
                s.append(failure.message());
                s
            },
            SecurityError::MalformedRule { failure } => {
                let mut s = string_of("malformed authorization rule: ");
                s.append(failure.message());
                s
            },
            SecurityError::DuplicateRule => string_of("duplicate exact authorization rule"),
        }
    }
}

/// Opaque policy revision recorded in every authorization decision trace.
#[derive(Debug, Eq, PartialEq, Ord, PartialOrd, Hash)]
pub struct SecurityPolicyRevision(String);

impl View for SecurityPolicyRevision {
    type V = Seq<char>;

    closed spec fn view(&self) -> Seq<char> {
        self.0@
    }
}

impl SecurityPolicyRevision {
    /// Creates a policy revision token.
    pub fn new(value: &str) -> (r: Self)
        ensures
            r@ == value@,
    {
        SecurityPolicyRevision(String::from_str(value))
    }

    /// Returns the policy revision token.
    pub fn as_str(&self) -> (r: &str)
        ensures
            r@ == self@,
    {
        self.0.as_str()
    }

    /// Reports whether the revision token is empty.
    pub fn is_empty(&self) -> (b: bool)
        ensures
            b == (self@.len() == 0),
    {
        self.0.as_str().is_empty()
    }

    /// Returns the token as an owned string, as its display form.
    pub fn to_string(&self) -> (r: String)
        ensures
            r@ == self@,
    {
        self.0.clone()
    }
}

/// Opaque Security provider identity recorded in every authorization decision trace.
#[derive(Debug, Eq, PartialEq, Ord, PartialOrd, Hash)]
pub struct SecurityProviderId(String);

impl View for SecurityProviderId {
    type V = Seq<char>;

    closed spec fn view(&self) -> Seq<char> {
        self.0@
    }
}

impl SecurityProviderId {
    /// Creates a provider identity token.
    pub fn new(value: &str) -> (r: Self)
        ensures
            r@ == value@,
    {
        SecurityProviderId(String::from_str(value))
    }

    /// Returns the provider identity token.
    pub fn as_str(&self) -> (r: &str)
        ensures
            r@ == self@,
    {
        self.0.as_str()
    }

    /// Reports whether the provider identity token is empty.
    pub fn is_empty(&self) -> (b: bool)
        ensures
            b == (self@.len() == 0),
    {
        self.0.as_str().is_empty()
    }

    /// Returns the token as an owned string, as its display form.
    pub fn to_string(&self) -> (r: String)
        ensures
            r@ == self@,
    {
        self.0.clone()
    }
}

/// Deterministic trace settings supplied by the caller.
#[derive(Debug)]
pub struct AuthorizationTraceConfig {
    decision_id_namespace: String,
    decided_at: String,
}

impl AuthorizationTraceConfig {
    /// The decision-id namespace.
    pub closed spec fn namespace_view(&self) -> Seq<char> {
        self.decision_id_namespace@
    }

    /// The decided-at token.
    pub closed spec fn decided_at_view(&self) -> Seq<char> {
        self.decided_at@
    }

    /// Creates trace settings from a decision-id namespace and a decided-at token.
    pub fn new(decision_id_namespace: &str, decided_at: &str) -> (r: Self)
        ensures
            r.namespace_view() == decision_id_namespace@,
            r.decided_at_view() == decided_at@,
    {
        AuthorizationTraceConfig {
            decision_id_namespace: String::from_str(decision_id_namespace),
            decided_at: String::from_str(decided_at),
        }
    }

    /// Returns the deterministic decision-id namespace.
    pub fn decision_id_namespace(&self) -> (r: &str)
        ensures
            r@ == self.namespace_view(),
    {
        self.decision_id_namespace.as_str()
    }

    /// Returns the caller-supplied decided-at token.
    pub fn decided_at(&self) -> (r: &str)
        ensures
            r@ == self.decided_at_view(),
    {
        self.decided_at.as_str()
    }
}

/// The first malformed component of a request used as a rule key, if any.
pub open spec fn key_failure(k: AuthorizationRequestView) -> Option<SecurityValidationError> {
    if k.context.len() == 0 {
        Some(SecurityValidationError::EmptyCallerPermissionContext)
    } else if k.action.len() == 0 {
        Some(SecurityValidationError::EmptyPermissionAction)
    } else if k.target.source_namespace.len() == 0 {
        Some(SecurityValidationError::EmptyTargetSourceNamespace)
    } else if k.target.object_type.len() == 0 {
        Some(SecurityValidationError::EmptyTargetObjectType)
    } else if k.target.object_identifier.len() == 0 {
        Some(SecurityValidationError::EmptyTargetObjectIdentifier)
    } else if k.target.subresource is Some && k.target.subresource.unwrap().len() == 0 {
        Some(SecurityValidationError::EmptyTargetSubresource)
    } else {
        None
    }
}

/// Checks that every component of a request used as a rule key is populated.
pub fn validate_request_key(request: &AuthorizationRequest) -> (r: Result<(), SecurityError>)
    ensures
        r is Ok <==> key_failure(request@) is None,
        r matches Err(e) ==> e == (SecurityError::MalformedRule { failure: key_failure(request@).unwrap() }),
{
    if request.context().is_empty() {
        return Err(SecurityError::MalformedRule { failure: SecurityValidationError::EmptyCallerPermissionContext });
    }
    if request.action().is_empty() {
        return Err(SecurityError::MalformedRule { failure: SecurityValidationError::EmptyPermissionAction });
    }
    let target = request.target();
    if target.source_namespace().is_empty() {
        return Err(SecurityError::MalformedRule { failure: SecurityValidationError::EmptyTargetSourceNamespace });
    }
    if target.object_type().is_empty() {
        return Err(SecurityError::MalformedRule { failure: SecurityValidationError::EmptyTargetObjectType });
    }
    if target.object_identifier().is_empty() {
        return Err(SecurityError::MalformedRule { failure: SecurityValidationError::EmptyTargetObjectIdentifier });
    }
    if let Some(sub) = target.subresource() {
        if sub.is_empty() {
            return Err(SecurityError::MalformedRule { failure: SecurityValidationError::EmptyTargetSubresource });
        }
    }
    Ok(())
}

/// The canonical, length-prefixed rendering of a request key.
pub open spec fn key_canonical(k: AuthorizationRequestView) -> Seq<char> {
    "context="@ + length_prefixed(k.context) + ";action="@ + length_prefixed(k.action) + ";source="@
        + length_prefixed(k.target.source_namespace) + ";type="@ + length_prefixed(k.target.object_type)
        + ";id="@ + length_prefixed(k.target.object_identifier) + ";subresource="@ + match k.target.subresource {
        Some(s) => length_prefixed(s),
        None => "none"@,
    }
}

/// The token naming an effect inside a decision identifier.
pub open spec fn effect_token_spec(e: AuthorizationEffect) -> Seq<char> {
    match e {
        AuthorizationEffect::Allow => "allow"@,
        AuthorizationEffect::Deny => "deny"@,
        AuthorizationEffect::HiddenDeny => "hidden-deny"@,
    }
}

/// The reason code recorded when no exact rule matches.
pub open spec fn default_reason(e: AuthorizationEffect) -> Seq<char> {
    match e {
        AuthorizationEffect::Deny => "default-deny"@,
        AuthorizationEffect::HiddenDeny => "default-hidden-deny"@,
        AuthorizationEffect::Allow => "invalid-default-allow"@,
    }
}

/// The deterministic decision identifier.
pub open spec fn decision_id_spec(
    namespace: Seq<char>,
    key: AuthorizationRequestView,
    effect: AuthorizationEffect,
    reason: Seq<char>,
) -> Seq<char> {
    namespace + "|effect="@ + effect_token_spec(effect) + "|reason="@ + reason + "|"@ + key_canonical(key)
}

fn effect_token(effect: AuthorizationEffect) -> (r: &'static str)
    ensures
        r@ == effect_token_spec(effect),
{
    match effect {
        AuthorizationEffect::Allow => "allow",
        AuthorizationEffect::Deny => "deny",
        AuthorizationEffect::HiddenDeny => "hidden-deny",
    }
}

fn default_reason_code(effect: AuthorizationEffect) -> (r: &'static str)
    ensures
        r@ == default_reason(effect),
{
    match effect {
        AuthorizationEffect::Deny => "default-deny",
        AuthorizationEffect::HiddenDeny => "default-hidden-deny",
        AuthorizationEffect::Allow => "invalid-default-allow",
    }
}

/// Returns the canonical rendering of a request key.
pub fn canonical_key_string(request: &AuthorizationRequest) -> (r: String)
    ensures
        r@ == key_canonical(request@),
{
    let target = request.target();
    let mut s = string_of("context=");
    append_length_prefixed(&mut s, request.context().as_str());
    s.append(";action=");
    append_length_prefixed(&mut s, request.action().as_str());
    s.append(";source=");
    append_length_prefixed(&mut s, target.source_namespace());
    s.append(";type=");
    append_length_prefixed(&mut s, target.object_type());
    s.append(";id=");
    append_length_prefixed(&mut s, target.object_identifier());
    s.append(";subresource=");
    match target.subresource() {
        Some(sub) => append_length_prefixed(&mut s, sub),
        None => s.append("none"),
    }
    assert(s@ =~= key_canonical(request@));
    s
}

/// Reports whether two requests carry the same components.
pub fn same_request(a: &AuthorizationRequest, b: &AuthorizationRequest) -> (r: bool)
    ensures
        r == (a@ == b@),
{
    let ta = a.target();
    let tb = b.target();
    let same_sub = match (ta.subresource(), tb.subresource()) {
        (Some(x), Some(y)) => str_eq(x, y),
        (None, None) => true,
        _ => false,
    };
    let r = str_eq(a.context().as_str(), b.context().as_str()) && str_eq(a.action().as_str(), b.action().as_str())
        && str_eq(ta.source_namespace(), tb.source_namespace()) && str_eq(ta.object_type(), tb.object_type())
        && str_eq(ta.object_identifier(), tb.object_identifier()) && same_sub;
    proof {
        if r {
            assert(a@.target == b@.target);
        }
    }
    r
}

/// One exact authorization rule: a complete request key and its effect.
#[derive(Debug)]
pub struct ExactAuthorizationRule {
    key: AuthorizationRequest,
    effect: AuthorizationEffect,
}

impl Clone for ExactAuthorizationRule {
    fn clone(&self) -> (r: Self)
        ensures
            r.key_view() == self.key_view(),
            r.effect_view() == self.effect_view(),
    {
        proof {
            use_type_invariant(self);
        }
        ExactAuthorizationRule { key: self.key.clone(), effect: self.effect }
    }
}

impl ExactAuthorizationRule {
    /// Every component of the rule's request key is populated, as its
    /// constructor checks.
    #[verifier::type_invariant]
    closed spec fn key_well_formed(&self) -> bool {
        key_failure(self.key@) is None
    }

    /// The rule's request key.
    pub closed spec fn key_view(&self) -> AuthorizationRequestView {
        self.key@
    }

    /// The rule's effect.
    pub closed spec fn effect_view(&self) -> AuthorizationEffect {
        self.effect
    }

    /// Creates an exact rule after validating every request-key component.
    pub fn new(request: AuthorizationRequest, effect: AuthorizationEffect) -> (r: Result<Self, SecurityError>)
        ensures
            r is Ok <==> key_failure(request@) is None,
            r matches Err(e) ==> e == (SecurityError::MalformedRule { failure: key_failure(request@).unwrap() }),
            r matches Ok(rule) ==> rule.key_view() == request@ && rule.effect_view() == effect,
    {
        match validate_request_key(&request) {
            Err(e) => Err(e),
            Ok(()) => Ok(ExactAuthorizationRule { key: request, effect }),
        }
    }
}

/// Abstract contents of a Security policy.
pub struct SecurityPolicyView {
    pub policy_revision: Seq<char>,
    pub provider_id: Seq<char>,
    pub default_denial_effect: AuthorizationEffect,
    pub decision_id_namespace: Seq<char>,
    pub decided_at: Seq<char>,
    pub rules: Map<AuthorizationRequestView, AuthorizationEffect>,
}

/// The first malformed policy input, if any.
pub open spec fn policy_failure(
    policy_revision: Seq<char>,
    provider_id: Seq<char>,
    default_denial_effect: AuthorizationEffect,
    namespace: Seq<char>,
    decided_at: Seq<char>,
) -> Option<SecurityValidationError> {
    if policy_revision.len() == 0 {
        Some(SecurityValidationError::EmptyPolicyRevision)
    } else if provider_id.len() == 0 {
        Some(SecurityValidationError::EmptyProviderId)
    } else if namespace.len() == 0 {
        Some(SecurityValidationError::EmptyDecisionIdNamespace)
    } else if decided_at.len() == 0 {
        Some(SecurityValidationError::EmptyDecidedAt)
    } else if default_denial_effect == AuthorizationEffect::Allow {
        Some(SecurityValidationError::DefaultEffectMustDeny)
    } else {
        None
    }
}

/// Exact rules, by request key, of a sequence of rules with distinct keys.
pub open spec fn rules_map(keys: Seq<AuthorizationRequestView>, effects: Seq<AuthorizationEffect>) -> Map<
    AuthorizationRequestView,
    AuthorizationEffect,
> {
    Map::new(|k: AuthorizationRequestView| keys.contains(k), |k: AuthorizationRequestView| effects[keys.index_of(k)])
}

/// No key occurs twice.
pub open spec fn distinct_keys(keys: Seq<AuthorizationRequestView>) -> bool {
    forall|i: int, j: int| 0 <= i < j < keys.len() ==> keys[i] != keys[j]
}

/// Adding a new key to rules with distinct keys keeps them distinct and adds one entry.
pub proof fn lemma_rules_map_push(
    keys: Seq<AuthorizationRequestView>,
    effects: Seq<AuthorizationEffect>,
    k: AuthorizationRequestView,
    e: AuthorizationEffect,
)
    requires
        distinct_keys(keys),
        keys.len() == effects.len(),
        !keys.contains(k),
    ensures
        distinct_keys(keys.push(k)),
        rules_map(keys.push(k), effects.push(e)) == rules_map(keys, effects).insert(k, e),
{
    let nk = keys.push(k);
    assert forall|i: int, j: int| 0 <= i < j < nk.len() implies nk[i] != nk[j] by {
        if j == keys.len() {
            assert(keys.contains(keys[i]));
        }
    }
    assert forall|x: AuthorizationRequestView| #[trigger] nk.contains(x) == (keys.contains(x) || x == k) by {
        if keys.contains(x) {
            let j = keys.index_of(x);
            assert(nk[j] == x);
        }
        if x == k {
            assert(nk[keys.len() as int] == k);
        }
        if nk.contains(x) {
            let i = nk.index_of(x);
            if i < keys.len() {
                assert(keys[i] == x);
            }
        }
    }
    assert forall|x: AuthorizationRequestView| #[trigger] nk.contains(x) implies rules_map(nk, effects.push(e))[x]
        == rules_map(keys, effects).insert(k, e)[x] by {
        let i = nk.index_of(x);
        if x != k {
            let j = keys.index_of(x);
            assert(nk[j] == x);
            if i < j {
                assert(nk[i] != nk[j]);
            } else if j < i {
                assert(nk[j] != nk[i]);
            }
        } else {
            assert(nk[keys.len() as int] == k);
            if i < keys.len() {
                assert(keys.contains(keys[i]));
            }
        }
    }
    assert(rules_map(nk, effects.push(e)) =~= rules_map(keys, effects).insert(k, e));
}

/// The decision a policy makes on a request: the effect of the exact rule for
/// the request's key, else the configured default denial, with its trace.
pub open spec fn decision_spec(p: SecurityPolicyView, request: AuthorizationRequestView) -> Result<
    AuthorizationDecisionView,
    SecurityError,
> {
    if key_failure(request) is Some {
        Err(SecurityError::MalformedRule { failure: key_failure(request).unwrap() })
    } else {
        let matched = p.rules.contains_key(request);
        let effect = if matched {
            p.rules[request]
        } else {
            p.default_denial_effect
        };
        let reason = if matched {
            "exact-rule"@
        } else {
            default_reason(p.default_denial_effect)
        };
        Ok(
            AuthorizationDecisionView {
                effect,
                trace: AuthorizationDecisionTraceView {
                    policy_revision: p.policy_revision,
                    decision_id: decision_id_spec(p.decision_id_namespace, request, effect, reason),
                    decided_at: p.decided_at,
                    provider_id: p.provider_id,
                    reason_code: reason,
                },
            },
        )
    }
}

/// Deterministic exact-match authorization policy.
#[derive(Debug)]
pub struct SecurityPolicy {
    policy_revision: SecurityPolicyRevision,
    provider_id: SecurityProviderId,
    default_denial_effect: AuthorizationEffect,
    trace_config: AuthorizationTraceConfig,
    rules: Vec<(AuthorizationRequest, AuthorizationEffect)>,
}

impl SecurityPolicy {
    closed spec fn key_views(&self) -> Seq<AuthorizationRequestView> {
        self.rules@.map_values(|r: (AuthorizationRequest, AuthorizationEffect)| r.0@)
    }

    closed spec fn effect_views(&self) -> Seq<AuthorizationEffect> {
        self.rules@.map_values(|r: (AuthorizationRequest, AuthorizationEffect)| r.1)
    }

    #[verifier::type_invariant]
    closed spec fn well_formed(&self) -> bool {
        &&& distinct_keys(self.key_views())
        &&& self.default_denial_effect != AuthorizationEffect::Allow
    }

    /// The policy's contents.
    pub closed spec fn view_policy(&self) -> SecurityPolicyView {
        SecurityPolicyView {
            policy_revision: self.policy_revision@,
            provider_id: self.provider_id@,
            default_denial_effect: self.default_denial_effect,
            decision_id_namespace: self.trace_config.namespace_view(),
            decided_at: self.trace_config.decided_at_view(),
            rules: rules_map(self.key_views(), self.effect_views()),
        }
    }

    /// Returns the configured default denial effect, which is never `Allow`.
    pub fn default_denial_effect(&self) -> (r: AuthorizationEffect)
        ensures
            r == self.view_policy().default_denial_effect,
            r != AuthorizationEffect::Allow,
    {
        proof {
            use_type_invariant(self);
        }
        self.default_denial_effect
    }

    /// Creates an empty policy after validating its inputs.
    pub fn new(
        policy_revision: SecurityPolicyRevision,
        provider_id: SecurityProviderId,
        default_denial_effect: AuthorizationEffect,
        trace_config: AuthorizationTraceConfig,
    ) -> (r: Result<Self, SecurityError>)
        ensures
            r is Ok <==> policy_failure(
                policy_revision@,
                provider_id@,
                default_denial_effect,
                trace_config.namespace_view(),
                trace_config.decided_at_view(),
            ) is None,
            r matches Err(e) ==> e == (SecurityError::MalformedPolicy {
                failure: policy_failure(
                    policy_revision@,
                    provider_id@,
                    default_denial_effect,
                    trace_config.namespace_view(),
                    trace_config.decided_at_view(),
                ).unwrap(),
            }),
            r matches Ok(p) ==> p.view_policy() == (SecurityPolicyView {
                policy_revision: policy_revision@,
                provider_id: provider_id@,
                default_denial_effect,
                decision_id_namespace: trace_config.namespace_view(),
                decided_at: trace_config.decided_at_view(),
                rules: Map::empty(),
            }),
    {
        if policy_revision.is_empty() {
            return Err(SecurityError::MalformedPolicy { failure: SecurityValidationError::EmptyPolicyRevision });
        }
        if provider_id.is_empty() {
            return Err(SecurityError::MalformedPolicy { failure: SecurityValidationError::EmptyProviderId });
        }
        if trace_config.decision_id_namespace().is_empty() {
            return Err(SecurityError::MalformedPolicy { failure: SecurityValidationError::EmptyDecisionIdNamespace });
        }
        if trace_config.decided_at().is_empty() {
            return Err(SecurityError::MalformedPolicy { failure: SecurityValidationError::EmptyDecidedAt });
        }
        if default_denial_effect == AuthorizationEffect::Allow {
            return Err(SecurityError::MalformedPolicy { failure: SecurityValidationError::DefaultEffectMustDeny });
        }
        let p = SecurityPolicy {
            policy_revision,
            provider_id,
            default_denial_effect,
            trace_config,
            rules: Vec::new(),
        };
        assert(p.key_views() =~= Seq::<AuthorizationRequestView>::empty());
        assert(p.view_policy().rules =~= Map::<AuthorizationRequestView, AuthorizationEffect>::empty());
        Ok(p)
    }

    /// Position of the rule for a request key, if any.
    fn find_rule(&self, request: &AuthorizationRequest) -> (r: Option<usize>)
        ensures
            match r {
                Some(i) => i < self.key_views().len() && self.key_views()[i as int] == request@,
                None => !self.key_views().contains(request@),
            },
    {
        let n = self.rules.len();
        let mut i: usize = 0;
        while i < n
            invariant
                n == self.key_views().len(),
                i <= n,
                forall|j: int| 0 <= j < i ==> self.key_views()[j] != request@,
            decreases n - i,
        {
            if same_request(&self.rules[i].0, request) {
                return Some(i);
            }
            i = i + 1;
        }
        None
    }

    /// Adds one exact rule; a second rule for the same request key is refused.
    pub fn add_exact_rule(&mut self, rule: ExactAuthorizationRule) -> (r: Result<(), SecurityError>)
        ensures
            r is Err <==> old(self).view_policy().rules.contains_key(rule.key_view()),
            r matches Err(e) ==> e == SecurityError::DuplicateRule,
            r is Ok ==> final(self).view_policy() == (SecurityPolicyView {
                rules: old(self).view_policy().rules.insert(rule.key_view(), rule.effect_view()),
                ..old(self).view_policy()
            }),
            r is Err ==> final(self).view_policy() == old(self).view_policy(),
            key_failure(rule.key_view()) is None,
            r is Ok ==> (decision_spec(final(self).view_policy(), rule.key_view()) matches Ok(d) && d.effect
                == rule.effect_view() && d.trace.reason_code == "exact-rule"@),
    {
        proof {
            use_type_invariant(&*self);
            use_type_invariant(&rule);
        }
        match self.find_rule(&rule.key) {
            Some(_) => {
                return Err(SecurityError::DuplicateRule);
            },
            None => {},
        }
        let ghost old_keys = self.key_views();
        let ghost old_effects = self.effect_views();
        let ghost kv = rule.key@;
        let ExactAuthorizationRule { key, effect } = rule;
        let mut rules = Vec::new();
        std::mem::swap(&mut rules, &mut self.rules);
        rules.push((key, effect));
        proof {
            assert(rules@.map_values(|r: (AuthorizationRequest, AuthorizationEffect)| r.0@) =~= old_keys.push(kv));
            assert(rules@.map_values(|r: (AuthorizationRequest, AuthorizationEffect)| r.1) =~= old_effects.push(effect));
            lemma_rules_map_push(old_keys, old_effects, kv, effect);
        }
        self.rules = rules;
        Ok(())
    }

    /// Creates a policy and adds each rule in turn.
    pub fn with_rules(
        policy_revision: SecurityPolicyRevision,
        provider_id: SecurityProviderId,
        default_denial_effect: AuthorizationEffect,
        trace_config: AuthorizationTraceConfig,
        rules: Vec<ExactAuthorizationRule>,
    ) -> (r: Result<Self, SecurityError>)
        ensures
            policy_failure(
                policy_revision@,
                provider_id@,
                default_denial_effect,
                trace_config.namespace_view(),
                trace_config.decided_at_view(),
            ) is Some ==> (r matches Err(e) && e == (SecurityError::MalformedPolicy {
                failure: policy_failure(
                    policy_revision@,
                    provider_id@,
                    default_denial_effect,
                    trace_config.namespace_view(),
                    trace_config.decided_at_view(),
                ).unwrap(),
            })),
            policy_failure(
                policy_revision@,
                provider_id@,
                default_denial_effect,
                trace_config.namespace_view(),
                trace_config.decided_at_view(),
            ) is None ==> (r is Ok <==> distinct_keys(rules@.map_values(|x: ExactAuthorizationRule| x.key_view()))),
            policy_failure(
                policy_revision@,
                provider_id@,
                default_denial_effect,
                trace_config.namespace_view(),
                trace_config.decided_at_view(),
            ) is None ==> (r matches Err(e) ==> e == SecurityError::DuplicateRule),
            r matches Ok(p) ==> p.view_policy() == (SecurityPolicyView {
                policy_revision: policy_revision@,
                provider_id: provider_id@,
                default_denial_effect,
                decision_id_namespace: trace_config.namespace_view(),
                decided_at: trace_config.decided_at_view(),
                rules: rules_map(
                    rules@.map_values(|x: ExactAuthorizationRule| x.key_view()),
                    rules@.map_values(|x: ExactAuthorizationRule| x.effect_view()),
                ),
            }),
    {
        let ghost keys = rules@.map_values(|x: ExactAuthorizationRule| x.key_view());
        let ghost effects = rules@.map_values(|x: ExactAuthorizationRule| x.effect_view());
        let ghost pf = policy_failure(
            policy_revision@,
            provider_id@,
            default_denial_effect,
            trace_config.namespace_view(),
            trace_config.decided_at_view(),
        );
        let mut policy = match SecurityPolicy::new(policy_revision, provider_id, default_denial_effect, trace_config) {
            Err(e) => {
                return Err(e);
            },
            Ok(p) => p,
        };
        let ghost base = policy.view_policy();
        let mut rules = rules;
        let ghost all = rules@;
        let n = rules.len();
        let mut i: usize = 0;
        proof {
            assert(keys.subrange(0, 0) =~= Seq::<AuthorizationRequestView>::empty());
            assert(rules_map(keys.subrange(0, 0), effects.subrange(0, 0)) =~= Map::<
                AuthorizationRequestView,
                AuthorizationEffect,
            >::empty());
        }
        let mut duplicate = false;
        while i < n && !duplicate
            invariant
                pf is None,
                all.len() == n,
                keys == all.map_values(|x: ExactAuthorizationRule| x.key_view()),
                effects == all.map_values(|x: ExactAuthorizationRule| x.effect_view()),
                i <= n,
                rules@ == all.subrange(i as int, n as int),
                duplicate ==> !distinct_keys(keys),
                !duplicate ==> distinct_keys(keys.subrange(0, i as int)),
                !duplicate ==> policy.view_policy() == (SecurityPolicyView {
                    rules: rules_map(keys.subrange(0, i as int), effects.subrange(0, i as int)),
                    ..base
                }),
            decreases n - i,
        {
            let rule = rules.remove(0);
            assert(rule.key_view() == keys[i as int]);
            assert(rule.effect_view() == effects[i as int]);
            proof {
                assert(keys.subrange(0, i + 1) =~= keys.subrange(0, i as int).push(keys[i as int]));
                assert(effects.subrange(0, i + 1) =~= effects.subrange(0, i as int).push(effects[i as int]));
            }
            match policy.add_exact_rule(rule) {
                Err(_) => {
                    proof {
                        let j = keys.subrange(0, i as int).index_of(keys[i as int]);
                        assert(keys.subrange(0, i as int)[j] == keys[j]);
                        assert(keys[j] == keys[i as int]);
                        assert(!distinct_keys(keys));
                    }
                    duplicate = true;
                },
                Ok(()) => {
                    proof {
                        lemma_rules_map_push(
                            keys.subrange(0, i as int),
                            effects.subrange(0, i as int),
                            keys[i as int],
                            effects[i as int],
                        );
                    }
                },
            }
            i = i + 1;
            assert(rules@ =~= all.subrange(i as int, n as int));
        }
        if duplicate {
            return Err(SecurityError::DuplicateRule);
        }
        proof {
            assert(keys.subrange(0, n as int) =~= keys);
            assert(effects.subrange(0, n as int) =~= effects);
        }
        Ok(policy)
    }
}


impl SecurityPolicy {
    /// Decides the effect of a request, with its reason code and trace.
    pub fn decide(&self, request: &AuthorizationRequest) -> (r: Result<AuthorizationDecision, SecurityError>)
        ensures
            r matches Ok(d) ==> decision_spec(self.view_policy(), request@) == Ok::<
                AuthorizationDecisionView,
                SecurityError,
            >(d@),
            r matches Err(e) ==> decision_spec(self.view_policy(), request@) == Err::<
                AuthorizationDecisionView,
                SecurityError,
            >(e),
            r matches Ok(d) && d@.effect == AuthorizationEffect::Allow ==> self.view_policy().rules.contains_key(request@)
                && self.view_policy().rules[request@] == AuthorizationEffect::Allow,
    {
        proof {
            use_type_invariant(self);
        }
        match validate_request_key(request) {
            Err(e) => {
                return Err(e);
            },
            Ok(()) => {},
        }
        let (effect, reason) = match self.find_rule(request) {
            Some(i) => {
                proof {
                    let keys = self.key_views();
                    let j = keys.index_of(request@);
                    assert(keys[j] == request@);
                    if j < i {
                        assert(keys[j] != keys[i as int]);
                    } else if i < j {
                        assert(keys[i as int] != keys[j]);
                    }
                    assert(self.effect_views()[i as int] == self.rules@[i as int].1);
                }
                (self.rules[i].1, "exact-rule")
            },
            None => (self.default_denial_effect, default_reason_code(self.default_denial_effect)),
        };
        let mut decision_id = string_of(self.trace_config.decision_id_namespace());
        decision_id.append("|effect=");
        decision_id.append(effect_token(effect));
        decision_id.append("|reason=");
        decision_id.append(reason);
        decision_id.append("|");
        let canonical = canonical_key_string(request);
        decision_id.append(canonical.as_str());
        let trace = AuthorizationDecisionTrace::new(
            self.policy_revision.as_str(),
            decision_id.as_str(),
            self.trace_config.decided_at(),
            self.provider_id.as_str(),
            reason,
        );
        let d = AuthorizationDecision::new(effect, trace);
        proof {
            let p = self.view_policy();
            assert(decision_id@ =~= decision_id_spec(p.decision_id_namespace, request@, effect, reason@));
        }
        Ok(d)
    }
}

/// Deterministic authorization provider over one exact-rule policy.
#[derive(Debug)]
pub struct SecurityEngine {
    policy: SecurityPolicy,
}

impl SecurityEngine {
    /// The engine's policy.
    pub closed spec fn policy_view(&self) -> SecurityPolicyView {
        self.policy.view_policy()
    }

    /// Creates an engine over a validated policy.
    pub fn new(policy: SecurityPolicy) -> (r: Self)
        ensures
            r.policy_view() == policy.view_policy(),
    {
        SecurityEngine { policy }
    }

    /// Decides one authorization request.
    pub fn decide_authorization(&self, request: &AuthorizationRequest) -> (r: Result<AuthorizationDecision, SecurityError>)
        ensures
            r matches Ok(d) ==> decision_spec(self.policy_view(), request@) == Ok::<
                AuthorizationDecisionView,
                SecurityError,
            >(d@),
            r matches Err(e) ==> decision_spec(self.policy_view(), request@) == Err::<
                AuthorizationDecisionView,
                SecurityError,
            >(e),
            r matches Ok(d) && d@.effect == AuthorizationEffect::Allow ==> self.policy_view().rules.contains_key(request@)
                && self.policy_view().rules[request@] == AuthorizationEffect::Allow,
    {
        self.policy.decide(request)
    }
}

impl AuthorizationProvider for SecurityEngine {
    type Error = SecurityError;

    fn decide(&self, request: &AuthorizationRequest) -> (r: Result<AuthorizationDecision, SecurityError>)
        ensures
            r matches Ok(d) ==> decision_spec(self.policy_view(), request@) == Ok::<
                AuthorizationDecisionView,
                SecurityError,
            >(d@),
            r matches Err(e) ==> decision_spec(self.policy_view(), request@) == Err::<
                AuthorizationDecisionView,
                SecurityError,
            >(e),
    {
        self.decide_authorization(request)
    }
}

/// The same exact rules, in whatever order they are given, make the same rule
/// map: a policy built from rules does not depend on their order.
pub proof fn law_rule_order_is_irrelevant(
    rules_a: Seq<(AuthorizationRequestView, AuthorizationEffect)>,
    rules_b: Seq<(AuthorizationRequestView, AuthorizationEffect)>,
)
    requires
        distinct_keys(rules_a.map_values(|r: (AuthorizationRequestView, AuthorizationEffect)| r.0)),
        distinct_keys(rules_b.map_values(|r: (AuthorizationRequestView, AuthorizationEffect)| r.0)),
        rules_a.to_set() == rules_b.to_set(),
    ensures
        rules_map(
            rules_a.map_values(|r: (AuthorizationRequestView, AuthorizationEffect)| r.0),
            rules_a.map_values(|r: (AuthorizationRequestView, AuthorizationEffect)| r.1),
        ) == rules_map(
            rules_b.map_values(|r: (AuthorizationRequestView, AuthorizationEffect)| r.0),
            rules_b.map_values(|r: (AuthorizationRequestView, AuthorizationEffect)| r.1),
        ),
{
    let ka = rules_a.map_values(|r: (AuthorizationRequestView, AuthorizationEffect)| r.0);
    let ea = rules_a.map_values(|r: (AuthorizationRequestView, AuthorizationEffect)| r.1);
    let kb = rules_b.map_values(|r: (AuthorizationRequestView, AuthorizationEffect)| r.0);
    let eb = rules_b.map_values(|r: (AuthorizationRequestView, AuthorizationEffect)| r.1);
    assert forall|k: AuthorizationRequestView| #[trigger] ka.contains(k) implies kb.contains(k) && ea[ka.index_of(k)]
        == eb[kb.index_of(k)] by {
        let i = ka.index_of(k);
        assert(rules_a.to_set().contains(rules_a[i]));
        let j = rules_b.index_of(rules_a[i]);
        assert(rules_b[j] == rules_a[i]);
        assert(kb[j] == k);
        let j2 = kb.index_of(k);
        if j2 < j {
            assert(kb[j2] != kb[j]);
        } else if j < j2 {
            assert(kb[j] != kb[j2]);
        }
    }
    assert forall|k: AuthorizationRequestView| #[trigger] kb.contains(k) implies ka.contains(k) by {
        let j = kb.index_of(k);
        assert(rules_b.to_set().contains(rules_b[j]));
        let i = rules_a.index_of(rules_b[j]);
        assert(rules_a[i] == rules_b[j]);
        assert(ka[i] == k);
    }
    assert(rules_map(ka, ea) =~= rules_map(kb, eb));
}
} // verus!
