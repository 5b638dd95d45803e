use open_eqms::contracts::{
    AuthorizationDecision, AuthorizationDecisionTrace, AuthorizationEffect, AuthorizationProvider,
    AuthorizationRequest, AuthorizationTarget, CallerPermissionContext, PermissionAction,
};
use open_eqms::security::{
    AuthorizationTraceConfig, ExactAuthorizationRule, SecurityEngine, SecurityError, SecurityPolicy,
    SecurityPolicyRevision, SecurityProviderId, SecurityValidationError,
};

fn trace_config() -> AuthorizationTraceConfig {
    AuthorizationTraceConfig::new("decision-seed", "2026-09-09T10:59:00Z")
}

fn policy(default: AuthorizationEffect) -> SecurityPolicy {
    SecurityPolicy::new(
        SecurityPolicyRevision::new("policy-v1"),
        SecurityProviderId::new("minimal-security"),
        default,
        trace_config(),
    )
    .unwrap()
}

fn request(context: &str, action: &str, identifier: &str, subresource: Option<&str>) -> AuthorizationRequest {
    let target = AuthorizationTarget::new("object-runtime", "asset", identifier);
    let target = if let Some(subresource) = subresource { target.with_subresource(subresource) } else { target };
    AuthorizationRequest::new(CallerPermissionContext::new(context), PermissionAction::new(action), target)
}

fn request_with_target(
    context: &str,
    action: &str,
    source_namespace: &str,
    object_type: &str,
    identifier: &str,
) -> AuthorizationRequest {
    AuthorizationRequest::new(
        CallerPermissionContext::new(context),
        PermissionAction::new(action),
        AuthorizationTarget::new(source_namespace, object_type, identifier),
    )
}

fn policy_with(rule_request: &AuthorizationRequest, effect: AuthorizationEffect, default: AuthorizationEffect) -> SecurityPolicy {
    let mut policy = policy(default);
    policy.add_exact_rule(ExactAuthorizationRule::new(rule_request.clone(), effect).unwrap()).unwrap();
    policy
}

#[test]
fn exact_allow_rule_returns_allow() {
    let authorization_request = request("caller-001", "query.read-record", "object-001", None);
    let policy = policy_with(&authorization_request, AuthorizationEffect::Allow, AuthorizationEffect::HiddenDeny);
    let decision = SecurityEngine::new(policy).decide(&authorization_request).unwrap();
    assert_eq!(AuthorizationEffect::Allow, decision.effect());
    assert_eq!("exact-rule", decision.trace().reason_code());
}

#[test]
fn exact_explicit_deny_rule_returns_deny() {
    let authorization_request = request("caller-001", "query.read-record", "object-001", None);
    let policy = policy_with(&authorization_request, AuthorizationEffect::Deny, AuthorizationEffect::HiddenDeny);
    let decision = SecurityEngine::new(policy).decide(&authorization_request).unwrap();
    assert_eq!(AuthorizationEffect::Deny, decision.effect());
    assert_eq!("exact-rule", decision.trace().reason_code());
}

#[test]
fn exact_hidden_deny_rule_returns_hidden_deny() {
    let authorization_request = request("caller-001", "query.read-record", "object-001", None);
    let policy = policy_with(&authorization_request, AuthorizationEffect::HiddenDeny, AuthorizationEffect::Deny);
    let decision = SecurityEngine::new(policy).decide(&authorization_request).unwrap();
    assert_eq!(AuthorizationEffect::HiddenDeny, decision.effect());
    assert_eq!("exact-rule", decision.trace().reason_code());
}

#[test]
fn missing_rule_returns_configured_default_denial_effect() {
    let visible_default = SecurityEngine::new(policy(AuthorizationEffect::Deny))
        .decide(&request("caller-001", "query.read-record", "object-001", None))
        .unwrap();
    let hidden_default = SecurityEngine::new(policy(AuthorizationEffect::HiddenDeny))
        .decide(&request("caller-001", "query.read-record", "object-001", None))
        .unwrap();
    assert_eq!(AuthorizationEffect::Deny, visible_default.effect());
    assert_eq!("default-deny", visible_default.trace().reason_code());
    assert_eq!(AuthorizationEffect::HiddenDeny, hidden_default.effect());
    assert_eq!("default-hidden-deny", hidden_default.trace().reason_code());
}

#[test]
fn exact_rule_for_one_action_does_not_authorize_another_action() {
    let allowed_request = request("caller-001", "query.read-record", "object-001", None);
    let denied_request = request("caller-001", "query.write-record", "object-001", None);
    let policy = policy_with(&allowed_request, AuthorizationEffect::Allow, AuthorizationEffect::HiddenDeny);
    let decision = SecurityEngine::new(policy).decide(&denied_request).unwrap();
    assert_eq!(AuthorizationEffect::HiddenDeny, decision.effect());
    assert_eq!("default-hidden-deny", decision.trace().reason_code());
}

#[test]
fn exact_rule_for_one_caller_context_does_not_authorize_another_context() {
    let allowed_request = request("caller-001", "query.read-record", "object-001", None);
    let denied_request = request("caller-002", "query.read-record", "object-001", None);
    let policy = policy_with(&allowed_request, AuthorizationEffect::Allow, AuthorizationEffect::HiddenDeny);
    let decision = SecurityEngine::new(policy).decide(&denied_request).unwrap();
    assert_eq!(AuthorizationEffect::HiddenDeny, decision.effect());
}

#[test]
fn exact_rule_for_one_object_identifier_does_not_authorize_another_identifier() {
    let allowed_request = request("caller-001", "query.read-record", "object-001", None);
    let denied_request = request("caller-001", "query.read-record", "object-002", None);
    let policy = policy_with(&allowed_request, AuthorizationEffect::Allow, AuthorizationEffect::HiddenDeny);
    let decision = SecurityEngine::new(policy).decide(&denied_request).unwrap();
    assert_eq!(AuthorizationEffect::HiddenDeny, decision.effect());
}

#[test]
fn exact_rule_for_one_subresource_does_not_authorize_sibling_subresource() {
    let allowed_request = request("caller-001", "query.read-record", "object-001", Some("field:status"));
    let denied_request = request("caller-001", "query.read-record", "object-001", Some("field:score"));
    let policy = policy_with(&allowed_request, AuthorizationEffect::Allow, AuthorizationEffect::HiddenDeny);
    let decision = SecurityEngine::new(policy).decide(&denied_request).unwrap();
    assert_eq!(AuthorizationEffect::HiddenDeny, decision.effect());
}

#[test]
fn rule_without_subresource_does_not_authorize_subresource() {
    let parent_request = request("caller-001", "query.read-record", "object-001", None);
    let subresource_request = request("caller-001", "query.read-record", "object-001", Some("field:status"));
    let policy = policy_with(&parent_request, AuthorizationEffect::Allow, AuthorizationEffect::HiddenDeny);
    let decision = SecurityEngine::new(policy).decide(&subresource_request).unwrap();
    assert_eq!(AuthorizationEffect::HiddenDeny, decision.effect());
}

#[test]
fn decision_traces_are_present_and_deterministic_under_replay() {
    let authorization_request = request("caller-001", "query.read-record", "object-001", None);
    let policy = policy_with(&authorization_request, AuthorizationEffect::Allow, AuthorizationEffect::HiddenDeny);
    let engine = SecurityEngine::new(policy);
    let first = engine.decide(&authorization_request).unwrap();
    let second = engine.decide(&authorization_request).unwrap();
    assert_eq!(first.trace(), second.trace());
    assert_eq!("policy-v1", first.trace().policy_revision());
    assert_eq!("minimal-security", first.trace().provider_id());
    assert_eq!("2026-09-09T10:59:00Z", first.trace().decided_at());
    assert!(first.trace().decision_id().starts_with("decision-seed|effect=allow|reason=exact-rule|"));
}

#[test]
fn with_rules_constructs_policy_independent_of_rule_order() {
    let allow_request = request("caller-001", "query.read-record", "object-001", None);
    let deny_request = request("caller-001", "query.read-record", "object-002", None);
    let allow_rule = ExactAuthorizationRule::new(allow_request.clone(), AuthorizationEffect::Allow).unwrap();
    let deny_rule = ExactAuthorizationRule::new(deny_request.clone(), AuthorizationEffect::Deny).unwrap();
    let first_policy = SecurityPolicy::with_rules(
        SecurityPolicyRevision::new("policy-v1"),
        SecurityProviderId::new("minimal-security"),
        AuthorizationEffect::HiddenDeny,
        trace_config(),
        vec![allow_rule.clone(), deny_rule.clone()],
    )
    .unwrap();
    let second_policy = SecurityPolicy::with_rules(
        SecurityPolicyRevision::new("policy-v1"),
        SecurityProviderId::new("minimal-security"),
        AuthorizationEffect::HiddenDeny,
        trace_config(),
        vec![deny_rule, allow_rule],
    )
    .unwrap();
    let first_engine = SecurityEngine::new(first_policy);
    let second_engine = SecurityEngine::new(second_policy);
    assert_eq!(
        first_engine.decide(&allow_request).unwrap().trace(),
        second_engine.decide(&allow_request).unwrap().trace()
    );
    assert_eq!(
        first_engine.decide(&deny_request).unwrap().trace(),
        second_engine.decide(&deny_request).unwrap().trace()
    );
}

fn decide_via_trait<P: AuthorizationProvider<Error = SecurityError>>(
    provider: &P,
    request: &AuthorizationRequest,
) -> AuthorizationDecision {
    provider.decide(request).unwrap()
}

#[test]
fn provider_works_through_shared_authorization_provider_trait() {
    let authorization_request = request("caller-001", "query.read-record", "object-001", None);
    let policy = policy_with(&authorization_request, AuthorizationEffect::Allow, AuthorizationEffect::HiddenDeny);
    let engine = SecurityEngine::new(policy);
    let decision = decide_via_trait(&engine, &authorization_request);
    assert_eq!(AuthorizationEffect::Allow, decision.effect());
}

#[test]
fn malformed_policy_inputs_are_rejected() {
    assert!(matches!(
        SecurityPolicy::new(
            SecurityPolicyRevision::new(""),
            SecurityProviderId::new("minimal-security"),
            AuthorizationEffect::HiddenDeny,
            trace_config(),
        ),
        Err(SecurityError::MalformedPolicy { failure: SecurityValidationError::EmptyPolicyRevision })
    ));
    assert!(matches!(
        SecurityPolicy::new(
            SecurityPolicyRevision::new("policy-v1"),
            SecurityProviderId::new("minimal-security"),
            AuthorizationEffect::Allow,
            trace_config(),
        ),
        Err(SecurityError::MalformedPolicy { failure: SecurityValidationError::DefaultEffectMustDeny })
    ));
    assert!(matches!(
        SecurityPolicy::new(
            SecurityPolicyRevision::new("policy-v1"),
            SecurityProviderId::new("minimal-security"),
            AuthorizationEffect::HiddenDeny,
            AuthorizationTraceConfig::new("", "2026-09-09T10:59:00Z"),
        ),
        Err(SecurityError::MalformedPolicy { failure: SecurityValidationError::EmptyDecisionIdNamespace })
    ));
}

#[test]
fn malformed_target_components_are_rejected() {
    assert!(matches!(
        ExactAuthorizationRule::new(
            request_with_target("caller-001", "query.read-record", "", "asset", "object-001"),
            AuthorizationEffect::Allow,
        ),
        Err(SecurityError::MalformedRule { failure: SecurityValidationError::EmptyTargetSourceNamespace })
    ));
    assert!(matches!(
        ExactAuthorizationRule::new(
            request_with_target("caller-001", "query.read-record", "object-runtime", "", "object-001"),
            AuthorizationEffect::Allow,
        ),
        Err(SecurityError::MalformedRule { failure: SecurityValidationError::EmptyTargetObjectType })
    ));
    assert!(matches!(
        ExactAuthorizationRule::new(
            request_with_target("caller-001", "query.read-record", "object-runtime", "asset", ""),
            AuthorizationEffect::Allow,
        ),
        Err(SecurityError::MalformedRule { failure: SecurityValidationError::EmptyTargetObjectIdentifier })
    ));
}

#[test]
fn malformed_rule_inputs_and_duplicates_are_rejected() {
    assert!(matches!(
        ExactAuthorizationRule::new(request("", "query.read-record", "object-001", None), AuthorizationEffect::Allow),
        Err(SecurityError::MalformedRule { failure: SecurityValidationError::EmptyCallerPermissionContext })
    ));
    assert!(matches!(
        ExactAuthorizationRule::new(request("caller-001", "", "object-001", None), AuthorizationEffect::Allow),
        Err(SecurityError::MalformedRule { failure: SecurityValidationError::EmptyPermissionAction })
    ));
    assert!(matches!(
        ExactAuthorizationRule::new(
            request("caller-001", "query.read-record", "object-001", Some("")),
            AuthorizationEffect::Allow,
        ),
        Err(SecurityError::MalformedRule { failure: SecurityValidationError::EmptyTargetSubresource })
    ));

    let authorization_request = request("caller-001", "query.read-record", "object-001", None);
    let mut policy = policy_with(&authorization_request, AuthorizationEffect::Allow, AuthorizationEffect::HiddenDeny);
    assert!(matches!(
        policy.add_exact_rule(ExactAuthorizationRule::new(authorization_request, AuthorizationEffect::Deny).unwrap()),
        Err(SecurityError::DuplicateRule)
    ));
    assert!(matches!(
        SecurityPolicy::with_rules(
            SecurityPolicyRevision::new("policy-v1"),
            SecurityProviderId::new("minimal-security"),
            AuthorizationEffect::HiddenDeny,
            trace_config(),
            vec![
                ExactAuthorizationRule::new(
                    request("caller-001", "query.read-record", "object-002", None),
                    AuthorizationEffect::Allow,
                )
                .unwrap(),
                ExactAuthorizationRule::new(
                    request("caller-001", "query.read-record", "object-002", None),
                    AuthorizationEffect::Deny,
                )
                .unwrap(),
            ],
        ),
        Err(SecurityError::DuplicateRule)
    ));
}

#[test]
fn security_error_messages_name_the_failure() {
    assert_eq!(
        "malformed security policy: policy revision must not be empty",
        SecurityError::MalformedPolicy { failure: SecurityValidationError::EmptyPolicyRevision }.to_message()
    );
    assert_eq!("duplicate exact authorization rule", SecurityError::DuplicateRule.to_message());
}
