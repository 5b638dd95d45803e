use open_eqms::contracts::{
    AuthorizationDecision, AuthorizationDecisionTrace, AuthorizationEffect, AuthorizationEvaluation,
    AuthorizationProvider, AuthorizationRequest, AuthorizationTarget, CallerPermissionContext, ConsistencyBoundary,
    ConsistencyBoundaryUnavailable, ConsistencyBoundaryUnavailableReason, ConsistencySlot, ObjectId, PermissionAction,
    PropertyValue, PropertyValueKind, StableConsistencyMarker, UnitOfWork, UnitOfWorkLifecycle, UnitOfWorkStaging,
    Version,
};
use std::collections::BTreeSet;

#[test]
fn object_id_preserves_opaque_token_behavior() {
    let id = ObjectId::new("object-001");

    assert_eq!("object-001", id.as_str());
    assert_eq!("object-001", id.to_string());
    assert!(!id.is_empty());
    assert!(ObjectId::new("").is_empty());
}

#[test]
fn object_id_ordering_is_deterministic() {
    let ids = BTreeSet::from([
        ObjectId::new("object-c"),
        ObjectId::new("object-a"),
        ObjectId::new("object-b"),
    ]);
    let ordered = ids.iter().map(ObjectId::as_str).collect::<Vec<_>>();

    assert_eq!(ordered, ["object-a", "object-b", "object-c"]);
}

#[test]
fn version_preserves_monotonic_behavior() {
    let initial = Version::initial();
    let next = initial.next();

    assert_eq!(initial.value(), 1);
    assert_eq!(next, Version::new(2));
    assert!(next > initial);
}

#[test]
fn unit_of_work_preserves_opaque_token_behavior() {
    let unit_of_work = UnitOfWork::new("uow-001");

    assert_eq!("uow-001", unit_of_work.as_str());
    assert_eq!("uow-001", unit_of_work.to_string());
    assert!(!unit_of_work.is_empty());
    assert!(UnitOfWork::new("").is_empty());
}

#[test]
fn authorization_target_names_source_type_record_and_subresource() {
    let target = AuthorizationTarget::new("object-runtime", "calibration", "object-001")
        .with_subresource("field:lifecycle_state");

    assert!(target.has_required_components());
    assert_eq!("object-runtime", target.source_namespace());
    assert_eq!("calibration", target.object_type());
    assert_eq!("object-001", target.object_identifier());
    assert_eq!(Some("field:lifecycle_state"), target.subresource());
}

#[test]
fn authorization_decision_equality_ignores_trace_metadata() {
    let first = AuthorizationDecision::allow(AuthorizationDecisionTrace::new(
        "policy-v1",
        "decision-001",
        "2026-09-09T08:00:00Z",
        "security-test",
        "allow",
    ));
    let second = AuthorizationDecision::allow(AuthorizationDecisionTrace::new(
        "policy-v2",
        "decision-002",
        "2026-09-09T09:00:00Z",
        "security-test",
        "allow",
    ));
    let denial = AuthorizationDecision::deny(AuthorizationDecisionTrace::new(
        "policy-v1",
        "decision-003",
        "2026-09-09T10:00:00Z",
        "security-test",
        "deny",
    ));

    assert_eq!(first, second);
    assert_ne!(first, denial);
    assert_eq!(AuthorizationEffect::Allow, first.effect());
    assert_eq!("policy-v1", first.trace().policy_revision());
}

#[test]
fn consistency_boundary_slots_are_three_state() {
    let boundary = ConsistencyBoundary::empty()
        .with_object_runtime(ConsistencySlot::Available(StableConsistencyMarker::new(
            "object-store",
            "version:7",
        )))
        .with_event_engine(ConsistencySlot::Unavailable(ConsistencyBoundaryUnavailable::new(
            ConsistencyBoundaryUnavailableReason::TransientlyUnreachable,
            "offline",
        )));

    assert!(boundary.object_runtime().is_available());
    assert!(boundary.event_engine().is_unavailable());
    assert!(boundary.transaction_engine().is_not_requested());
}

#[test]
fn consistency_boundary_canonical_encoding_is_stable_and_ordered() {
    let boundary = ConsistencyBoundary::empty()
        .with_object_runtime(ConsistencySlot::Available(StableConsistencyMarker::new(
            "object-store",
            "version:7",
        )))
        .with_event_engine(ConsistencySlot::Unavailable(ConsistencyBoundaryUnavailable::new(
            ConsistencyBoundaryUnavailableReason::TransientlyUnreachable,
            "offline",
        )))
        .with_transaction_engine(ConsistencySlot::Available(StableConsistencyMarker::new(
            "transaction-store",
            "append-index:42",
        )));

    let expected = [
        "open-eqms.consistency-boundary.v1\n",
        "object-runtime=available;namespace=12:object-store;marker=9:version:7\n",
        "event-engine=unavailable;reason=transiently-unreachable;detail=7:offline\n",
        "transaction-engine=available;namespace=17:transaction-store;marker=15:append-index:42\n",
        "computed-value-source=not-requested\n",
        "concept-mapping=not-requested\n",
        "query-definition=not-requested\n",
    ]
    .join("");
    assert_eq!(expected, boundary.canonical_string());
    assert_eq!(expected.as_bytes(), boundary.canonical_bytes().as_slice());
}

#[test]
fn authorization_decision_semantic_equality_ignores_trace_metadata() {
    let first = AuthorizationDecision::allow(AuthorizationDecisionTrace::new(
        "policy-v1",
        "decision-001",
        "2026-09-09T10:59:00Z",
        "minimal-security",
        "exact-rule",
    ));
    let second = AuthorizationDecision::allow(AuthorizationDecisionTrace::new(
        "policy-v2",
        "decision-002",
        "2026-09-09T11:00:00Z",
        "other-security",
        "default-hidden-deny",
    ));
    let denial = AuthorizationDecision::deny(AuthorizationDecisionTrace::new(
        "policy-v1",
        "decision-003",
        "2026-09-09T11:01:00Z",
        "minimal-security",
        "exact-rule",
    ));

    assert_eq!(first, second);
    assert_ne!(first, denial);
}

#[test]
fn property_value_kind_mapping_is_backward_compatible() {
    let values = [
        PropertyValue::Text { value: "text".to_owned(), language: Some("en".to_owned()) },
        PropertyValue::LocalizedTextKey("label.key".to_owned()),
        PropertyValue::Number(42.0f64.to_bits()),
        PropertyValue::Boolean(true),
        PropertyValue::DateTime("2026-07-15T10:00:00Z".to_owned()),
        PropertyValue::EnumValue("approved".to_owned()),
        PropertyValue::Reference(ObjectId::new("target-001")),
        PropertyValue::AttachmentReference("attachment-001".to_owned()),
        PropertyValue::BinaryBlob(vec![1, 2, 3]),
    ];
    let kinds = values.iter().map(PropertyValue::kind).collect::<Vec<_>>();

    assert_eq!(
        kinds,
        [
            PropertyValueKind::Text,
            PropertyValueKind::LocalizedTextKey,
            PropertyValueKind::Number,
            PropertyValueKind::Boolean,
            PropertyValueKind::DateTime,
            PropertyValueKind::EnumValue,
            PropertyValueKind::Reference,
            PropertyValueKind::AttachmentReference,
            PropertyValueKind::BinaryBlob,
        ]
    );
}

#[test]
fn consistency_boundary_strict_equality_includes_all_slots() {
    let object_only = ConsistencyBoundary::empty().with_object_runtime(ConsistencySlot::Available(
        StableConsistencyMarker::new("object-store", "version:7"),
    ));
    let object_and_event = object_only.clone().with_event_engine(ConsistencySlot::Available(
        StableConsistencyMarker::new("event-store", "sequence:9"),
    ));

    assert_ne!(object_only, object_and_event);
    assert_eq!(object_only, object_only.clone());
}

#[test]
fn shared_values_clone_and_compare_deterministically() {
    let value = PropertyValue::Reference(ObjectId::new("object-001"));
    assert_eq!(value, value.clone());
    assert_eq!(PropertyValueKind::Reference, value.kind());
}

#[derive(Default)]
struct TestParticipant {
    lifecycle: Vec<String>,
    staged: Vec<String>,
}

impl UnitOfWorkLifecycle for TestParticipant {
    type Error = String;

    fn begin_unit_of_work(&mut self, unit_of_work: &UnitOfWork) -> Result<(), Self::Error> {
        self.lifecycle.push(format!("begin:{}", unit_of_work.as_str()));
        Ok(())
    }

    fn commit_unit_of_work(&mut self, unit_of_work: &UnitOfWork) -> Result<(), Self::Error> {
        self.lifecycle.push(format!("commit:{}", unit_of_work.as_str()));
        Ok(())
    }

    fn rollback_unit_of_work(&mut self, unit_of_work: &UnitOfWork) -> Result<(), Self::Error> {
        self.lifecycle.push(format!("rollback:{}", unit_of_work.as_str()));
        Ok(())
    }
}

impl UnitOfWorkStaging<String> for TestParticipant {
    type Error = String;

    fn stage_unit_of_work_write(&mut self, unit_of_work: &UnitOfWork, write: String) -> Result<(), Self::Error> {
        self.staged.push(format!("{}:{}", unit_of_work.as_str(), write));
        Ok(())
    }
}

#[test]
fn unit_of_work_contracts_are_provider_owned() {
    let mut participant = TestParticipant::default();
    let unit_of_work = UnitOfWork::new("uow-001");
    participant.begin_unit_of_work(&unit_of_work).unwrap();
    participant.stage_unit_of_work_write(&unit_of_work, "write-001".to_owned()).unwrap();
    participant.commit_unit_of_work(&unit_of_work).unwrap();
    assert_eq!(participant.lifecycle, ["begin:uow-001", "commit:uow-001"]);
    assert_eq!(participant.staged, ["uow-001:write-001"]);
}

#[test]
fn authorization_evaluation_equality_includes_request_identity() {
    let context = CallerPermissionContext::new("caller-context");
    let action = PermissionAction::new("query.read-record");
    let request =
        AuthorizationRequest::new(context.clone(), action.clone(), AuthorizationTarget::new("object-runtime", "asset", "object-001"));
    let same_effect = AuthorizationDecision::allow(AuthorizationDecisionTrace::new(
        "policy-v1",
        "decision-001",
        "2026-09-09T08:00:00Z",
        "security-test",
        "allow",
    ));
    let different_trace = AuthorizationDecision::allow(AuthorizationDecisionTrace::new(
        "policy-v2",
        "decision-002",
        "2026-09-09T09:00:00Z",
        "security-test",
        "allow",
    ));
    let different_request =
        AuthorizationRequest::new(context, action, AuthorizationTarget::new("object-runtime", "asset", "object-002"));
    assert_eq!(
        AuthorizationEvaluation::new(request.clone(), same_effect.clone()),
        AuthorizationEvaluation::new(request, different_trace)
    );
    assert_ne!(
        AuthorizationEvaluation::new(
            AuthorizationRequest::new(
                CallerPermissionContext::new("caller-context"),
                PermissionAction::new("query.read-record"),
                AuthorizationTarget::new("object-runtime", "asset", "object-001"),
            ),
            same_effect.clone(),
        ),
        AuthorizationEvaluation::new(different_request, same_effect)
    );
}

struct AllowAllProvider;

impl AuthorizationProvider for AllowAllProvider {
    type Error = String;

    fn decide(&self, _request: &AuthorizationRequest) -> Result<AuthorizationDecision, Self::Error> {
        Ok(AuthorizationDecision::allow(AuthorizationDecisionTrace::new(
            "policy-v1",
            "decision-001",
            "2026-09-09T08:00:00Z",
            "security-test",
            "allow",
        )))
    }
}

#[test]
fn authorization_provider_is_injected_contract_only() {
    let request = AuthorizationRequest::new(
        CallerPermissionContext::new("caller-context"),
        PermissionAction::new("query.read-record"),
        AuthorizationTarget::new("event-engine", "event", "event-001"),
    );
    let decision = AllowAllProvider.decide(&request).unwrap();
    assert_eq!(AuthorizationEffect::Allow, decision.effect());
}

#[test]
fn boundaries_with_lookalike_texts_encode_differently() {
    let split_early = ConsistencyBoundary::empty().with_object_runtime(ConsistencySlot::Available(
        StableConsistencyMarker::new("a;marker=1:b", "c"),
    ));
    let split_late = ConsistencyBoundary::empty().with_object_runtime(ConsistencySlot::Available(
        StableConsistencyMarker::new("a", "b;marker=1:c"),
    ));
    assert_ne!(split_early.canonical_string(), split_late.canonical_string());
    let same = ConsistencyBoundary::empty().with_object_runtime(ConsistencySlot::Available(
        StableConsistencyMarker::new("a;marker=1:b", "c"),
    ));
    assert_eq!(split_early.canonical_string(), same.canonical_string());
}
