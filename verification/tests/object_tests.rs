use open_eqms::collections::{OrdMap, OrdSet};
use open_eqms::demo_storage::DemoObjectStore;
use open_eqms::contracts::{ObjectId, PropertyValue, PropertyValueKind, Version};
use open_eqms::object_errors::{InvalidRelationError, MetadataError, ObjectRuntimeError, ValidationError};
use open_eqms::object_runtime::{
    CreateObjectRequest, MemoryObjectStorage, ObjectChanges, ObjectIdGenerator, ObjectRuntime, RelationUpdateRequest,
    StorageProvider, UpdateObjectRequest,
};
use open_eqms::object_types::{
    AttachmentSetRef, CommentThreadRef, LifecycleState, ObjectRecord, ObjectTypeDefinition, ObjectTypeRef,
    OwnershipInfo, PermissionScopeRef, PropertyChange, PropertyDefinition, Relation, RelationCardinality,
    RelationDefinition, RetentionRuleRef, StructuralConstraints,
};

struct FixedIds {
    ids: Vec<ObjectId>,
    index: usize,
}

impl FixedIds {
    fn new(ids: &[&str]) -> Self {
        Self { ids: ids.iter().map(|id| ObjectId::new(id)).collect(), index: 0 }
    }
}

impl ObjectIdGenerator for FixedIds {
    fn next_id(&mut self) -> ObjectId {
        let id = self.ids.get(self.index).cloned().unwrap_or_else(|| ObjectId::new(&format!("generated-{}", self.index)));
        self.index += 1;
        id
    }
}

fn type_ref() -> ObjectTypeRef {
    ObjectTypeRef::new("generic-object", 1)
}

fn alternate_type_ref() -> ObjectTypeRef {
    ObjectTypeRef::new("alternate-object", 1)
}

fn text_constraints(pattern: &str) -> StructuralConstraints {
    StructuralConstraints {
        min_length: Some(1),
        max_length: Some(64),
        pattern: Some(pattern.to_owned()),
        ..StructuralConstraints::default()
    }
}

fn object_type_with_pattern(object_type: ObjectTypeRef, pattern: &str) -> ObjectTypeDefinition {
    let mut properties = OrdMap::new();
    properties.insert(
        "name".to_owned(),
        PropertyDefinition::new("name", PropertyValueKind::Text, true, text_constraints(pattern)),
    );
    properties.insert(
        "count".to_owned(),
        PropertyDefinition::new(
            "count",
            PropertyValueKind::Number,
            false,
            StructuralConstraints {
                min_number: Some(0.0f64.to_bits()),
                max_number: Some(10.0f64.to_bits()),
                ..StructuralConstraints::default()
            },
        ),
    );
    let mut relations = OrdMap::new();
    relations.insert("parent".to_owned(), RelationDefinition::new("parent", RelationCardinality::new(0, Some(1))));
    ObjectTypeDefinition::new(object_type, properties, relations, None)
}

fn object_type(object_type: ObjectTypeRef) -> ObjectTypeDefinition {
    object_type_with_pattern(object_type, "^[A-Za-z0-9 -]+$")
}

fn runtime() -> ObjectRuntime<MemoryObjectStorage, FixedIds> {
    let mut runtime =
        ObjectRuntime::new(MemoryObjectStorage::new(), FixedIds::new(&["object-1", "object-2", "object-3", "object-4"]));
    runtime.register_object_type(object_type(type_ref())).unwrap();
    runtime
}

fn create_request(object_type: ObjectTypeRef) -> CreateObjectRequest {
    CreateObjectRequest {
        object_type,
        properties: properties("Alpha"),
        relations: OrdSet::new(),
        lifecycle_state: LifecycleState::new("draft"),
        ownership: OwnershipInfo::new(ObjectId::new("owner-1"), OrdSet::new()),
        permission_scope: PermissionScopeRef::new("scope-1"),
        retention_rule: Some(RetentionRuleRef::new("retain-default")),
        external_references: OrdSet::new(),
        comments_ref: Some(CommentThreadRef::new("comments-1")),
        attachments_ref: Some(AttachmentSetRef::new("attachments-1")),
    }
}

fn properties(name: &str) -> OrdMap<String, PropertyValue> {
    let mut properties = OrdMap::new();
    properties
        .insert("name".to_owned(), PropertyValue::Text { value: name.to_owned(), language: Some("en".to_owned()) });
    properties
}

fn set_name_change(name: &str) -> ObjectChanges {
    let mut changes = ObjectChanges::default();
    changes.property_changes.insert(
        "name".to_owned(),
        PropertyChange::SetValue(PropertyValue::Text { value: name.to_owned(), language: Some("en".to_owned()) }),
    );
    changes
}

fn shown(record: &ObjectRecord) -> String {
    format!("{record:?}")
}

#[test]
fn create_read_and_update_are_by_identity_and_versioned() {
    let mut runtime = runtime();
    let created = runtime.create_object(create_request(type_ref())).unwrap();
    assert_eq!(created.version, Version::initial());

    let read = runtime.read_object(&created.object_id).unwrap();
    assert_eq!(read.id, created.object_id);
    assert_eq!(read.object_type, type_ref());

    let updated = runtime
        .update_object(UpdateObjectRequest {
            object_id: created.object_id.clone(),
            base_version: created.version,
            changes: set_name_change("Beta"),
        })
        .unwrap();
    assert_eq!(updated.version, Version::new(2));
    assert_eq!(updated.id, created.object_id);
    assert_eq!(updated.object_type, type_ref());
}

#[test]
fn relation_target_must_exist_before_state_changes() {
    let mut runtime = runtime();
    let created = runtime.create_object(create_request(type_ref())).unwrap();
    let result = runtime.add_relation(RelationUpdateRequest {
        object_id: created.object_id.clone(),
        base_version: created.version,
        relation: Relation::new("parent", ObjectId::new("missing")),
    });
    assert!(matches!(
        result,
        Err(ObjectRuntimeError::InvalidRelation { failure: InvalidRelationError::TargetDoesNotExist { .. } })
    ));
    let unchanged = runtime.read_object(&created.object_id).unwrap();
    assert_eq!(unchanged.version, Version::initial());
    assert!(unchanged.relations.is_empty());
}

#[test]
fn unknown_property_is_rejected() {
    let mut runtime = runtime();
    let mut request = create_request(type_ref());
    request.properties.insert("business-specific".to_owned(), PropertyValue::Boolean(true));
    let result = runtime.create_object(request);
    assert!(matches!(
        result,
        Err(ObjectRuntimeError::ValidationFailed { failure: ValidationError::UnknownProperty { .. } })
    ));
}

#[test]
fn missing_required_property_is_rejected() {
    let mut runtime = runtime();
    let mut request = create_request(type_ref());
    request.properties = OrdMap::new();
    let result = runtime.create_object(request);
    assert!(matches!(
        result,
        Err(ObjectRuntimeError::ValidationFailed { failure: ValidationError::MissingRequiredProperty { .. } })
    ));
}

#[test]
fn property_type_mismatch_is_rejected() {
    let mut runtime = runtime();
    let mut request = create_request(type_ref());
    request.properties.insert("name".to_owned(), PropertyValue::Boolean(true));
    let result = runtime.create_object(request);
    assert!(matches!(
        result,
        Err(ObjectRuntimeError::ValidationFailed { failure: ValidationError::TypeMismatch { .. } })
    ));
}

#[test]
fn property_constraint_violation_is_rejected() {
    let mut runtime = runtime();
    let mut request = create_request(type_ref());
    request
        .properties
        .insert("name".to_owned(), PropertyValue::Text { value: "not allowed!".to_owned(), language: None });
    let result = runtime.create_object(request);
    assert!(matches!(
        result,
        Err(ObjectRuntimeError::ValidationFailed { failure: ValidationError::ConstraintViolation { .. } })
    ));
}

#[test]
fn cardinality_violation_is_rejected() {
    let mut runtime = runtime();
    let source = runtime.create_object(create_request(type_ref())).unwrap();
    let target_one = runtime.create_object(create_request(type_ref())).unwrap();
    let target_two = runtime.create_object(create_request(type_ref())).unwrap();
    let with_first_parent = runtime
        .add_relation(RelationUpdateRequest {
            object_id: source.object_id.clone(),
            base_version: source.version,
            relation: Relation::new("parent", target_one.object_id),
        })
        .unwrap();
    let result = runtime.add_relation(RelationUpdateRequest {
        object_id: source.object_id,
        base_version: with_first_parent.version,
        relation: Relation::new("parent", target_two.object_id),
    });
    assert!(matches!(
        result,
        Err(ObjectRuntimeError::InvalidRelation { failure: InvalidRelationError::CardinalityViolated { .. } })
    ));
}

#[test]
fn add_and_remove_relation_are_versioned_updates() {
    let mut runtime = runtime();
    let source = runtime.create_object(create_request(type_ref())).unwrap();
    let target = runtime.create_object(create_request(type_ref())).unwrap();
    let relation = Relation::new("parent", target.object_id);
    let added = runtime
        .add_relation(RelationUpdateRequest {
            object_id: source.object_id.clone(),
            base_version: source.version,
            relation: relation.clone(),
        })
        .unwrap();
    assert_eq!(added.version, Version::new(2));
    assert!(added.relations.contains(&relation));
    let removed = runtime
        .remove_relation(RelationUpdateRequest {
            object_id: source.object_id,
            base_version: added.version,
            relation: relation.clone(),
        })
        .unwrap();
    assert_eq!(removed.version, Version::new(3));
    assert!(!removed.relations.contains(&relation));
}

#[test]
fn object_not_found_error_is_distinct() {
    let runtime = runtime();
    let result = runtime.read_object(&ObjectId::new("missing"));
    assert!(matches!(result, Err(ObjectRuntimeError::ObjectNotFound { .. })));
}

#[test]
fn object_type_not_found_error_is_distinct() {
    let mut runtime = runtime();
    let result = runtime.create_object(create_request(ObjectTypeRef::new("missing-type", 1)));
    assert!(matches!(result, Err(ObjectRuntimeError::ObjectTypeNotFound { .. })));
}

#[test]
fn tests_duplicate_identity_error_is_distinct() {
    let mut runtime = ObjectRuntime::new(MemoryObjectStorage::new(), FixedIds::new(&["same", "same"]));
    runtime.register_object_type(object_type(type_ref())).unwrap();
    runtime.create_object(create_request(type_ref())).unwrap();
    let result = runtime.create_object(create_request(type_ref()));
    assert!(matches!(result, Err(ObjectRuntimeError::DuplicateIdentity { .. })));
}

#[test]
fn malformed_metadata_error_is_distinct() {
    let mut runtime = ObjectRuntime::new(MemoryObjectStorage::new(), FixedIds::new(&["object-1"]));
    let definition = object_type_with_pattern(type_ref(), "[");
    let result = runtime.register_object_type(definition);
    assert!(matches!(
        result,
        Err(ObjectRuntimeError::MalformedMetadata { failure: MetadataError::InvalidPattern { .. } })
    ));
}

#[test]
fn invalidating_metadata_update_requires_migration_marker() {
    let mut runtime = runtime();
    runtime.create_object(create_request(type_ref())).unwrap();
    let mut changed = object_type(type_ref());
    changed.properties.insert(
        "new-required".to_owned(),
        PropertyDefinition::new("new-required", PropertyValueKind::Boolean, true, StructuralConstraints::default()),
    );
    let result = runtime.register_object_type(changed);
    assert!(matches!(
        result,
        Err(ObjectRuntimeError::MalformedMetadata { failure: MetadataError::WouldInvalidateExistingInstances { .. } })
    ));
}

#[test]
fn create_requires_owner_and_permission_scope() {
    let mut runtime = runtime();
    let mut missing_owner = create_request(type_ref());
    missing_owner.ownership.owner = ObjectId::new("");
    assert!(matches!(
        runtime.create_object(missing_owner),
        Err(ObjectRuntimeError::ValidationFailed { failure: ValidationError::EmptyOwner })
    ));
    let mut missing_scope = create_request(type_ref());
    missing_scope.permission_scope = PermissionScopeRef::new("");
    assert!(matches!(
        runtime.create_object(missing_scope),
        Err(ObjectRuntimeError::ValidationFailed { failure: ValidationError::EmptyPermissionScope })
    ));
}

#[test]
fn single_object_write_is_atomic_when_storage_rejects_replace() {
    let definition = object_type(type_ref());
    let record = ObjectRecord::new(
        ObjectId::new("object-1"),
        type_ref(),
        properties("Alpha"),
        OrdSet::new(),
        LifecycleState::new("draft"),
        OwnershipInfo::new(ObjectId::new("owner-1"), OrdSet::new()),
        PermissionScopeRef::new("scope-1"),
        Version::initial(),
        None,
        OrdSet::new(),
        None,
        None,
    );
    let mut storage = DemoObjectStore::new();
    storage.put_type(definition).unwrap();
    storage.insert_object(record.clone()).unwrap();
    storage.fail_next_replace();
    let mut runtime = ObjectRuntime::new(storage, FixedIds::new(&[]));
    let result = runtime.update_object(UpdateObjectRequest {
        object_id: record.id.clone(),
        base_version: record.version,
        changes: set_name_change("Beta"),
    });
    assert!(matches!(result, Err(ObjectRuntimeError::StorageProviderFailure { .. })));
    assert_eq!(shown(&runtime.read_object(&record.id).unwrap()), shown(&record));
}

#[test]
fn same_mechanisms_apply_to_different_object_types() {
    let mut runtime = ObjectRuntime::new(MemoryObjectStorage::new(), FixedIds::new(&["object-1", "object-2"]));
    runtime.register_object_type(object_type(type_ref())).unwrap();
    runtime.register_object_type(object_type(alternate_type_ref())).unwrap();
    assert!(runtime.create_object(create_request(type_ref())).is_ok());
    let mut invalid_alternate = create_request(alternate_type_ref());
    invalid_alternate.properties.insert("business-only".to_owned(), PropertyValue::Boolean(true));
    assert!(matches!(
        runtime.create_object(invalid_alternate),
        Err(ObjectRuntimeError::ValidationFailed { failure: ValidationError::UnknownProperty { .. } })
    ));
}

fn conformance<S: StorageProvider>(storage: S) -> Result<ObjectRecord, ObjectRuntimeError> {
    let mut runtime = ObjectRuntime::new(storage, FixedIds::new(&["object-1"]));
    runtime.register_object_type(object_type(type_ref()))?;
    let created = runtime.create_object(create_request(type_ref()))?;
    runtime.read_object(&created.object_id)
}

#[test]
fn tests_storage_provider_can_be_swapped_without_changing_callers() {
    let first = conformance(MemoryObjectStorage::new()).unwrap();
    let second = conformance(DemoObjectStore::default()).unwrap();
    assert_eq!(shown(&first), shown(&second));
}

#[test]
fn internal_bulk_read_surface_has_no_filter_and_visits_all_records() {
    let mut runtime = runtime();
    let first = runtime.create_object(create_request(type_ref())).unwrap();
    let second = runtime.create_object(create_request(type_ref())).unwrap();
    let mut visited = Vec::new();

    runtime
        .visit_all_objects(|record| {
            visited.push(record.id.clone());
            Ok(())
        })
        .unwrap();

    assert_eq!(visited, vec![first.object_id, second.object_id]);
}

fn state_scenario() -> String {
    let mut runtime = runtime();
    let created = runtime.create_object(create_request(type_ref())).unwrap();
    runtime
        .update_object(UpdateObjectRequest {
            object_id: created.object_id,
            base_version: created.version,
            changes: set_name_change("Beta"),
        })
        .unwrap();

    let mut debug_records = Vec::new();
    runtime
        .visit_all_objects(|record| {
            debug_records.push(format!("{record:?}"));
            Ok(())
        })
        .unwrap();
    debug_records.join("\n")
}

#[test]
fn visiting_stops_at_the_first_refusal() {
    let mut runtime = runtime();
    runtime.create_object(create_request(type_ref())).unwrap();
    runtime.create_object(create_request(type_ref())).unwrap();
    let mut calls = 0;
    let refusal = runtime
        .visit_all_objects(|_record| {
            calls += 1;
            Err(ObjectRuntimeError::StorageProviderFailure { message: "stop".to_owned() })
        })
        .unwrap_err();
    assert_eq!(calls, 1);
    assert!(matches!(refusal, ObjectRuntimeError::StorageProviderFailure { message } if message == "stop"));
}

#[test]
fn all_objects_lists_each_record_once() {
    let mut runtime = runtime();
    let first = runtime.create_object(create_request(type_ref())).unwrap();
    let second = runtime.create_object(create_request(type_ref())).unwrap();
    let ids = runtime.all_objects().unwrap().iter().map(|record| record.id.clone()).collect::<Vec<_>>();
    assert_eq!(ids, vec![first.object_id, second.object_id]);
}

#[test]
fn replaying_identical_calls_produces_identical_state() {
    assert_eq!(state_scenario(), state_scenario());
}

#[test]
fn stale_base_version_is_a_version_conflict() {
    let mut runtime = runtime();
    let created = runtime.create_object(create_request(type_ref())).unwrap();
    runtime
        .update_object(UpdateObjectRequest {
            object_id: created.object_id.clone(),
            base_version: Version::initial(),
            changes: set_name_change("First"),
        })
        .unwrap();
    let second = runtime.update_object(UpdateObjectRequest {
        object_id: created.object_id.clone(),
        base_version: Version::initial(),
        changes: set_name_change("Second"),
    });
    assert!(matches!(second, Err(ObjectRuntimeError::VersionConflict { .. })));
    assert_eq!(runtime.read_object(&created.object_id).unwrap().version, Version::new(2));
}

#[test]
fn removing_a_property_reads_back_absent() {
    let mut runtime = runtime();
    let mut request = create_request(type_ref());
    request.properties.insert("count".to_owned(), PropertyValue::Number(3.0f64.to_bits()));
    let created = runtime.create_object(request).unwrap();
    let mut changes = ObjectChanges::default();
    changes.property_changes.insert("count".to_owned(), PropertyChange::Remove);
    let updated = runtime
        .update_object(UpdateObjectRequest { object_id: created.object_id.clone(), base_version: created.version, changes })
        .unwrap();
    assert!(updated.properties.get(&"count".to_owned()).is_none());
    assert!(updated.properties.get(&"name".to_owned()).is_some());
}

struct FloatText;

impl open_eqms::presentation::NumberText for FloatText {
    fn number_text(&self, bits: u64) -> String {
        f64::from_bits(bits).to_string()
    }
}

#[test]
fn render_asset_lists_properties_and_relations() {
    let mut runtime = runtime();
    let mut request = create_request(type_ref());
    request.properties.insert("count".to_owned(), PropertyValue::Number(2.5f64.to_bits()));
    let source = runtime.create_object(request).unwrap();
    let target = runtime.create_object(create_request(type_ref())).unwrap();
    let related = runtime
        .add_relation(RelationUpdateRequest {
            object_id: source.object_id.clone(),
            base_version: source.version,
            relation: Relation::new("parent", target.object_id.clone()),
        })
        .unwrap();
    assert_eq!(
        open_eqms::presentation::render_asset(&related, &FloatText),
        "Asset object-1\nobject_type: generic-object@1\nversion: 2\nlifecycle_state: draft\npermission_scope: scope-1\nowner: owner-1\nproperties:\n  count: 2.5\n  name: Alpha [en]\nrelations:\n  parent -> object-2\n"
    );
    let plain = runtime.read_object(&target.object_id).unwrap();
    assert!(open_eqms::presentation::render_asset(&plain, &FloatText).ends_with("relations:\n  none\n"));
}

#[test]
fn object_lookups_map_provider_answers() {
    let missing = open_eqms::object_runtime::object_type_lookup(&type_ref(), Ok(None)).unwrap_err();
    assert!(matches!(missing, ObjectRuntimeError::ObjectTypeNotFound { .. }));
    let absent = open_eqms::object_runtime::object_lookup(&ObjectId::new("object-9"), Ok(None)).unwrap_err();
    assert!(matches!(absent, ObjectRuntimeError::ObjectNotFound { object_id } if object_id == ObjectId::new("object-9")));
    let failed = open_eqms::object_runtime::object_lookup(
        &ObjectId::new("object-1"),
        Err(ObjectRuntimeError::StorageProviderFailure { message: "down".to_owned() }),
    )
    .unwrap_err();
    assert!(matches!(failed, ObjectRuntimeError::StorageProviderFailure { message } if message == "down"));
}

#[test]
fn base_version_check_names_both_versions() {
    let mut runtime = runtime();
    let created = runtime.create_object(create_request(type_ref())).unwrap();
    let current = runtime.read_object(&created.object_id).unwrap();
    open_eqms::object_runtime::check_base_version(&current, created.version).unwrap();
    let conflict = open_eqms::object_runtime::check_base_version(&current, created.version.next()).unwrap_err();
    assert!(matches!(
        conflict,
        ObjectRuntimeError::VersionConflict { object_id, expected, actual }
            if object_id == created.object_id && expected == created.version.next() && actual == created.version
    ));
    let taken = open_eqms::object_runtime::fresh_object_identity(created.object_id.clone(), Ok(true)).unwrap_err();
    assert!(matches!(taken, ObjectRuntimeError::DuplicateIdentity { .. }));
}

#[test]
fn apply_update_moves_to_the_next_version() {
    let mut runtime = runtime();
    let created = runtime.create_object(create_request(type_ref())).unwrap();
    let current = runtime.read_object(&created.object_id).unwrap();
    let definition = runtime.get_object_type(&type_ref()).unwrap();
    let updated =
        open_eqms::object_runtime::apply_update(current, &definition, set_name_change("Beta")).unwrap();
    assert_eq!(updated.version, created.version.next());
    assert_eq!(updated.properties.get(&"name".to_owned()).map(|v| format!("{v:?}")), Some(format!("{:?}", PropertyValue::Text { value: "Beta".to_owned(), language: Some("en".to_owned()) })));
}
