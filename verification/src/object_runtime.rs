//! The Object Runtime: current Object state. It registers Object Type
//! metadata, creates Objects, reads them, and applies deterministic,
//! versioned, single-Object updates through an abstract storage boundary.
use vstd::prelude::*;
use crate::collections::{OrdMap, OrdSet, OrderedKey};
use crate::contracts::{ObjectId, PropertyValue, PropertyValueView, UnitOfWork, Version};
use crate::event_types::payload_view;
use crate::object_errors::{
    InvalidRelationError, InvalidRelationErrorView, MetadataError, MetadataErrorView, ObjectRuntimeError,
    ObjectRuntimeErrorView, ValidationErrorView,
};
use crate::object_types::{
    attachments_view, comments_view, retention_view, AttachmentSetRef, CommentThreadRef, ExternalReference,
    LifecycleState, ObjectRecord, ObjectRecordView, ObjectTypeDefinition, ObjectTypeDefinitionView,
    ObjectTypeRef, ObjectTypeRefView, OwnershipInfo, PermissionScopeRef, PropertyChange, Relation,
    RetentionRuleRef,
};
use crate::object_validation::{
    object_metadata_failure, owner_and_scope_failure, record_shape_failure, validate_object_metadata,
    validate_owner_and_scope, validate_record_shape,
};
use crate::text::{str_eq, string_of};

verus! {

/// Abstract contents of a property change.
pub enum PropertyChangeView {
    SetValue(PropertyValueView),
    Remove,
}

impl View for PropertyChange {
    type V = PropertyChangeView;

    open spec fn view(&self) -> PropertyChangeView {
        match self {
            PropertyChange::SetValue(v) => PropertyChangeView::SetValue(v@),
            PropertyChange::Remove => PropertyChangeView::Remove,
        }
    }
}

/// The properties after applying the first `n` changes, in ascending key order.
pub open spec fn apply_property_changes(
    props: Map<Seq<char>, PropertyValueView>,
    keys: Seq<Seq<char>>,
    changes: Seq<PropertyChangeView>,
    n: int,
) -> Map<Seq<char>, PropertyValueView>
    decreases n,
{
    if n <= 0 {
        props
    } else {
        let before = apply_property_changes(props, keys, changes, n - 1);
        match changes[n - 1] {
            PropertyChangeView::SetValue(v) => before.insert(keys[n - 1], v),
            PropertyChangeView::Remove => before.remove(keys[n - 1]),
        }
    }
}

/// Every stored relation target exists among the stored Objects.
pub open spec fn targets_exist(objects: Map<Seq<char>, ObjectRecordView>, rels: Seq<(Seq<char>, Seq<char>)>) -> bool {
    forall|i: int| 0 <= i < rels.len() ==> objects.contains_key(#[trigger] rels[i].1)
}

/// Some stored Object of the definition's type name would fail the new definition.
pub open spec fn would_invalidate(objects: Map<Seq<char>, ObjectRecordView>, d: ObjectTypeDefinitionView) -> bool {
    exists|id: Seq<char>|
        #[trigger] objects.contains_key(id) && objects[id].object_type.name == d.type_ref.name
            && record_shape_failure(d, objects[id]) is Some
}

/// Abstract persistence boundary used by the Object Runtime: stored Object
/// Type definitions by reference, and stored Objects by identity.
pub trait StorageProvider {
    /// The stored Object Type definitions, by reference.
    spec fn stored_types(&self) -> Map<ObjectTypeRefView, ObjectTypeDefinitionView>;

    /// The stored Objects, by identity.
    spec fn stored_objects(&self) -> Map<Seq<char>, ObjectRecordView>;

    /// Retrieves an Object Type definition by exact name/version reference.
    fn get_type(&self, object_type: &ObjectTypeRef) -> (r: Result<Option<ObjectTypeDefinition>, ObjectRuntimeError>)
        ensures
            r matches Ok(found) ==> (found is Some <==> self.stored_types().contains_key(object_type@)),
            r matches Ok(Some(d)) ==> d@ == self.stored_types()[object_type@],
    ;

    /// Stores or replaces an Object Type definition.
    fn put_type(&mut self, definition: ObjectTypeDefinition) -> (r: Result<(), ObjectRuntimeError>)
        ensures
            r is Ok ==> final(self).stored_types() == old(self).stored_types().insert(
                definition.type_ref@,
                definition@,
            ),
            r is Err ==> final(self).stored_types() == old(self).stored_types(),
            final(self).stored_objects() == old(self).stored_objects(),
    ;

    /// Retrieves an Object record by identity.
    fn get_object(&self, object_id: &ObjectId) -> (r: Result<Option<ObjectRecord>, ObjectRuntimeError>)
        ensures
            r matches Ok(found) ==> (found is Some <==> self.stored_objects().contains_key(object_id@)),
            r matches Ok(Some(record)) ==> record@ == self.stored_objects()[object_id@] && record@.id == object_id@,
    ;

    /// Inserts a new Object record, rejecting an identity that already exists.
    fn insert_object(&mut self, record: ObjectRecord) -> (r: Result<(), ObjectRuntimeError>)
        ensures
            r is Ok ==> !old(self).stored_objects().contains_key(record@.id) && final(self).stored_objects()
                == old(self).stored_objects().insert(record@.id, record@),
            r is Err ==> final(self).stored_objects() == old(self).stored_objects(),
            final(self).stored_types() == old(self).stored_types(),
    ;

    /// Replaces an Object record if its stored version equals `expected_version`.
    fn replace_object(&mut self, record: ObjectRecord, expected_version: Version) -> (r: Result<(), ObjectRuntimeError>)
        ensures
            r is Ok ==> {
                &&& old(self).stored_objects().contains_key(record@.id)
                &&& old(self).stored_objects()[record@.id].version == expected_version@
                &&& final(self).stored_objects() == old(self).stored_objects().insert(record@.id, record@)
            },
            r is Err ==> final(self).stored_objects() == old(self).stored_objects(),
            final(self).stored_types() == old(self).stored_types(),
    ;

    /// Begins a unit of work; a provider without unit-of-work support refuses.
    fn begin_unit_of_work(&mut self, unit_of_work: &UnitOfWork) -> (r: Result<(), ObjectRuntimeError>) {
        Err(unsupported_unit_of_work())
    }

    /// Stages a replacement inside a unit of work; a provider without support refuses.
    fn replace_object_in_unit_of_work(
        &mut self,
        unit_of_work: &UnitOfWork,
        record: ObjectRecord,
        expected_version: Version,
    ) -> (r: Result<(), ObjectRuntimeError>) {
        Err(unsupported_unit_of_work())
    }

    /// Commits a unit of work; a provider without support refuses.
    fn commit_unit_of_work(&mut self, unit_of_work: &UnitOfWork) -> (r: Result<(), ObjectRuntimeError>) {
        Err(unsupported_unit_of_work())
    }

    /// Rolls back a unit of work; a provider without support refuses.
    fn rollback_unit_of_work(&mut self, unit_of_work: &UnitOfWork) -> (r: Result<(), ObjectRuntimeError>) {
        Err(unsupported_unit_of_work())
    }

    /// Reports whether an Object identity exists.
    fn object_exists(&self, object_id: &ObjectId) -> (r: Result<bool, ObjectRuntimeError>)
        ensures
            r matches Ok(b) ==> b == self.stored_objects().contains_key(object_id@),
    ;

    /// Returns every stored Object record.
    fn list_objects(&self) -> (r: Result<Vec<ObjectRecord>, ObjectRuntimeError>)
        ensures
            r matches Ok(v) ==> {
                &&& forall|i: int| 0 <= i < v@.len() ==> self.stored_objects().contains_key(#[trigger] v@[i]@.id)
                    && self.stored_objects()[v@[i]@.id] == v@[i]@
                &&& forall|id: Seq<char>| #[trigger] self.stored_objects().contains_key(id) ==> exists|i: int|
                    0 <= i < v@.len() && #[trigger] v@[i]@.id == id
            },
    ;
}

/// A visitor of this kind answered `Ok` for `record`, in some state of its own.
pub open spec fn accepted_by<F: FnMut(&ObjectRecord) -> Result<(), ObjectRuntimeError>>(record: ObjectRecord) -> bool {
    exists|g: F, outcome: Result<(), ObjectRuntimeError>| #[trigger] call_ensures(g, (&record,), outcome) && outcome is Ok
}

/// The refusal of a provider that does not take part in units of work.
pub fn unsupported_unit_of_work() -> (e: ObjectRuntimeError)
    ensures
        e@ == (ObjectRuntimeErrorView::StorageProviderFailure {
            message: "unit-of-work participation is not supported by this storage provider"@,
        }),
{
    ObjectRuntimeError::StorageProviderFailure {
        message: string_of("unit-of-work participation is not supported by this storage provider"),
    }
}

/// The answer to an Object Type lookup, given the storage provider's answer:
/// the definition it found, `ObjectTypeNotFound` when it found none, or its
/// own failure.
pub fn object_type_lookup(
    object_type: &ObjectTypeRef,
    answer: Result<Option<ObjectTypeDefinition>, ObjectRuntimeError>,
) -> (r: Result<ObjectTypeDefinition, ObjectRuntimeError>)
    ensures
        match answer {
            Ok(Some(d)) => r == Ok::<ObjectTypeDefinition, ObjectRuntimeError>(d),
            Ok(None) => r matches Err(e) && e@ == (ObjectRuntimeErrorView::ObjectTypeNotFound { object_type: object_type@ }),
            Err(e) => r == Err::<ObjectTypeDefinition, ObjectRuntimeError>(e),
        },
{
    match answer {
        Err(e) => Err(e),
        Ok(Some(d)) => Ok(d),
        Ok(None) => Err(ObjectRuntimeError::ObjectTypeNotFound { object_type: object_type.clone() }),
    }
}

/// The identity a new Object gets, given the storage provider's answer to
/// whether the generated identity is taken: the identity when it is free,
/// `DuplicateIdentity` when it is taken, or the provider's own failure.
pub fn fresh_object_identity(object_id: ObjectId, answer: Result<bool, ObjectRuntimeError>) -> (r: Result<
    ObjectId,
    ObjectRuntimeError,
>)
    ensures
        match answer {
            Ok(false) => r == Ok::<ObjectId, ObjectRuntimeError>(object_id),
            Ok(true) => r matches Err(e) && e@ == (ObjectRuntimeErrorView::DuplicateIdentity { object_id: object_id@ }),
            Err(e) => r == Err::<ObjectId, ObjectRuntimeError>(e),
        },
{
    match answer {
        Err(e) => Err(e),
        Ok(true) => Err(ObjectRuntimeError::DuplicateIdentity { object_id }),
        Ok(false) => Ok(object_id),
    }
}

/// Checks the caller's base version against the stored record:
/// `VersionConflict` naming the Object, the base version and the stored
/// version when they differ.
pub fn check_base_version(current: &ObjectRecord, base_version: Version) -> (r: Result<(), ObjectRuntimeError>)
    ensures
        r is Ok <==> current@.version == base_version@,
        r matches Err(e) ==> e@ == (ObjectRuntimeErrorView::VersionConflict {
            object_id: current@.id,
            expected: base_version@,
            actual: current@.version,
        }),
{
    if !current.version.same_as(base_version) {
        return Err(
            ObjectRuntimeError::VersionConflict {
                object_id: current.id.clone(),
                expected: base_version,
                actual: current.version,
            },
        );
    }
    Ok(())
}

/// Applies changes to a stored record under its Object Type: the changed
/// record at the next version, or the first way it does not fit the Object
/// Type.
pub fn apply_update(current: ObjectRecord, definition: &ObjectTypeDefinition, changes: ObjectChanges) -> (r: Result<
    ObjectRecord,
    ObjectRuntimeError,
>)
    requires
        current@.version < u64::MAX,
    ensures
        r matches Ok(u) ==> changed_record(current@, changes, u@) && u@.version == current@.version + 1
            && record_shape_failure(definition@, u@) is None,
        r matches Err(e) ==> exists|u: ObjectRecordView|
            #![trigger record_shape_failure(definition@, u)]
            changed_record(current@, changes, u) && u.version == current@.version + 1 && record_shape_failure(definition@, u)
                == Some(e@),
{
    let mut updated = apply_changes(current, changes);
    updated.version = updated.version.next();
    match validate_record_shape(definition, &updated) {
        Err(e) => Err(e),
        Ok(()) => Ok(updated),
    }
}

/// The answer to an Object read, given the storage provider's answer: the
/// record it found, `ObjectNotFound` when it found none, or its own failure.
pub fn object_lookup(object_id: &ObjectId, answer: Result<Option<ObjectRecord>, ObjectRuntimeError>) -> (r: Result<
    ObjectRecord,
    ObjectRuntimeError,
>)
    ensures
        match answer {
            Ok(Some(d)) => r == Ok::<ObjectRecord, ObjectRuntimeError>(d),
            Ok(None) => r matches Err(e) && e@ == (ObjectRuntimeErrorView::ObjectNotFound { object_id: object_id@ }),
            Err(e) => r == Err::<ObjectRecord, ObjectRuntimeError>(e),
        },
{
    match answer {
        Err(e) => Err(e),
        Ok(Some(record)) => Ok(record),
        Ok(None) => Err(ObjectRuntimeError::ObjectNotFound { object_id: object_id.clone() }),
    }
}

/// Object identity source used by create operations.
pub trait ObjectIdGenerator {
    /// Returns the next opaque Object identifier.
    fn next_id(&mut self) -> ObjectId;
}

/// Request to create one Object.
#[derive(Debug)]
pub struct CreateObjectRequest {
    /// Object Type reference to validate against.
    pub object_type: ObjectTypeRef,
    /// Initial property values.
    pub properties: OrdMap<String, PropertyValue>,
    /// Initial relations.
    pub relations: OrdSet<Relation>,
    /// Initial lifecycle state marker.
    pub lifecycle_state: LifecycleState,
    /// Ownership and responsibility metadata.
    pub ownership: OwnershipInfo,
    /// Opaque permission scope reference.
    pub permission_scope: PermissionScopeRef,
    /// Optional retention rule reference.
    pub retention_rule: Option<RetentionRuleRef>,
    /// Stable external-system references.
    pub external_references: OrdSet<ExternalReference>,
    /// Optional comment thread reference.
    pub comments_ref: Option<CommentThreadRef>,
    /// Optional attachment set reference.
    pub attachments_ref: Option<AttachmentSetRef>,
}

/// The record a create request becomes under an identity, at the initial version.
pub open spec fn created_record(request: CreateObjectRequest, id: Seq<char>) -> ObjectRecordView {
    ObjectRecordView {
        id,
        object_type: request.object_type@,
        property_keys: request.properties.keys(),
        properties: payload_view(request.properties),
        relations: request.relations.keys(),
        lifecycle_state: request.lifecycle_state@,
        owner: request.ownership.owner@,
        responsible_users: request.ownership.responsible_users.as_set(),
        permission_scope: request.permission_scope@,
        version: 1,
        retention_rule: retention_view(request.retention_rule),
        external_references: request.external_references.as_set(),
        comments_ref: comments_view(request.comments_ref),
        attachments_ref: attachments_view(request.attachments_ref),
    }
}

/// Result of a successful create operation.
#[derive(Debug)]
pub struct CreateObjectResult {
    /// Newly assigned Object identifier.
    pub object_id: ObjectId,
    /// Initial Object version.
    pub version: Version,
    /// Full newly stored Object record.
    pub record: ObjectRecord,
}

/// Requested changes for one Object.
#[derive(Debug)]
pub struct ObjectChanges {
    /// Property changes keyed by language-neutral property name.
    pub property_changes: OrdMap<String, PropertyChange>,
    /// Relations to add.
    pub relations_to_add: OrdSet<Relation>,
    /// Relations to remove.
    pub relations_to_remove: OrdSet<Relation>,
    /// Optional lifecycle state replacement.
    pub lifecycle_state: Option<LifecycleState>,
    /// Optional ownership replacement.
    pub ownership: Option<OwnershipInfo>,
    /// Optional permission scope replacement.
    pub permission_scope: Option<PermissionScopeRef>,
    /// Optional retention rule replacement; `Some(None)` clears it.
    pub retention_rule: Option<Option<RetentionRuleRef>>,
    /// Optional external reference replacement.
    pub external_references: Option<OrdSet<ExternalReference>>,
    /// Optional comment thread replacement; `Some(None)` clears it.
    pub comments_ref: Option<Option<CommentThreadRef>>,
    /// Optional attachment set replacement; `Some(None)` clears it.
    pub attachments_ref: Option<Option<AttachmentSetRef>>,
}

impl Default for ObjectChanges {
    fn default() -> (r: Self)
        ensures
            r.property_changes.keys().len() == 0,
            r.relations_to_add.as_set() == Set::<(Seq<char>, Seq<char>)>::empty(),
            r.relations_to_remove.as_set() == Set::<(Seq<char>, Seq<char>)>::empty(),
            r.lifecycle_state is None,
            r.ownership is None,
            r.permission_scope is None,
            r.retention_rule is None,
            r.external_references is None,
            r.comments_ref is None,
            r.attachments_ref is None,
    {
        ObjectChanges {
            property_changes: OrdMap::new(),
            relations_to_add: OrdSet::new(),
            relations_to_remove: OrdSet::new(),
            lifecycle_state: None,
            ownership: None,
            permission_scope: None,
            retention_rule: None,
            external_references: None,
            comments_ref: None,
            attachments_ref: None,
        }
    }
}

/// The views of the property changes, in ascending key order.
pub open spec fn change_views(changes: ObjectChanges) -> Seq<PropertyChangeView> {
    changes.property_changes.values().map_values(|c: PropertyChange| c@)
}

/// What applying `changes` makes of a record, apart from its version.
pub open spec fn changed_record(r: ObjectRecordView, changes: ObjectChanges, result: ObjectRecordView) -> bool {
    &&& result.id == r.id
    &&& result.object_type == r.object_type
    &&& result.properties == apply_property_changes(
        r.properties,
        changes.property_changes.keys(),
        change_views(changes),
        changes.property_changes.keys().len() as int,
    )
    &&& result.property_keys.to_set() == result.properties.dom()
    &&& result.relations.to_set() == r.relations.to_set().difference(changes.relations_to_remove.as_set()).union(
        changes.relations_to_add.as_set(),
    )
    &&& result.lifecycle_state == (match changes.lifecycle_state {
        Some(s) => s@,
        None => r.lifecycle_state,
    })
    &&& result.owner == (match changes.ownership {
        Some(o) => o.owner@,
        None => r.owner,
    })
    &&& result.responsible_users == (match changes.ownership {
        Some(o) => o.responsible_users.as_set(),
        None => r.responsible_users,
    })
    &&& result.permission_scope == (match changes.permission_scope {
        Some(s) => s@,
        None => r.permission_scope,
    })
    &&& result.retention_rule == (match changes.retention_rule {
        Some(x) => retention_view(x),
        None => r.retention_rule,
    })
    &&& result.external_references == (match changes.external_references {
        Some(x) => x.as_set(),
        None => r.external_references,
    })
    &&& result.comments_ref == (match changes.comments_ref {
        Some(x) => comments_view(x),
        None => r.comments_ref,
    })
    &&& result.attachments_ref == (match changes.attachments_ref {
        Some(x) => attachments_view(x),
        None => r.attachments_ref,
    })
}

/// Applies requested changes to a record: property changes in ascending key
/// order, then relation removals, then relation additions, then each
/// replacement that is present. The version is left as it is.
pub fn apply_changes(record: ObjectRecord, changes: ObjectChanges) -> (r: ObjectRecord)
    ensures
        changed_record(record@, changes, r@),
        r.version == record.version,
{
    let ghost rv = record@;
    let ObjectRecord {
        id,
        object_type,
        properties,
        relations,
        lifecycle_state,
        ownership,
        permission_scope,
        version,
        retention_rule,
        external_references,
        comments_ref,
        attachments_ref,
    } = record;
    let ghost cviews = change_views(changes);
    let ghost ckeys = changes.property_changes.keys();
    let mut properties = properties;
    let n = changes.property_changes.len();
    proof {
        changes.property_changes.lemma_shape();
    }
    let mut i: usize = 0;
    while i < n
        invariant
            ckeys == changes.property_changes.keys(),
            cviews == change_views(changes),
            n == ckeys.len(),
            ckeys.len() == changes.property_changes.values().len(),
            i <= n,
            payload_view(properties) == apply_property_changes(rv.properties, ckeys, cviews, i as int),
        decreases n - i,
    {
        let key = changes.property_changes.key_at(i);
        let change = changes.property_changes.value_at(i);
        let ghost before = payload_view(properties);
        match change {
            PropertyChange::SetValue(value) => {
                let v = value.clone();
                let ghost vv = v@;
                properties.insert(key.clone(), v);
                assert(payload_view(properties) =~= before.insert(key@, vv));
            },
            PropertyChange::Remove => {
                properties.remove(key);
                assert(payload_view(properties) =~= before.remove(key@));
            },
        }
        i = i + 1;
    }
    let mut relations = relations;
    let ghost rel0 = relations.as_set();
    let ghost remove_keys = changes.relations_to_remove.keys();
    let nr = changes.relations_to_remove.len();
    let mut j: usize = 0;
    while j < nr
        invariant
            remove_keys == changes.relations_to_remove.keys(),
            nr == remove_keys.len(),
            j <= nr,
            forall|x: (Seq<char>, Seq<char>)| #[trigger] relations.as_set().contains(x) <==> (rel0.contains(x)
                && !remove_keys.subrange(0, j as int).contains(x)),
        decreases nr - j,
    {
        let relation = changes.relations_to_remove.item_at(j);
        relations.remove(relation);
        proof {
            assert forall|x: (Seq<char>, Seq<char>)| #[trigger] relations.as_set().contains(x) <==> (rel0.contains(x)
                && !remove_keys.subrange(0, j + 1).contains(x)) by {
                if remove_keys.subrange(0, j + 1).contains(x) && x != remove_keys[j as int] {
                    let k = remove_keys.subrange(0, j + 1).index_of(x);
                    assert(remove_keys.subrange(0, j as int)[k] == x);
                }
                if remove_keys.subrange(0, j as int).contains(x) {
                    let k = remove_keys.subrange(0, j as int).index_of(x);
                    assert(remove_keys.subrange(0, j + 1)[k] == x);
                }
                assert(remove_keys.subrange(0, j + 1)[j as int] == remove_keys[j as int]);
            }
        }
        j = j + 1;
    }
    let ghost rel1 = relations.as_set();
    let ghost add_keys = changes.relations_to_add.keys();
    let na = changes.relations_to_add.len();
    let mut k: usize = 0;
    while k < na
        invariant
            add_keys == changes.relations_to_add.keys(),
            na == add_keys.len(),
            k <= na,
            forall|x: (Seq<char>, Seq<char>)| #[trigger] relations.as_set().contains(x) <==> (rel1.contains(x)
                || add_keys.subrange(0, k as int).contains(x)),
        decreases na - k,
    {
        let relation = changes.relations_to_add.item_at(k);
        relations.insert(relation.clone());
        proof {
            assert forall|x: (Seq<char>, Seq<char>)| #[trigger] relations.as_set().contains(x) <==> (rel1.contains(x)
                || add_keys.subrange(0, k + 1).contains(x)) by {
                if add_keys.subrange(0, k + 1).contains(x) && x != add_keys[k as int] {
                    let q = add_keys.subrange(0, k + 1).index_of(x);
                    assert(add_keys.subrange(0, k as int)[q] == x);
                }
                if add_keys.subrange(0, k as int).contains(x) {
                    let q = add_keys.subrange(0, k as int).index_of(x);
                    assert(add_keys.subrange(0, k + 1)[q] == x);
                }
                assert(add_keys.subrange(0, k + 1)[k as int] == add_keys[k as int]);
            }
        }
        k = k + 1;
    }
    proof {
        assert(remove_keys.subrange(0, nr as int) =~= remove_keys);
        assert(add_keys.subrange(0, na as int) =~= add_keys);
        assert forall|x: (Seq<char>, Seq<char>)| #[trigger] relations.as_set().contains(x) == rv.relations.to_set().difference(
            changes.relations_to_remove.as_set(),
        ).union(changes.relations_to_add.as_set()).contains(x) by {
            assert(rel0.contains(x) == rv.relations.to_set().contains(x));
            assert(rel1.contains(x) == (rel0.contains(x) && !remove_keys.contains(x)));
        }
        assert(relations.as_set() =~= rv.relations.to_set().difference(
            changes.relations_to_remove.as_set(),
        ).union(changes.relations_to_add.as_set()));
        properties.lemma_shape();
        assert(properties.keys().to_set() =~= payload_view(properties).dom());
    }
    let ObjectChanges {
        property_changes: _,
        relations_to_add: _,
        relations_to_remove: _,
        lifecycle_state: new_lifecycle,
        ownership: new_ownership,
        permission_scope: new_scope,
        retention_rule: new_retention,
        external_references: new_external,
        comments_ref: new_comments,
        attachments_ref: new_attachments,
    } = changes;
    let lifecycle_state = match new_lifecycle {
        Some(s) => s,
        None => lifecycle_state,
    };
    let ownership = match new_ownership {
        Some(o) => o,
        None => ownership,
    };
    let permission_scope = match new_scope {
        Some(s) => s,
        None => permission_scope,
    };
    let retention_rule = match new_retention {
        Some(x) => x,
        None => retention_rule,
    };
    let external_references = match new_external {
        Some(x) => x,
        None => external_references,
    };
    let comments_ref = match new_comments {
        Some(x) => x,
        None => comments_ref,
    };
    let attachments_ref = match new_attachments {
        Some(x) => x,
        None => attachments_ref,
    };
    ObjectRecord {
        id,
        object_type,
        properties,
        relations,
        lifecycle_state,
        ownership,
        permission_scope,
        version,
        retention_rule,
        external_references,
        comments_ref,
        attachments_ref,
    }
}


/// Request to update one Object against the version the caller read.
#[derive(Debug)]
pub struct UpdateObjectRequest {
    /// Object identity to update.
    pub object_id: ObjectId,
    /// Version the caller read before preparing changes.
    pub base_version: Version,
    /// Requested changes.
    pub changes: ObjectChanges,
}

/// Request to add or remove one relation.
#[derive(Debug)]
pub struct RelationUpdateRequest {
    /// Source Object identity.
    pub object_id: ObjectId,
    /// Version the caller read before preparing the relation change.
    pub base_version: Version,
    /// Relation to add or remove.
    pub relation: Relation,
}

/// Object Runtime facade over a storage provider and an identity source.
pub struct ObjectRuntime<S: StorageProvider, G: ObjectIdGenerator> {
    storage: S,
    id_generator: G,
}

impl<S: StorageProvider, G: ObjectIdGenerator> ObjectRuntime<S, G> {
    /// The registered Object Type definitions, by reference.
    pub closed spec fn object_types(&self) -> Map<ObjectTypeRefView, ObjectTypeDefinitionView> {
        self.storage.stored_types()
    }

    /// The stored Objects, by identity.
    pub closed spec fn objects(&self) -> Map<Seq<char>, ObjectRecordView> {
        self.storage.stored_objects()
    }

    /// Creates an Object Runtime over a storage provider and an identity source.
    pub fn new(storage: S, id_generator: G) -> (r: Self)
        ensures
            r.object_types() == storage.stored_types(),
            r.objects() == storage.stored_objects(),
    {
        ObjectRuntime { storage, id_generator }
    }

    /// Registers or replaces an Object Type metadata definition.
    ///
    /// A definition under which some stored Object of the same type name would
    /// fail validation is refused unless it carries a migration marker.
    pub fn register_object_type(&mut self, definition: ObjectTypeDefinition) -> (r: Result<(), ObjectRuntimeError>)
        ensures
            object_metadata_failure(definition@) is Some ==> (r matches Err(e) && e@
                == (ObjectRuntimeErrorView::MalformedMetadata { failure: object_metadata_failure(definition@).unwrap() })),
            object_metadata_failure(definition@) is None && definition@.migration_marker is None && would_invalidate(
                old(self).objects(),
                definition@,
            ) ==> r is Err,
            r is Ok ==> {
                &&& object_metadata_failure(definition@) is None
                &&& (definition@.migration_marker is Some || !would_invalidate(old(self).objects(), definition@))
                &&& final(self).object_types() == old(self).object_types().insert(definition.type_ref@, definition@)
            },
            r is Err ==> final(self).object_types() == old(self).object_types(),
            final(self).objects() == old(self).objects(),
    {
        match validate_object_metadata(&definition) {
            Err(e) => {
                return Err(e);
            },
            Ok(()) => {},
        }
        let records = match self.storage.list_objects() {
            Err(e) => {
                return Err(e);
            },
            Ok(v) => v,
        };
        let ghost objects = self.objects();
        let n = records.len();
        let mut invalidates = false;
        let mut i: usize = 0;
        while i < n
            invariant
                n == records@.len(),
                objects == self.objects(),
                forall|j: int| 0 <= j < records@.len() ==> objects.contains_key(#[trigger] records@[j]@.id)
                    && objects[records@[j]@.id] == records@[j]@,
                i <= n,
                invalidates == exists|j: int| 0 <= j < i && #[trigger] records@[j]@.object_type.name
                    == definition@.type_ref.name && record_shape_failure(definition@, records@[j]@) is Some,
            decreases n - i,
        {
            let record = &records[i];
            let ghost before = invalidates;
            if str_eq(record.object_type.name.as_str(), definition.type_ref.name.as_str()) {
                match validate_record_shape(&definition, record) {
                    Err(_) => {
                        invalidates = true;
                    },
                    Ok(()) => {},
                }
            }
            proof {
                let c = records@[i as int]@.object_type.name == definition@.type_ref.name && record_shape_failure(
                    definition@,
                    records@[i as int]@,
                ) is Some;
                assert(invalidates == (before || c));
                if c {
                    assert(records@[i as int]@.object_type.name == definition@.type_ref.name);
                }
            }
            i = i + 1;
        }
        proof {
            if invalidates {
                let j = choose|j: int| 0 <= j < n && #[trigger] records@[j]@.object_type.name
                    == definition@.type_ref.name && record_shape_failure(definition@, records@[j]@) is Some;
                assert(objects.contains_key(records@[j]@.id));
            }
            if would_invalidate(objects, definition@) {
                let id = choose|id: Seq<char>| #[trigger] objects.contains_key(id) && objects[id].object_type.name
                    == definition@.type_ref.name && record_shape_failure(definition@, objects[id]) is Some;
                let j = choose|j: int| 0 <= j < records@.len() && #[trigger] records@[j]@.id == id;
                assert(records@[j]@.object_type.name == definition@.type_ref.name);
            }
        }
        if invalidates && definition.migration_marker.is_none() {
            return Err(
                ObjectRuntimeError::MalformedMetadata {
                    failure: MetadataError::WouldInvalidateExistingInstances { object_type: definition.type_ref },
                },
            );
        }
        self.storage.put_type(definition)
    }

    /// The storage provider may answer a read of the Object `id` with the
    /// failure `e`.
    pub closed spec fn read_refusal(&self, id: Seq<char>, e: ObjectRuntimeError) -> bool {
        exists|object_id: ObjectId|
            #![trigger call_ensures(S::get_object, (&self.storage, &object_id), Err::<Option<ObjectRecord>, ObjectRuntimeError>(e))]
            object_id@ == id && call_ensures(
                S::get_object,
                (&self.storage, &object_id),
                Err::<Option<ObjectRecord>, ObjectRuntimeError>(e),
            )
    }

    /// The storage provider may answer a lookup of the Object Type `t` with
    /// the failure `e`.
    pub closed spec fn type_refusal(&self, t: ObjectTypeRefView, e: ObjectRuntimeError) -> bool {
        exists|type_ref: ObjectTypeRef|
            #![trigger call_ensures(S::get_type, (&self.storage, &type_ref), Err::<Option<ObjectTypeDefinition>, ObjectRuntimeError>(e))]
            type_ref@ == t && call_ensures(
                S::get_type,
                (&self.storage, &type_ref),
                Err::<Option<ObjectTypeDefinition>, ObjectRuntimeError>(e),
            )
    }

    /// Retrieves a registered Object Type definition by exact name/version.
    pub fn get_object_type(&self, object_type: &ObjectTypeRef) -> (r: Result<ObjectTypeDefinition, ObjectRuntimeError>)
        ensures
            r matches Ok(d) ==> self.object_types().contains_key(object_type@) && d@ == self.object_types()[object_type@],
            !self.object_types().contains_key(object_type@) ==> (r matches Err(e) && (e@
                == (ObjectRuntimeErrorView::ObjectTypeNotFound { object_type: object_type@ }) || self.type_refusal(
                object_type@,
                e,
            ))),
    {
        let lookup = S::get_type;
        let answer = lookup(&self.storage, object_type);
        proof {
            if answer is Err {
                assert(self.type_refusal(object_type@, answer->Err_0));
            }
        }
        object_type_lookup(object_type, answer)
    }

    /// Checks that every relation target of a record exists.
    fn validate_targets(&self, record: &ObjectRecord) -> (r: Result<(), ObjectRuntimeError>)
        ensures
            r is Ok ==> targets_exist(self.objects(), record@.relations),
            !targets_exist(self.objects(), record@.relations) ==> r is Err,
    {
        let n = record.relations.len();
        let mut i: usize = 0;
        while i < n
            invariant
                n == record@.relations.len(),
                i <= n,
                forall|j: int| 0 <= j < i ==> self.objects().contains_key(#[trigger] record@.relations[j].1),
            decreases n - i,
        {
            let relation = record.relations.item_at(i);
            match self.storage.object_exists(&relation.target_id) {
                Err(e) => {
                    return Err(e);
                },
                Ok(false) => {
                    return Err(
                        ObjectRuntimeError::InvalidRelation {
                            failure: InvalidRelationError::TargetDoesNotExist { target_id: relation.target_id.clone() },
                        },
                    );
                },
                Ok(true) => {},
            }
            i = i + 1;
        }
        Ok(())
    }

    /// Creates a new Object at the initial version after validation.
    pub fn create_object(&mut self, request: CreateObjectRequest) -> (r: Result<CreateObjectResult, ObjectRuntimeError>)
        ensures
            owner_and_scope_failure(request.ownership.owner@, request.permission_scope@) is Some ==> (r matches Err(e)
                && e@ == (ObjectRuntimeErrorView::ValidationFailed {
                failure: owner_and_scope_failure(request.ownership.owner@, request.permission_scope@).unwrap(),
            })),
            !old(self).object_types().contains_key(request.object_type@) ==> r is Err,
            owner_and_scope_failure(request.ownership.owner@, request.permission_scope@) is None && !old(self).object_types().contains_key(
                request.object_type@,
            ) ==> (r matches Err(e) && (e@ == (ObjectRuntimeErrorView::ObjectTypeNotFound {
                object_type: request.object_type@,
            }) || old(self).type_refusal(request.object_type@, e))),
            final(self).object_types() == old(self).object_types(),
            r is Err ==> final(self).objects() == old(self).objects(),
            r matches Ok(res) ==> {
                &&& old(self).object_types().contains_key(request.object_type@)
                &&& res.record@ == created_record(request, res.object_id@)
                &&& res.version@ == 1
                &&& record_shape_failure(old(self).object_types()[request.object_type@], res.record@) is None
                &&& targets_exist(old(self).objects(), res.record@.relations)
                &&& !old(self).objects().contains_key(res.object_id@)
                &&& final(self).objects() == old(self).objects().insert(res.object_id@, res.record@)
            },
    {
        match validate_owner_and_scope(&request.ownership, &request.permission_scope) {
            Err(e) => {
                return Err(e);
            },
            Ok(()) => {},
        }
        let lookup = S::get_type;
        let type_answer = lookup(&self.storage, &request.object_type);
        let definition = match type_answer {
            Err(e) => {
                proof {
                    assert(call_ensures(S::get_type, (&self.storage, &request.object_type), Err::<Option<ObjectTypeDefinition>, ObjectRuntimeError>(e)));
                    assert(self.type_refusal(request.object_type@, e));
                }
                return Err(e);
            },
            Ok(None) => {
                return Err(ObjectRuntimeError::ObjectTypeNotFound { object_type: request.object_type.clone() });
            },
            Ok(Some(d)) => d,
        };
        let candidate = self.id_generator.next_id();
        let answer = self.storage.object_exists(&candidate);
        let object_id = match fresh_object_identity(candidate, answer) {
            Err(e) => {
                return Err(e);
            },
            Ok(id) => id,
        };
        let ghost req = request;
        let CreateObjectRequest {
            object_type,
            properties,
            relations,
            lifecycle_state,
            ownership,
            permission_scope,
            retention_rule,
            external_references,
            comments_ref,
            attachments_ref,
        } = request;
        let record = ObjectRecord::new(
            object_id.clone(),
            object_type,
            properties,
            relations,
            lifecycle_state,
            ownership,
            permission_scope,
            Version::initial(),
            retention_rule,
            external_references,
            comments_ref,
            attachments_ref,
        );
        assert(record@ == created_record(req, object_id@));
        match validate_record_shape(&definition, &record) {
            Err(e) => {
                return Err(e);
            },
            Ok(()) => {},
        }
        match self.validate_targets(&record) {
            Err(e) => {
                return Err(e);
            },
            Ok(()) => {},
        }
        let version = record.version;
        match self.storage.insert_object(record.clone()) {
            Err(e) => Err(e),
            Ok(()) => Ok(CreateObjectResult { object_id, version, record }),
        }
    }

    /// Reads the current state of one Object.
    pub fn read_object(&self, object_id: &ObjectId) -> (r: Result<ObjectRecord, ObjectRuntimeError>)
        ensures
            r matches Ok(record) ==> self.objects().contains_key(object_id@) && record@ == self.objects()[object_id@],
            !self.objects().contains_key(object_id@) ==> (r matches Err(e) && (e@
                == (ObjectRuntimeErrorView::ObjectNotFound { object_id: object_id@ }) || self.read_refusal(object_id@, e))),
    {
        let read = S::get_object;
        let answer = read(&self.storage, object_id);
        proof {
            if answer is Err {
                assert(self.read_refusal(object_id@, answer->Err_0));
            }
        }
        object_lookup(object_id, answer)
    }

    /// Applies changes to one Object whose stored version is the caller's base version.
    ///
    /// The updated record gets the next version; it is validated against its
    /// Object Type and its relation targets before it replaces the stored one.
    pub fn update_object(&mut self, request: UpdateObjectRequest) -> (r: Result<ObjectRecord, ObjectRuntimeError>)
        requires
            forall|id: Seq<char>| #[trigger] old(self).objects().contains_key(id) ==> old(self).objects()[id].version < u64::MAX,
        ensures
            final(self).object_types() == old(self).object_types(),
            r is Err ==> final(self).objects() == old(self).objects(),
            !old(self).objects().contains_key(request.object_id@) ==> (r matches Err(e) && (e@
                == (ObjectRuntimeErrorView::ObjectNotFound { object_id: request.object_id@ }) || old(self).read_refusal(
                request.object_id@,
                e,
            ))),
            old(self).objects().contains_key(request.object_id@) && old(self).objects()[request.object_id@].version
                != request.base_version@ ==> (r matches Err(e) && (e@ == (ObjectRuntimeErrorView::VersionConflict {
                object_id: request.object_id@,
                expected: request.base_version@,
                actual: old(self).objects()[request.object_id@].version,
            }) || old(self).read_refusal(request.object_id@, e))),
            r matches Ok(updated) ==> {
                let current = old(self).objects()[request.object_id@];
                &&& old(self).objects().contains_key(request.object_id@)
                &&& current.version == request.base_version@
                &&& changed_record(current, request.changes, updated@)
                &&& updated@.version == current.version + 1
                &&& old(self).object_types().contains_key(current.object_type)
                &&& record_shape_failure(old(self).object_types()[current.object_type], updated@) is None
                &&& targets_exist(old(self).objects(), updated@.relations)
                &&& final(self).objects() == old(self).objects().insert(request.object_id@, updated@)
            },
    {
        let read = S::get_object;
        let answer = read(&self.storage, &request.object_id);
        let current = match answer {
            Err(e) => {
                proof {
                    assert(call_ensures(S::get_object, (&self.storage, &request.object_id), Err::<Option<ObjectRecord>, ObjectRuntimeError>(e)));
                    assert(self.read_refusal(request.object_id@, e));
                }
                return Err(e);
            },
            Ok(None) => {
                return Err(ObjectRuntimeError::ObjectNotFound { object_id: request.object_id.clone() });
            },
            Ok(Some(record)) => record,
        };
        match check_base_version(&current, request.base_version) {
            Err(e) => {
                return Err(e);
            },
            Ok(()) => {},
        }
        let definition = match self.storage.get_type(&current.object_type) {
            Err(e) => {
                return Err(e);
            },
            Ok(None) => {
                return Err(ObjectRuntimeError::ObjectTypeNotFound { object_type: current.object_type.clone() });
            },
            Ok(Some(d)) => d,
        };
        let base_version = request.base_version;
        let ghost changes_view = request.changes;
        let updated = match apply_update(current, &definition, request.changes) {
            Err(e) => {
                return Err(e);
            },
            Ok(u) => u,
        };
        match self.validate_targets(&updated) {
            Err(e) => {
                return Err(e);
            },
            Ok(()) => {},
        }
        match self.storage.replace_object(updated.clone(), base_version) {
            Err(e) => Err(e),
            Ok(()) => Ok(updated),
        }
    }

    /// Adds one relation to an Object, as an update against the caller's base version.
    pub fn add_relation(&mut self, request: RelationUpdateRequest) -> (r: Result<ObjectRecord, ObjectRuntimeError>)
        requires
            forall|id: Seq<char>| #[trigger] old(self).objects().contains_key(id) ==> old(self).objects()[id].version < u64::MAX,
        ensures
            final(self).object_types() == old(self).object_types(),
            r is Err ==> final(self).objects() == old(self).objects(),
            !old(self).objects().contains_key(request.object_id@) ==> (r matches Err(e) && (e@
                == (ObjectRuntimeErrorView::ObjectNotFound { object_id: request.object_id@ }) || old(self).read_refusal(
                request.object_id@,
                e,
            ))),
            old(self).objects().contains_key(request.object_id@) && old(self).objects()[request.object_id@].version
                != request.base_version@ ==> (r matches Err(e) && (e@ == (ObjectRuntimeErrorView::VersionConflict {
                object_id: request.object_id@,
                expected: request.base_version@,
                actual: old(self).objects()[request.object_id@].version,
            }) || old(self).read_refusal(request.object_id@, e))),
            r matches Ok(updated) ==> {
                let current = old(self).objects()[request.object_id@];
                &&& old(self).objects().contains_key(request.object_id@)
                &&& current.version == request.base_version@
                &&& updated@.relations.to_set() == current.relations.to_set().insert(request.relation@)
                &&& updated@.properties == current.properties
                &&& updated@.version == current.version + 1
                &&& final(self).objects() == old(self).objects().insert(request.object_id@, updated@)
            },
    {
        let mut changes = ObjectChanges::default();
        let ghost rel = request.relation@;
        changes.relations_to_add.insert(request.relation);
        let r = self.update_object(
            UpdateObjectRequest { object_id: request.object_id, base_version: request.base_version, changes },
        );
        proof {
            if r is Ok {
                let current = old(self).objects()[request.object_id@];
                assert(current.relations.to_set().difference(Set::empty()).union(set![rel]) =~= current.relations.to_set().insert(rel));
                assert(Set::<(Seq<char>, Seq<char>)>::empty().insert(rel) =~= set![rel]);
            }
        }
        r
    }

    /// Removes one relation from an Object, as an update against the caller's base version.
    pub fn remove_relation(&mut self, request: RelationUpdateRequest) -> (r: Result<ObjectRecord, ObjectRuntimeError>)
        requires
            forall|id: Seq<char>| #[trigger] old(self).objects().contains_key(id) ==> old(self).objects()[id].version < u64::MAX,
        ensures
            final(self).object_types() == old(self).object_types(),
            r is Err ==> final(self).objects() == old(self).objects(),
            !old(self).objects().contains_key(request.object_id@) ==> (r matches Err(e) && (e@
                == (ObjectRuntimeErrorView::ObjectNotFound { object_id: request.object_id@ }) || old(self).read_refusal(
                request.object_id@,
                e,
            ))),
            old(self).objects().contains_key(request.object_id@) && old(self).objects()[request.object_id@].version
                != request.base_version@ ==> (r matches Err(e) && (e@ == (ObjectRuntimeErrorView::VersionConflict {
                object_id: request.object_id@,
                expected: request.base_version@,
                actual: old(self).objects()[request.object_id@].version,
            }) || old(self).read_refusal(request.object_id@, e))),
            r matches Ok(updated) ==> {
                let current = old(self).objects()[request.object_id@];
                &&& old(self).objects().contains_key(request.object_id@)
                &&& current.version == request.base_version@
                &&& updated@.relations.to_set() == current.relations.to_set().remove(request.relation@)
                &&& updated@.properties == current.properties
                &&& updated@.version == current.version + 1
                &&& final(self).objects() == old(self).objects().insert(request.object_id@, updated@)
            },
    {
        let mut changes = ObjectChanges::default();
        let ghost rel = request.relation@;
        changes.relations_to_remove.insert(request.relation);
        let r = self.update_object(
            UpdateObjectRequest { object_id: request.object_id, base_version: request.base_version, changes },
        );
        proof {
            if r is Ok {
                let current = old(self).objects()[request.object_id@];
                assert(Set::<(Seq<char>, Seq<char>)>::empty().insert(rel) =~= set![rel]);
                assert(current.relations.to_set().difference(set![rel]).union(Set::empty()) =~= current.relations.to_set().remove(rel));
            }
        }
        r
    }

    /// Returns every stored Object record.
    pub fn all_objects(&self) -> (r: Result<Vec<ObjectRecord>, ObjectRuntimeError>)
        ensures
            r matches Ok(v) ==> {
                &&& forall|i: int| 0 <= i < v@.len() ==> self.objects().contains_key(#[trigger] v@[i]@.id)
                    && self.objects()[v@[i]@.id] == v@[i]@
                &&& forall|id: Seq<char>| #[trigger] self.objects().contains_key(id) ==> exists|i: int|
                    0 <= i < v@.len() && #[trigger] v@[i]@.id == id
            },
    {
        self.storage.list_objects()
    }

    /// Visits every stored Object record, in the order the storage provider lists
    /// them, and stops at the first refusal of the visitor. The surface takes no
    /// filter, predicate, sort order or aggregation.
    pub fn visit_all_objects<F: FnMut(&ObjectRecord) -> Result<(), ObjectRuntimeError>>(
        &self,
        visitor: F,
    ) -> (r: Result<(), ObjectRuntimeError>)
        requires
            forall|g: F, record: &ObjectRecord| #[trigger] call_requires(g, (record,)),
        ensures
            r is Ok ==> forall|id: Seq<char>| #[trigger] self.objects().contains_key(id) ==>
                exists|record: ObjectRecord| record@ == self.objects()[id] && #[trigger] accepted_by::<F>(record),
    {
        let mut visitor = visitor;
        let records = match self.all_objects() {
            Ok(v) => v,
            Err(e) => return Err(e),
        };
        let mut i: usize = 0;
        while i < records.len()
            invariant
                i <= records@.len(),
                forall|g: F, record: &ObjectRecord| #[trigger] call_requires(g, (record,)),
                forall|j: int| 0 <= j < i ==> #[trigger] accepted_by::<F>(records@[j]),
            decreases records@.len() - i,
        {
            let ghost before = visitor;
            let outcome = visitor(&records[i]);
            proof {
                assert(call_ensures(before, (&records@[i as int],), outcome));
            }
            match outcome {
                Ok(()) => {
                    assert(accepted_by::<F>(records@[i as int]));
                },
                Err(e) => return Err(e),
            }
            i += 1;
        }
        proof {
            assert forall|id: Seq<char>| #[trigger] self.objects().contains_key(id) implies
                exists|record: ObjectRecord| record@ == self.objects()[id] && #[trigger] accepted_by::<F>(record) by {
                let j = choose|j: int| 0 <= j < records@.len() && #[trigger] records@[j]@.id == id;
                assert(accepted_by::<F>(records@[j]));
            }
        }
        Ok(())
    }
}

/// In-memory storage provider: Object Type definitions by reference and
/// Objects by identity, each kept in ascending key order.
pub struct MemoryObjectStorage {
    types: OrdMap<ObjectTypeRef, ObjectTypeDefinition>,
    objects: OrdMap<ObjectId, ObjectRecord>,
}

impl MemoryObjectStorage {
    #[verifier::type_invariant]
    closed spec fn keyed_by_identity(&self) -> bool {
        forall|id: Seq<char>| #[trigger] self.objects.as_map().contains_key(id) ==> self.objects.as_map()[id]@.id == id
    }

    /// Creates an empty store.
    pub fn new() -> (r: Self)
        ensures
            r.stored_types() == Map::<ObjectTypeRefView, ObjectTypeDefinitionView>::empty(),
            r.stored_objects() == Map::<Seq<char>, ObjectRecordView>::empty(),
    {
        let r = MemoryObjectStorage { types: OrdMap::new(), objects: OrdMap::new() };
        assert(r.stored_types() =~= Map::<ObjectTypeRefView, ObjectTypeDefinitionView>::empty());
        assert(r.stored_objects() =~= Map::<Seq<char>, ObjectRecordView>::empty());
        r
    }

    /// Returns how many Objects are stored.
    pub fn object_count(&self) -> (r: usize)
        ensures
            r == self.stored_objects().len(),
    {
        proof {
            self.objects.lemma_len();
            assert(self.stored_objects().dom() =~= self.objects.as_map().dom());
        }
        self.objects.len()
    }

    fn store(&mut self, record: ObjectRecord)
        ensures
            final(self).stored_objects() == old(self).stored_objects().insert(record@.id, record@),
            final(self).stored_types() == old(self).stored_types(),
    {
        proof {
            use_type_invariant(&*self);
        }
        let ghost rv = record@;
        let key = record.id.clone();
        let mut objects = OrdMap::new();
        std::mem::swap(&mut objects, &mut self.objects);
        objects.insert(key, record);
        assert forall|id: Seq<char>| #[trigger] objects.as_map().contains_key(id) implies objects.as_map()[id]@.id == id by {
            if id != rv.id {
                assert(old(self).objects.as_map().contains_key(id));
            }
        }
        self.objects = objects;
        assert(self.stored_objects() =~= old(self).stored_objects().insert(rv.id, rv));
    }
}

impl StorageProvider for MemoryObjectStorage {
    closed spec fn stored_types(&self) -> Map<ObjectTypeRefView, ObjectTypeDefinitionView> {
        self.types.as_map().map_values(|d: ObjectTypeDefinition| d@)
    }

    closed spec fn stored_objects(&self) -> Map<Seq<char>, ObjectRecordView> {
        self.objects.as_map().map_values(|o: ObjectRecord| o@)
    }

    fn get_type(&self, object_type: &ObjectTypeRef) -> (r: Result<Option<ObjectTypeDefinition>, ObjectRuntimeError>)
        ensures
            r is Ok,
    {
        match self.types.get(object_type) {
            Some(d) => Ok(Some(d.clone())),
            None => Ok(None),
        }
    }

    fn put_type(&mut self, definition: ObjectTypeDefinition) -> (r: Result<(), ObjectRuntimeError>)
        ensures
            r is Ok,
    {
        proof {
            use_type_invariant(&*self);
        }
        let key = definition.type_ref.clone();
        let ghost dv = definition@;
        let mut types = OrdMap::new();
        std::mem::swap(&mut types, &mut self.types);
        types.insert(key, definition);
        self.types = types;
        assert(self.stored_types() =~= old(self).stored_types().insert(dv.type_ref, dv));
        Ok(())
    }

    fn get_object(&self, object_id: &ObjectId) -> (r: Result<Option<ObjectRecord>, ObjectRuntimeError>)
        ensures
            r is Ok,
    {
        proof {
            use_type_invariant(self);
        }
        match self.objects.get(object_id) {
            Some(o) => Ok(Some(o.clone())),
            None => Ok(None),
        }
    }

    fn insert_object(&mut self, record: ObjectRecord) -> (r: Result<(), ObjectRuntimeError>)
        ensures
            r is Ok <==> !old(self).stored_objects().contains_key(record@.id),
            r matches Err(e) ==> e@ == (ObjectRuntimeErrorView::DuplicateIdentity { object_id: record@.id }),
    {
        if self.objects.contains_key(&record.id) {
            return Err(ObjectRuntimeError::DuplicateIdentity { object_id: record.id });
        }
        self.store(record);
        Ok(())
    }

    fn replace_object(&mut self, record: ObjectRecord, expected_version: Version) -> (r: Result<(), ObjectRuntimeError>)
        ensures
            r is Ok <==> old(self).stored_objects().contains_key(record@.id) && old(self).stored_objects()[record@.id].version
                == expected_version@,
            r matches Err(e) ==> if old(self).stored_objects().contains_key(record@.id) {
                e@ == (ObjectRuntimeErrorView::VersionConflict {
                    object_id: record@.id,
                    expected: expected_version@,
                    actual: old(self).stored_objects()[record@.id].version,
                })
            } else {
                e@ == (ObjectRuntimeErrorView::ObjectNotFound { object_id: record@.id })
            },
    {
        proof {
            use_type_invariant(&*self);
        }
        let actual = match self.objects.get(&record.id) {
            None => {
                return Err(ObjectRuntimeError::ObjectNotFound { object_id: record.id });
            },
            Some(current) => current.version,
        };
        if !actual.same_as(expected_version) {
            return Err(
                ObjectRuntimeError::VersionConflict { object_id: record.id, expected: expected_version, actual },
            );
        }
        self.store(record);
        Ok(())
    }

    fn object_exists(&self, object_id: &ObjectId) -> (r: Result<bool, ObjectRuntimeError>)
        ensures
            r is Ok,
    {
        Ok(self.objects.contains_key(object_id))
    }

    fn list_objects(&self) -> (r: Result<Vec<ObjectRecord>, ObjectRuntimeError>)
        ensures
            r is Ok,
    {
        proof {
            use_type_invariant(self);
            self.objects.lemma_shape();
        }
        let n = self.objects.len();
        let mut out: Vec<ObjectRecord> = Vec::new();
        let mut i: usize = 0;
        while i < n
            invariant
                n == self.objects.keys().len(),
                self.objects.keys().len() == self.objects.values().len(),
                i <= n,
                out@.len() == i,
                forall|j: int| 0 <= j < i ==> (#[trigger] out@[j])@ == self.objects.values()[j]@,
            decreases n - i,
        {
            out.push(self.objects.value_at(i).clone());
            i = i + 1;
        }
        proof {
            assert forall|j: int| 0 <= j < out@.len() implies self.stored_objects().contains_key(#[trigger] out@[j]@.id)
                && self.stored_objects()[out@[j]@.id] == out@[j]@ by {
                self.objects.lemma_value_at(j);
                let k = self.objects.keys()[j];
                assert(self.objects.as_map().contains_key(k));
            }
            assert forall|id: Seq<char>| #[trigger] self.stored_objects().contains_key(id) implies exists|j: int|
                0 <= j < out@.len() && #[trigger] out@[j]@.id == id by {
                let j = self.objects.keys().index_of(id);
                self.objects.lemma_value_at(j);
                assert(out@[j]@.id == id);
            }
        }
        Ok(out)
    }
}
/// Applying property changes with distinct keys: a set property reads back
/// its new value, a removed property is absent, and a property without a
/// change keeps its value, or stays absent.
pub proof fn law_property_changes_read_back(
    props: Map<Seq<char>, PropertyValueView>,
    keys: Seq<Seq<char>>,
    changes: Seq<PropertyChangeView>,
    n: int,
)
    requires
        0 <= n <= keys.len(),
        n <= changes.len(),
        keys.no_duplicates(),
    ensures
        forall|i: int| 0 <= i < n ==> match #[trigger] changes[i] {
            PropertyChangeView::SetValue(v) => apply_property_changes(props, keys, changes, n).contains_key(keys[i])
                && apply_property_changes(props, keys, changes, n)[keys[i]] == v,
            PropertyChangeView::Remove => !apply_property_changes(props, keys, changes, n).contains_key(keys[i]),
        },
        forall|k: Seq<char>|
            !keys.take(n).contains(k) ==> (#[trigger] apply_property_changes(props, keys, changes, n).contains_key(k)
                == props.contains_key(k) && (props.contains_key(k) ==> apply_property_changes(props, keys, changes, n)[k]
                == props[k])),
    decreases n,
{
    if n > 0 {
        law_property_changes_read_back(props, keys, changes, n - 1);
        let before = apply_property_changes(props, keys, changes, n - 1);
        let after = apply_property_changes(props, keys, changes, n);
        assert forall|i: int| 0 <= i < n implies match #[trigger] changes[i] {
            PropertyChangeView::SetValue(v) => after.contains_key(keys[i]) && after[keys[i]] == v,
            PropertyChangeView::Remove => !after.contains_key(keys[i]),
        } by {
            if i < n - 1 {
                assert(keys[i] != keys[n - 1]);
            }
        }
        assert forall|k: Seq<char>| !keys.take(n).contains(k) implies (#[trigger] after.contains_key(k) == props.contains_key(k)
            && (props.contains_key(k) ==> after[k] == props[k])) by {
            assert(keys.take(n)[n - 1] == keys[n - 1]);
            assert(k != keys[n - 1]);
            if keys.take(n - 1).contains(k) {
                let j = keys.take(n - 1).index_of(k);
                assert(keys.take(n)[j] == k);
            }
        }
    }
}

} // verus!
