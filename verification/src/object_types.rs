//! Data contracts for the Object Runtime: Object Type metadata, Object
//! records and their parts.
use vstd::prelude::*;
use crate::collections::{OrdMap, OrdSet, OrderedKey};
use crate::contracts::{clone_opt_string, opt_view, ObjectId, PropertyValue, PropertyValueKind,
    PropertyValueView, Version};
use crate::event_types::{copy_values, payload_view, viewed_values};
use crate::text::{chars_lt, compare_chars, compare_pairs, lemma_chars_lt_irreflexive,
    lemma_chars_lt_total, lemma_chars_lt_transitive, lemma_pair_lt_irreflexive, lemma_pair_lt_total,
    lemma_pair_lt_transitive, pair_lt, KeyOrder};
use crate::values::ConstraintsView;

verus! {

/// Current lifecycle state marker.
#[derive(Debug, Eq, PartialEq, Ord, PartialOrd, Hash)]
pub struct LifecycleState(String);

impl View for LifecycleState {
    type V = Seq<char>;

    closed spec fn view(&self) -> Seq<char> {
        self.0@
    }
}

impl Clone for LifecycleState {
    fn clone(&self) -> (r: Self)
        ensures
            r@ == self@,
    {
        LifecycleState(self.0.clone())
    }
}

impl LifecycleState {
    /// Creates a lifecycle state marker.
    pub fn new(value: &str) -> (r: Self)
        ensures
            r@ == value@,
    {
        LifecycleState(String::from_str(value))
    }

    /// Returns the lifecycle state marker.
    pub fn as_str(&self) -> (r: &str)
        ensures
            r@ == self@,
    {
        self.0.as_str()
    }

    /// Reports whether the lifecycle state marker is empty.
    pub fn is_empty(&self) -> (b: bool)
        ensures
            b == (self@.len() == 0),
    {
        self.0.as_str().is_empty()
    }
}

/// Opaque permission scope reference for later Security Integration.
#[derive(Debug, Eq, PartialEq, Ord, PartialOrd, Hash)]
pub struct PermissionScopeRef(String);

impl View for PermissionScopeRef {
    type V = Seq<char>;

    closed spec fn view(&self) -> Seq<char> {
        self.0@
    }
}

impl Clone for PermissionScopeRef {
    fn clone(&self) -> (r: Self)
        ensures
            r@ == self@,
    {
        PermissionScopeRef(self.0.clone())
    }
}

impl PermissionScopeRef {
    /// Creates a permission scope reference.
    pub fn new(value: &str) -> (r: Self)
        ensures
            r@ == value@,
    {
        PermissionScopeRef(String::from_str(value))
    }

    /// Returns the stored permission scope reference.
    pub fn as_str(&self) -> (r: &str)
        ensures
            r@ == self@,
    {
        self.0.as_str()
    }

    /// Reports whether the permission scope reference is empty.
    pub fn is_empty(&self) -> (b: bool)
        ensures
            b == (self@.len() == 0),
    {
        self.0.as_str().is_empty()
    }
}

/// Opaque retention rule reference.
#[derive(Debug, Eq, PartialEq, Ord, PartialOrd, Hash)]
pub struct RetentionRuleRef(String);

impl View for RetentionRuleRef {
    type V = Seq<char>;

    closed spec fn view(&self) -> Seq<char> {
        self.0@
    }
}

impl Clone for RetentionRuleRef {
    fn clone(&self) -> (r: Self)
        ensures
            r@ == self@,
    {
        RetentionRuleRef(self.0.clone())
    }
}

impl RetentionRuleRef {
    /// Creates a retention rule reference.
    pub fn new(value: &str) -> (r: Self)
        ensures
            r@ == value@,
    {
        RetentionRuleRef(String::from_str(value))
    }

    /// Returns the stored retention rule reference.
    pub fn as_str(&self) -> (r: &str)
        ensures
            r@ == self@,
    {
        self.0.as_str()
    }
}

/// Opaque reference to a comment thread.
#[derive(Debug, Eq, PartialEq, Ord, PartialOrd, Hash)]
pub struct CommentThreadRef(String);

impl View for CommentThreadRef {
    type V = Seq<char>;

    closed spec fn view(&self) -> Seq<char> {
        self.0@
    }
}

impl Clone for CommentThreadRef {
    fn clone(&self) -> (r: Self)
        ensures
            r@ == self@,
    {
        CommentThreadRef(self.0.clone())
    }
}

impl CommentThreadRef {
    /// Creates a comment thread reference.
    pub fn new(value: &str) -> (r: Self)
        ensures
            r@ == value@,
    {
        CommentThreadRef(String::from_str(value))
    }

    /// Returns the stored comment thread reference.
    pub fn as_str(&self) -> (r: &str)
        ensures
            r@ == self@,
    {
        self.0.as_str()
    }
}

/// Opaque reference to an attachment set.
#[derive(Debug, Eq, PartialEq, Ord, PartialOrd, Hash)]
pub struct AttachmentSetRef(String);

impl View for AttachmentSetRef {
    type V = Seq<char>;

    closed spec fn view(&self) -> Seq<char> {
        self.0@
    }
}

impl Clone for AttachmentSetRef {
    fn clone(&self) -> (r: Self)
        ensures
            r@ == self@,
    {
        AttachmentSetRef(self.0.clone())
    }
}

impl AttachmentSetRef {
    /// Creates an attachment set reference.
    pub fn new(value: &str) -> (r: Self)
        ensures
            r@ == value@,
    {
        AttachmentSetRef(String::from_str(value))
    }

    /// Returns the stored attachment set reference.
    pub fn as_str(&self) -> (r: &str)
        ensures
            r@ == self@,
    {
        self.0.as_str()
    }
}

/// Abstract contents of an Object Type reference.
pub struct ObjectTypeRefView {
    pub name: Seq<char>,
    pub version: u32,
}

/// Reference to a registered Object Type metadata definition.
#[derive(Debug, Eq, PartialEq, Ord, PartialOrd)]
pub struct ObjectTypeRef {
    /// Language-neutral Object Type name.
    pub name: String,
    /// Metadata schema version for this Object Type.
    pub version: u32,
}

impl View for ObjectTypeRef {
    type V = ObjectTypeRefView;

    open spec fn view(&self) -> ObjectTypeRefView {
        ObjectTypeRefView { name: self.name@, version: self.version }
    }
}

impl Clone for ObjectTypeRef {
    fn clone(&self) -> (r: Self)
        ensures
            r@ == self@,
    {
        ObjectTypeRef { name: self.name.clone(), version: self.version }
    }
}

impl ObjectTypeRef {
    /// Creates a new Object Type reference.
    pub fn new(name: &str, version: u32) -> (r: Self)
        ensures
            r@ == (ObjectTypeRefView { name: name@, version }),
    {
        ObjectTypeRef { name: String::from_str(name), version }
    }
}

impl OrderedKey for ObjectTypeRef {
    type KeyView = ObjectTypeRefView;

    open spec fn key_view(&self) -> ObjectTypeRefView {
        self@
    }

    open spec fn view_lt(a: ObjectTypeRefView, b: ObjectTypeRefView) -> bool {
        chars_lt(a.name, b.name) || (a.name == b.name && a.version < b.version)
    }

    proof fn lemma_view_lt_irreflexive(a: ObjectTypeRefView) {
        lemma_chars_lt_irreflexive(a.name);
    }

    proof fn lemma_view_lt_transitive(a: ObjectTypeRefView, b: ObjectTypeRefView, c: ObjectTypeRefView) {
        lemma_chars_lt_irreflexive(a.name);
        if chars_lt(a.name, b.name) && chars_lt(b.name, c.name) {
            lemma_chars_lt_transitive(a.name, b.name, c.name);
        }
    }

    proof fn lemma_view_lt_total(a: ObjectTypeRefView, b: ObjectTypeRefView) {
        lemma_chars_lt_total(a.name, b.name);
    }

    fn compare_key(&self, other: &Self) -> (r: KeyOrder) {
        proof {
            lemma_chars_lt_irreflexive(self.name@);
            lemma_chars_lt_total(self.name@, other.name@);
            if chars_lt(self.name@, other.name@) && chars_lt(other.name@, self.name@) {
                lemma_chars_lt_transitive(self.name@, other.name@, self.name@);
            }
        }
        match compare_chars(self.name.as_str(), other.name.as_str()) {
            KeyOrder::Equal => if self.version < other.version {
                KeyOrder::Less
            } else if self.version == other.version {
                KeyOrder::Equal
            } else {
                KeyOrder::Greater
            },
            other_order => other_order,
        }
    }

    fn copy_key(&self) -> (r: Self) {
        self.clone()
    }
}

/// Stable external-system reference.
#[derive(Debug, Eq, PartialEq, Ord, PartialOrd)]
pub struct ExternalReference {
    /// External system namespace.
    pub system: String,
    /// Key in the external system.
    pub key: String,
}

impl View for ExternalReference {
    type V = (Seq<char>, Seq<char>);

    open spec fn view(&self) -> (Seq<char>, Seq<char>) {
        (self.system@, self.key@)
    }
}

impl Clone for ExternalReference {
    fn clone(&self) -> (r: Self)
        ensures
            r@ == self@,
    {
        ExternalReference { system: self.system.clone(), key: self.key.clone() }
    }
}

impl ExternalReference {
    /// Creates an external-system reference.
    pub fn new(system: &str, key: &str) -> (r: Self)
        ensures
            r@ == (system@, key@),
    {
        ExternalReference { system: String::from_str(system), key: String::from_str(key) }
    }
}

impl OrderedKey for ExternalReference {
    type KeyView = (Seq<char>, Seq<char>);

    open spec fn key_view(&self) -> (Seq<char>, Seq<char>) {
        self@
    }

    open spec fn view_lt(a: (Seq<char>, Seq<char>), b: (Seq<char>, Seq<char>)) -> bool {
        pair_lt(a, b)
    }

    proof fn lemma_view_lt_irreflexive(a: (Seq<char>, Seq<char>)) {
        lemma_pair_lt_irreflexive(a);
    }

    proof fn lemma_view_lt_transitive(a: (Seq<char>, Seq<char>), b: (Seq<char>, Seq<char>), c: (
        Seq<char>,
        Seq<char>,
    )) {
        lemma_pair_lt_transitive(a, b, c);
    }

    proof fn lemma_view_lt_total(a: (Seq<char>, Seq<char>), b: (Seq<char>, Seq<char>)) {
        lemma_pair_lt_total(a, b);
    }

    fn compare_key(&self, other: &Self) -> (r: KeyOrder) {
        compare_pairs(self.system.as_str(), self.key.as_str(), other.system.as_str(), other.key.as_str())
    }

    fn copy_key(&self) -> (r: Self) {
        self.clone()
    }
}

/// Ownership and responsibility metadata for an Object.
#[derive(Debug)]
pub struct OwnershipInfo {
    /// Primary owner Object identifier.
    pub owner: ObjectId,
    /// Additional responsible user Object identifiers.
    pub responsible_users: OrdSet<ObjectId>,
}

impl OwnershipInfo {
    /// Creates ownership metadata.
    pub fn new(owner: ObjectId, responsible_users: OrdSet<ObjectId>) -> (r: Self)
        ensures
            r.owner@ == owner@,
            r.responsible_users.as_set() == responsible_users.as_set(),
    {
        OwnershipInfo { owner, responsible_users }
    }

    /// Returns a copy with the same owner and responsible users.
    pub fn copy(&self) -> (r: Self)
        ensures
            r.owner@ == self.owner@,
            r.responsible_users.keys() == self.responsible_users.keys(),
    {
        OwnershipInfo { owner: self.owner.clone(), responsible_users: self.responsible_users.copy() }
    }
}

/// Structural constraints declared by Object Type metadata.
///
/// Numeric bounds are IEEE 754 binary64 bit patterns.
#[derive(Debug)]
pub struct StructuralConstraints {
    /// Minimum string or blob length, where applicable.
    pub min_length: Option<usize>,
    /// Maximum string or blob length, where applicable.
    pub max_length: Option<usize>,
    /// Minimum numeric value, where applicable.
    pub min_number: Option<u64>,
    /// Maximum numeric value, where applicable.
    pub max_number: Option<u64>,
    /// Deterministic regular-expression pattern for string-like values.
    pub pattern: Option<String>,
    /// Allowed values for enum properties.
    pub allowed_enum_values: OrdSet<String>,
}

impl View for StructuralConstraints {
    type V = ConstraintsView;

    open spec fn view(&self) -> ConstraintsView {
        ConstraintsView {
            min_length: self.min_length,
            max_length: self.max_length,
            min_number: self.min_number,
            max_number: self.max_number,
            pattern: opt_view(self.pattern),
            allowed_enum_values: self.allowed_enum_values.as_set(),
        }
    }
}

impl Clone for StructuralConstraints {
    fn clone(&self) -> (r: Self)
        ensures
            r@ == self@,
    {
        StructuralConstraints {
            min_length: self.min_length,
            max_length: self.max_length,
            min_number: self.min_number,
            max_number: self.max_number,
            pattern: clone_opt_string(&self.pattern),
            allowed_enum_values: self.allowed_enum_values.copy(),
        }
    }
}

impl Default for StructuralConstraints {
    fn default() -> (r: Self)
        ensures
            r@ == crate::event_types::unconstrained(),
    {
        let r = StructuralConstraints {
            min_length: None,
            max_length: None,
            min_number: None,
            max_number: None,
            pattern: None,
            allowed_enum_values: OrdSet::new(),
        };
        assert(r@ == crate::event_types::unconstrained());
        r
    }
}

/// Abstract contents of a property definition.
pub struct PropertyDefinitionView {
    pub name: Seq<char>,
    pub kind: PropertyValueKind,
    pub required: bool,
    pub constraints: ConstraintsView,
}

/// Definition of one Object property.
#[derive(Debug)]
pub struct PropertyDefinition {
    /// Language-neutral property name.
    pub name: String,
    /// Required value kind.
    pub kind: PropertyValueKind,
    /// Whether the property must be present on every Object of this type.
    pub required: bool,
    /// Structural validation constraints.
    pub constraints: StructuralConstraints,
}

impl View for PropertyDefinition {
    type V = PropertyDefinitionView;

    open spec fn view(&self) -> PropertyDefinitionView {
        PropertyDefinitionView {
            name: self.name@,
            kind: self.kind,
            required: self.required,
            constraints: self.constraints@,
        }
    }
}

impl Clone for PropertyDefinition {
    fn clone(&self) -> (r: Self)
        ensures
            r@ == self@,
    {
        PropertyDefinition {
            name: self.name.clone(),
            kind: self.kind,
            required: self.required,
            constraints: self.constraints.clone(),
        }
    }
}

impl PropertyDefinition {
    /// Creates a property definition.
    pub fn new(name: &str, kind: PropertyValueKind, required: bool, constraints: StructuralConstraints) -> (r:
        Self)
        ensures
            r@ == (PropertyDefinitionView { name: name@, kind, required, constraints: constraints@ }),
    {
        PropertyDefinition { name: String::from_str(name), kind, required, constraints }
    }
}

/// Minimum and optional maximum relation count for one relation type.
#[derive(Clone, Copy, Debug, Eq, PartialEq, Structural)]
pub struct RelationCardinality {
    /// Minimum number of relations of this type.
    pub min: usize,
    /// Optional maximum number of relations of this type.
    pub max: Option<usize>,
}

impl RelationCardinality {
    /// Creates a relation cardinality constraint.
    pub fn new(min: usize, max: Option<usize>) -> (r: Self)
        ensures
            r.min == min,
            r.max == max,
    {
        RelationCardinality { min, max }
    }
}

/// Abstract contents of a relation definition.
pub struct RelationDefinitionView {
    pub relation_type: Seq<char>,
    pub cardinality: RelationCardinality,
}

/// Definition of one relation type allowed on an Object Type.
#[derive(Debug)]
pub struct RelationDefinition {
    /// Language-neutral relation type name.
    pub relation_type: String,
    /// Relation cardinality constraints.
    pub cardinality: RelationCardinality,
}

impl View for RelationDefinition {
    type V = RelationDefinitionView;

    open spec fn view(&self) -> RelationDefinitionView {
        RelationDefinitionView { relation_type: self.relation_type@, cardinality: self.cardinality }
    }
}

impl Clone for RelationDefinition {
    fn clone(&self) -> (r: Self)
        ensures
            r@ == self@,
    {
        RelationDefinition { relation_type: self.relation_type.clone(), cardinality: self.cardinality }
    }
}

impl RelationDefinition {
    /// Creates a relation definition.
    pub fn new(relation_type: &str, cardinality: RelationCardinality) -> (r: Self)
        ensures
            r@ == (RelationDefinitionView { relation_type: relation_type@, cardinality }),
    {
        RelationDefinition { relation_type: String::from_str(relation_type), cardinality }
    }
}

/// Relation from one Object to another Object.
#[derive(Debug, Eq, PartialEq, Ord, PartialOrd)]
pub struct Relation {
    /// Language-neutral relation type name.
    pub relation_type: String,
    /// Target Object identifier.
    pub target_id: ObjectId,
}

impl View for Relation {
    type V = (Seq<char>, Seq<char>);

    open spec fn view(&self) -> (Seq<char>, Seq<char>) {
        (self.relation_type@, self.target_id@)
    }
}

impl Clone for Relation {
    fn clone(&self) -> (r: Self)
        ensures
            r@ == self@,
    {
        Relation { relation_type: self.relation_type.clone(), target_id: self.target_id.clone() }
    }
}

impl Relation {
    /// Creates a relation.
    pub fn new(relation_type: &str, target_id: ObjectId) -> (r: Self)
        ensures
            r@ == (relation_type@, target_id@),
    {
        Relation { relation_type: String::from_str(relation_type), target_id }
    }
}

impl OrderedKey for Relation {
    type KeyView = (Seq<char>, Seq<char>);

    open spec fn key_view(&self) -> (Seq<char>, Seq<char>) {
        self@
    }

    open spec fn view_lt(a: (Seq<char>, Seq<char>), b: (Seq<char>, Seq<char>)) -> bool {
        pair_lt(a, b)
    }

    proof fn lemma_view_lt_irreflexive(a: (Seq<char>, Seq<char>)) {
        lemma_pair_lt_irreflexive(a);
    }

    proof fn lemma_view_lt_transitive(a: (Seq<char>, Seq<char>), b: (Seq<char>, Seq<char>), c: (
        Seq<char>,
        Seq<char>,
    )) {
        lemma_pair_lt_transitive(a, b, c);
    }

    proof fn lemma_view_lt_total(a: (Seq<char>, Seq<char>), b: (Seq<char>, Seq<char>)) {
        lemma_pair_lt_total(a, b);
    }

    fn compare_key(&self, other: &Self) -> (r: KeyOrder) {
        compare_pairs(
            self.relation_type.as_str(),
            self.target_id.as_str(),
            other.relation_type.as_str(),
            other.target_id.as_str(),
        )
    }

    fn copy_key(&self) -> (r: Self) {
        self.clone()
    }
}

/// Abstract contents of an Object Type definition; properties and relations
/// are keyed by name, with the names in ascending order.
pub struct ObjectTypeDefinitionView {
    pub type_ref: ObjectTypeRefView,
    pub property_keys: Seq<Seq<char>>,
    pub properties: Seq<PropertyDefinitionView>,
    pub relation_keys: Seq<Seq<char>>,
    pub relations: Seq<RelationDefinitionView>,
    pub migration_marker: Option<Seq<char>>,
}

/// Versioned Object Type metadata definition.
#[derive(Debug)]
pub struct ObjectTypeDefinition {
    /// Name/version pair for this metadata definition.
    pub type_ref: ObjectTypeRef,
    /// Property definitions keyed by language-neutral property name.
    pub properties: OrdMap<String, PropertyDefinition>,
    /// Relation definitions keyed by language-neutral relation type.
    pub relations: OrdMap<String, RelationDefinition>,
    /// Explicit migration marker required for breaking metadata changes.
    pub migration_marker: Option<String>,
}

impl View for ObjectTypeDefinition {
    type V = ObjectTypeDefinitionView;

    open spec fn view(&self) -> ObjectTypeDefinitionView {
        ObjectTypeDefinitionView {
            type_ref: self.type_ref@,
            property_keys: self.properties.keys(),
            properties: viewed_values(self.properties.values()),
            relation_keys: self.relations.keys(),
            relations: viewed_values(self.relations.values()),
            migration_marker: opt_view(self.migration_marker),
        }
    }
}

impl Clone for ObjectTypeDefinition {
    fn clone(&self) -> (r: Self)
        ensures
            r@ == self@,
    {
        let properties = self.properties.clone();
        let relations = self.relations.clone();
        proof {
            self.properties.lemma_shape();
            properties.lemma_shape();
            self.relations.lemma_shape();
            relations.lemma_shape();
            assert(viewed_values(properties.values()) =~= viewed_values(self.properties.values()));
            assert(viewed_values(relations.values()) =~= viewed_values(self.relations.values()));
        }
        ObjectTypeDefinition {
            type_ref: self.type_ref.clone(),
            properties,
            relations,
            migration_marker: clone_opt_string(&self.migration_marker),
        }
    }
}

impl ObjectTypeDefinition {
    /// Creates an Object Type definition.
    pub fn new(
        type_ref: ObjectTypeRef,
        properties: OrdMap<String, PropertyDefinition>,
        relations: OrdMap<String, RelationDefinition>,
        migration_marker: Option<String>,
    ) -> (r: Self)
        ensures
            r.type_ref@ == type_ref@,
            r.properties == properties,
            r.relations == relations,
            r.migration_marker == migration_marker,
    {
        ObjectTypeDefinition { type_ref, properties, relations, migration_marker }
    }
}

/// Abstract contents of an Object record; properties are keyed by name, with
/// the names in ascending order, and relations are in ascending order.
pub struct ObjectRecordView {
    pub id: Seq<char>,
    pub object_type: ObjectTypeRefView,
    pub property_keys: Seq<Seq<char>>,
    pub properties: Map<Seq<char>, PropertyValueView>,
    pub relations: Seq<(Seq<char>, Seq<char>)>,
    pub lifecycle_state: Seq<char>,
    pub owner: Seq<char>,
    pub responsible_users: Set<Seq<char>>,
    pub permission_scope: Seq<char>,
    pub version: u64,
    pub retention_rule: Option<Seq<char>>,
    pub external_references: Set<(Seq<char>, Seq<char>)>,
    pub comments_ref: Option<Seq<char>>,
    pub attachments_ref: Option<Seq<char>>,
}

/// An optional token by its characters.
pub open spec fn retention_view(c: Option<RetentionRuleRef>) -> Option<Seq<char>> {
    match c {
        Some(v) => Some(v@),
        None => None,
    }
}

/// An optional token by its characters.
pub open spec fn comments_view(c: Option<CommentThreadRef>) -> Option<Seq<char>> {
    match c {
        Some(v) => Some(v@),
        None => None,
    }
}

/// An optional token by its characters.
pub open spec fn attachments_view(c: Option<AttachmentSetRef>) -> Option<Seq<char>> {
    match c {
        Some(v) => Some(v@),
        None => None,
    }
}

/// Current stored Object state.
#[derive(Debug)]
pub struct ObjectRecord {
    /// Object identity.
    pub id: ObjectId,
    /// Object Type name/version this record was validated against.
    pub object_type: ObjectTypeRef,
    /// Current property values keyed by language-neutral property name.
    pub properties: OrdMap<String, PropertyValue>,
    /// Current relations from this Object to other Objects.
    pub relations: OrdSet<Relation>,
    /// Current lifecycle state marker.
    pub lifecycle_state: LifecycleState,
    /// Ownership and responsibility metadata.
    pub ownership: OwnershipInfo,
    /// Opaque permission scope reference.
    pub permission_scope: PermissionScopeRef,
    /// Optimistic concurrency version.
    pub version: Version,
    /// Optional retention rule reference.
    pub retention_rule: Option<RetentionRuleRef>,
    /// Stable external-system references.
    pub external_references: OrdSet<ExternalReference>,
    /// Optional comment thread reference.
    pub comments_ref: Option<CommentThreadRef>,
    /// Optional attachment set reference.
    pub attachments_ref: Option<AttachmentSetRef>,
}

impl View for ObjectRecord {
    type V = ObjectRecordView;

    open spec fn view(&self) -> ObjectRecordView {
        ObjectRecordView {
            id: self.id@,
            object_type: self.object_type@,
            property_keys: self.properties.keys(),
            properties: payload_view(self.properties),
            relations: self.relations.keys(),
            lifecycle_state: self.lifecycle_state@,
            owner: self.ownership.owner@,
            responsible_users: self.ownership.responsible_users.as_set(),
            permission_scope: self.permission_scope@,
            version: self.version@,
            retention_rule: retention_view(self.retention_rule),
            external_references: self.external_references.as_set(),
            comments_ref: comments_view(self.comments_ref),
            attachments_ref: attachments_view(self.attachments_ref),
        }
    }
}

/// Copies an optional token.
fn copy_retention(c: &Option<RetentionRuleRef>) -> (r: Option<RetentionRuleRef>)
    ensures
        retention_view(r) == retention_view(*c),
{
    match c {
        Some(v) => Some(v.clone()),
        None => None,
    }
}

/// Copies an optional token.
fn copy_comments(c: &Option<CommentThreadRef>) -> (r: Option<CommentThreadRef>)
    ensures
        comments_view(r) == comments_view(*c),
{
    match c {
        Some(v) => Some(v.clone()),
        None => None,
    }
}

/// Copies an optional token.
fn copy_attachments(c: &Option<AttachmentSetRef>) -> (r: Option<AttachmentSetRef>)
    ensures
        attachments_view(r) == attachments_view(*c),
{
    match c {
        Some(v) => Some(v.clone()),
        None => None,
    }
}

impl Clone for ObjectRecord {
    fn clone(&self) -> (r: Self)
        ensures
            r@ == self@,
    {
        ObjectRecord {
            id: self.id.clone(),
            object_type: self.object_type.clone(),
            properties: copy_values(&self.properties),
            relations: self.relations.copy(),
            lifecycle_state: self.lifecycle_state.clone(),
            ownership: self.ownership.copy(),
            permission_scope: self.permission_scope.clone(),
            version: self.version,
            retention_rule: copy_retention(&self.retention_rule),
            external_references: self.external_references.copy(),
            comments_ref: copy_comments(&self.comments_ref),
            attachments_ref: copy_attachments(&self.attachments_ref),
        }
    }
}

impl ObjectRecord {
    /// Creates a full Object record.
    pub fn new(
        id: ObjectId,
        object_type: ObjectTypeRef,
        properties: OrdMap<String, PropertyValue>,
        relations: OrdSet<Relation>,
        lifecycle_state: LifecycleState,
        ownership: OwnershipInfo,
        permission_scope: PermissionScopeRef,
        version: Version,
        retention_rule: Option<RetentionRuleRef>,
        external_references: OrdSet<ExternalReference>,
        comments_ref: Option<CommentThreadRef>,
        attachments_ref: Option<AttachmentSetRef>,
    ) -> (r: Self)
        ensures
            r.id@ == id@,
            r.object_type@ == object_type@,
            r.properties == properties,
            r.relations == relations,
            r.lifecycle_state@ == lifecycle_state@,
            r.ownership == ownership,
            r.permission_scope@ == permission_scope@,
            r.version == version,
            r.retention_rule == retention_rule,
            r.external_references == external_references,
            r.comments_ref == comments_ref,
            r.attachments_ref == attachments_ref,
    {
        ObjectRecord {
            id,
            object_type,
            properties,
            relations,
            lifecycle_state,
            ownership,
            permission_scope,
            version,
            retention_rule,
            external_references,
            comments_ref,
            attachments_ref,
        }
    }
}

/// Requested property mutation.
#[derive(Debug)]
pub enum PropertyChange {
    /// Set or replace a property value.
    SetValue(PropertyValue),
    /// Remove the property value.
    Remove,
}

} // verus!
