//! Structured Object Runtime error taxonomy, with the message each error displays.
use vstd::prelude::*;
use crate::contracts::{ObjectId, Version};
use crate::object_types::{ObjectTypeRef, ObjectTypeRefView};
use crate::text::{append_decimal, decimal, push_char, string_of};

verus! {

/// `name@version` of an Object Type reference.
pub open spec fn object_type_text(t: ObjectTypeRefView) -> Seq<char> {
    t.name.push('@') + decimal(t.version as nat)
}

/// The debug rendering of an optional count: `Some(n)` or `None`.
pub open spec fn optional_count_text(max: Option<usize>) -> Seq<char> {
    match max {
        Some(m) => "Some("@ + decimal(m as nat) + ")"@,
        None => "None"@,
    }
}

/// Abstract contents of an Object Runtime error.
pub enum ObjectRuntimeErrorView {
    ObjectNotFound { object_id: Seq<char> },
    ObjectTypeNotFound { object_type: ObjectTypeRefView },
    VersionConflict { object_id: Seq<char>, expected: u64, actual: u64 },
    ValidationFailed { failure: ValidationErrorView },
    InvalidRelation { failure: InvalidRelationErrorView },
    DuplicateIdentity { object_id: Seq<char> },
    MalformedMetadata { failure: MetadataErrorView },
    StorageProviderFailure { message: Seq<char> },
}

/// Abstract contents of an Object validation failure.
pub enum ValidationErrorView {
    UnknownProperty { property: Seq<char> },
    MissingRequiredProperty { property: Seq<char> },
    TypeMismatch { property: Seq<char>, expected: Seq<char>, actual: Seq<char> },
    ConstraintViolation { property: Seq<char>, reason: Seq<char> },
    EmptyLifecycleState,
    EmptyOwner,
    EmptyPermissionScope,
}

/// Abstract contents of a relation failure.
pub enum InvalidRelationErrorView {
    UnknownRelationType { relation_type: Seq<char> },
    TargetDoesNotExist { target_id: Seq<char> },
    CardinalityViolated { relation_type: Seq<char>, min: usize, max: Option<usize>, actual: usize },
}

/// Abstract contents of a metadata failure.
pub enum MetadataErrorView {
    EmptyTypeName,
    EmptyTypeVersion,
    EmptyPropertyName,
    PropertyKeyMismatch { key: Seq<char>, name: Seq<char> },
    EmptyRelationType,
    RelationKeyMismatch { key: Seq<char>, relation_type: Seq<char> },
    InvalidRange { field: Seq<char> },
    InvalidPattern { property: Seq<char>, reason: Seq<char> },
    WouldInvalidateExistingInstances { object_type: ObjectTypeRefView },
}

impl ValidationErrorView {
    /// The message the failure displays.
    pub open spec fn message(self) -> Seq<char> {
        match self {
            ValidationErrorView::UnknownProperty { property } => "unknown property "@ + property,
            ValidationErrorView::MissingRequiredProperty { property } => "missing required property "@
                + property,
            ValidationErrorView::TypeMismatch { property, expected, actual } => "property "@ + property
                + " expected "@ + expected + ", got "@ + actual,
            ValidationErrorView::ConstraintViolation { property, reason } => "property "@ + property
                + " violates constraint: "@ + reason,
            ValidationErrorView::EmptyLifecycleState => "lifecycle state must not be empty"@,
            ValidationErrorView::EmptyOwner => "owner must not be empty"@,
            ValidationErrorView::EmptyPermissionScope => "permission scope must not be empty"@,
        }
    }
}

impl InvalidRelationErrorView {
    /// The message the failure displays.
    pub open spec fn message(self) -> Seq<char> {
        match self {
            InvalidRelationErrorView::UnknownRelationType { relation_type } => "unknown relation type "@
                + relation_type,
            InvalidRelationErrorView::TargetDoesNotExist { target_id } =>
                "target object does not exist: "@ + target_id,
            InvalidRelationErrorView::CardinalityViolated { relation_type, min, max, actual } =>
                "relation "@ + relation_type + " cardinality violated: min "@ + decimal(min as nat)
                + ", max "@ + optional_count_text(max) + ", actual "@ + decimal(actual as nat),
        }
    }
}

impl MetadataErrorView {
    /// The message the failure displays.
    pub open spec fn message(self) -> Seq<char> {
        match self {
            MetadataErrorView::EmptyTypeName => "object type name must not be empty"@,
            MetadataErrorView::EmptyTypeVersion => "object type version must not be zero"@,
            MetadataErrorView::EmptyPropertyName => "property name must not be empty"@,
            MetadataErrorView::PropertyKeyMismatch { key, name } => "property key "@ + key
                + " does not match name "@ + name,
            MetadataErrorView::EmptyRelationType => "relation type must not be empty"@,
            MetadataErrorView::RelationKeyMismatch { key, relation_type } => "relation key "@ + key
                + " does not match relation type "@ + relation_type,
            MetadataErrorView::InvalidRange { field } => "invalid range for "@ + field,
            MetadataErrorView::InvalidPattern { property, reason } => "invalid pattern for property "@
                + property + ": "@ + reason,
            MetadataErrorView::WouldInvalidateExistingInstances { object_type } =>
                "metadata update would invalidate existing instances of "@ + object_type_text(object_type),
        }
    }
}

impl ObjectRuntimeErrorView {
    /// The message the error displays.
    pub open spec fn message(self) -> Seq<char> {
        match self {
            ObjectRuntimeErrorView::ObjectNotFound { object_id } => "object not found: "@ + object_id,
            ObjectRuntimeErrorView::ObjectTypeNotFound { object_type } => "object type not found: "@
                + object_type_text(object_type),
            ObjectRuntimeErrorView::VersionConflict { object_id, expected, actual } =>
                "version conflict on "@ + object_id + ": expected "@ + decimal(expected as nat)
                + ", actual "@ + decimal(actual as nat),
            ObjectRuntimeErrorView::ValidationFailed { failure } => "validation failed: "@
                + failure.message(),
            ObjectRuntimeErrorView::InvalidRelation { failure } => "invalid relation: "@
                + failure.message(),
            ObjectRuntimeErrorView::DuplicateIdentity { object_id } => "duplicate object identity: "@
                + object_id,
            ObjectRuntimeErrorView::MalformedMetadata { failure } => "malformed metadata: "@
                + failure.message(),
            ObjectRuntimeErrorView::StorageProviderFailure { message } => "storage provider failure: "@
                + message,
        }
    }
}

/// Structured Object Runtime errors.
#[derive(Debug)]
pub enum ObjectRuntimeError {
    /// The requested Object identity does not exist.
    ObjectNotFound {
        /// Missing Object identity.
        object_id: ObjectId,
    },
    /// The requested Object Type name/version does not exist.
    ObjectTypeNotFound {
        /// Missing Object Type reference.
        object_type: ObjectTypeRef,
    },
    /// The update base version does not match the stored version.
    VersionConflict {
        /// Object identity.
        object_id: ObjectId,
        /// Caller-supplied expected version.
        expected: Version,
        /// Current stored version.
        actual: Version,
    },
    /// Property, lifecycle, owner or permission-scope validation failed.
    ValidationFailed {
        /// Specific validation failure.
        failure: ValidationError,
    },
    /// A relation failed type, target or cardinality validation.
    InvalidRelation {
        /// Specific relation failure.
        failure: InvalidRelationError,
    },
    /// The generated Object identity already exists.
    DuplicateIdentity {
        /// Conflicting Object identity.
        object_id: ObjectId,
    },
    /// Object Type metadata is malformed or would invalidate existing instances.
    MalformedMetadata {
        /// Specific metadata failure.
        failure: MetadataError,
    },
    /// The storage provider failed.
    StorageProviderFailure {
        /// Deterministic storage failure message.
        message: String,
    },
}

/// Property and record-level validation failures.
#[derive(Debug)]
pub enum ValidationError {
    /// The record contains a property not declared by the Object Type.
    UnknownProperty {
        /// Unknown property name.
        property: String,
    },
    /// A required property is missing.
    MissingRequiredProperty {
        /// Missing property name.
        property: String,
    },
    /// A property value has the wrong primitive kind.
    TypeMismatch {
        /// Property name.
        property: String,
        /// Expected kind name.
        expected: String,
        /// Actual kind name.
        actual: String,
    },
    /// A property value violates a declared structural constraint.
    ConstraintViolation {
        /// Property name.
        property: String,
        /// Deterministic constraint failure reason.
        reason: String,
    },
    /// The lifecycle state marker is empty.
    EmptyLifecycleState,
    /// The primary owner identity is empty.
    EmptyOwner,
    /// The permission scope reference is empty.
    EmptyPermissionScope,
}

/// Relation validation failures.
#[derive(Debug)]
pub enum InvalidRelationError {
    /// The relation type is not declared by the Object Type.
    UnknownRelationType {
        /// Unknown relation type.
        relation_type: String,
    },
    /// The relation target does not exist.
    TargetDoesNotExist {
        /// Missing target Object identity.
        target_id: ObjectId,
    },
    /// The relation count violates declared cardinality.
    CardinalityViolated {
        /// Relation type.
        relation_type: String,
        /// Declared minimum.
        min: usize,
        /// Declared optional maximum.
        max: Option<usize>,
        /// Actual relation count.
        actual: usize,
    },
}

/// Object Type metadata failures.
#[derive(Debug)]
pub enum MetadataError {
    /// Object Type name is empty.
    EmptyTypeName,
    /// Object Type version is zero.
    EmptyTypeVersion,
    /// A property name is empty.
    EmptyPropertyName,
    /// A property map key does not match its definition name.
    PropertyKeyMismatch {
        /// Map key.
        key: String,
        /// Definition name.
        name: String,
    },
    /// A relation type name is empty.
    EmptyRelationType,
    /// A relation map key does not match its definition type.
    RelationKeyMismatch {
        /// Map key.
        key: String,
        /// Definition relation type.
        relation_type: String,
    },
    /// A declared numeric, length or cardinality range has min greater than max.
    InvalidRange {
        /// Field name.
        field: String,
    },
    /// A declared regular-expression pattern is invalid.
    InvalidPattern {
        /// Property name.
        property: String,
        /// Compiler error reason.
        reason: String,
    },
    /// A metadata update would invalidate existing instances without an explicit migration marker.
    WouldInvalidateExistingInstances {
        /// Object Type reference being registered.
        object_type: ObjectTypeRef,
    },
}

impl View for ValidationError {
    type V = ValidationErrorView;

    open spec fn view(&self) -> ValidationErrorView {
        match self {
            ValidationError::UnknownProperty { property } => ValidationErrorView::UnknownProperty {
                property: property@,
            },
            ValidationError::MissingRequiredProperty { property } =>
                ValidationErrorView::MissingRequiredProperty { property: property@ },
            ValidationError::TypeMismatch { property, expected, actual } => ValidationErrorView::TypeMismatch {
                property: property@,
                expected: expected@,
                actual: actual@,
            },
            ValidationError::ConstraintViolation { property, reason } =>
                ValidationErrorView::ConstraintViolation { property: property@, reason: reason@ },
            ValidationError::EmptyLifecycleState => ValidationErrorView::EmptyLifecycleState,
            ValidationError::EmptyOwner => ValidationErrorView::EmptyOwner,
            ValidationError::EmptyPermissionScope => ValidationErrorView::EmptyPermissionScope,
        }
    }
}

impl View for InvalidRelationError {
    type V = InvalidRelationErrorView;

    open spec fn view(&self) -> InvalidRelationErrorView {
        match self {
            InvalidRelationError::UnknownRelationType { relation_type } =>
                InvalidRelationErrorView::UnknownRelationType { relation_type: relation_type@ },
            InvalidRelationError::TargetDoesNotExist { target_id } =>
                InvalidRelationErrorView::TargetDoesNotExist { target_id: target_id@ },
            InvalidRelationError::CardinalityViolated { relation_type, min, max, actual } =>
                InvalidRelationErrorView::CardinalityViolated {
                relation_type: relation_type@,
                min: *min,
                max: *max,
                actual: *actual,
            },
        }
    }
}

impl View for MetadataError {
    type V = MetadataErrorView;

    open spec fn view(&self) -> MetadataErrorView {
        match self {
            MetadataError::EmptyTypeName => MetadataErrorView::EmptyTypeName,
            MetadataError::EmptyTypeVersion => MetadataErrorView::EmptyTypeVersion,
            MetadataError::EmptyPropertyName => MetadataErrorView::EmptyPropertyName,
            MetadataError::PropertyKeyMismatch { key, name } => MetadataErrorView::PropertyKeyMismatch {
                key: key@,
                name: name@,
            },
            MetadataError::EmptyRelationType => MetadataErrorView::EmptyRelationType,
            MetadataError::RelationKeyMismatch { key, relation_type } =>
                MetadataErrorView::RelationKeyMismatch { key: key@, relation_type: relation_type@ },
            MetadataError::InvalidRange { field } => MetadataErrorView::InvalidRange { field: field@ },
            MetadataError::InvalidPattern { property, reason } => MetadataErrorView::InvalidPattern {
                property: property@,
                reason: reason@,
            },
            MetadataError::WouldInvalidateExistingInstances { object_type } =>
                MetadataErrorView::WouldInvalidateExistingInstances { object_type: object_type@ },
        }
    }
}

impl View for ObjectRuntimeError {
    type V = ObjectRuntimeErrorView;

    open spec fn view(&self) -> ObjectRuntimeErrorView {
        match self {
            ObjectRuntimeError::ObjectNotFound { object_id } => ObjectRuntimeErrorView::ObjectNotFound {
                object_id: object_id@,
            },
            ObjectRuntimeError::ObjectTypeNotFound { object_type } =>
                ObjectRuntimeErrorView::ObjectTypeNotFound { object_type: object_type@ },
            ObjectRuntimeError::VersionConflict { object_id, expected, actual } =>
                ObjectRuntimeErrorView::VersionConflict {
                object_id: object_id@,
                expected: expected@,
                actual: actual@,
            },
            ObjectRuntimeError::ValidationFailed { failure } => ObjectRuntimeErrorView::ValidationFailed {
                failure: failure@,
            },
            ObjectRuntimeError::InvalidRelation { failure } => ObjectRuntimeErrorView::InvalidRelation {
                failure: failure@,
            },
            ObjectRuntimeError::DuplicateIdentity { object_id } => ObjectRuntimeErrorView::DuplicateIdentity {
                object_id: object_id@,
            },
            ObjectRuntimeError::MalformedMetadata { failure } => ObjectRuntimeErrorView::MalformedMetadata {
                failure: failure@,
            },
            ObjectRuntimeError::StorageProviderFailure { message } =>
                ObjectRuntimeErrorView::StorageProviderFailure { message: message@ },
        }
    }
}

fn joined(prefix: &str, rest: &str) -> (r: String)
    ensures
        r@ == prefix@ + rest@,
{
    let mut s = string_of(prefix);
    s.append(rest);
    s
}

fn append_object_type(out: &mut String, t: &ObjectTypeRef)
    ensures
        final(out)@ == old(out)@ + object_type_text(t@),
{
    let ghost start = out@;
    out.append(t.name.as_str());
    push_char(out, '@');
    append_decimal(out, t.version as u64);
    assert(out@ =~= start + object_type_text(t@));
}

impl ValidationError {
    /// Returns the message this failure displays.
    pub fn to_message(&self) -> (r: String)
        ensures
            r@ == self@.message(),
    {
        match self {
            ValidationError::UnknownProperty { property } => joined("unknown property ", property.as_str()),
            ValidationError::MissingRequiredProperty { property } => joined(
                "missing required property ",
                property.as_str(),
            ),
            ValidationError::TypeMismatch { property, expected, actual } => {
                let mut s = joined("property ", property.as_str());
                s.append(" expected ");
                s.append(expected.as_str());
                s.append(", got ");
                s.append(actual.as_str());
                s
            },
            ValidationError::ConstraintViolation { property, reason } => {
                let mut s = joined("property ", property.as_str());
                s.append(" violates constraint: ");
                s.append(reason.as_str());
                s
            },
            ValidationError::EmptyLifecycleState => string_of("lifecycle state must not be empty"),
            ValidationError::EmptyOwner => string_of("owner must not be empty"),
            ValidationError::EmptyPermissionScope => string_of("permission scope must not be empty"),
        }
    }
}

impl InvalidRelationError {
    /// Returns the message this failure displays.
    pub fn to_message(&self) -> (r: String)
        ensures
            r@ == self@.message(),
    {
        match self {
            InvalidRelationError::UnknownRelationType { relation_type } => joined(
                "unknown relation type ",
                relation_type.as_str(),
            ),
            InvalidRelationError::TargetDoesNotExist { target_id } => joined(
                "target object does not exist: ",
                target_id.as_str(),
            ),
            InvalidRelationError::CardinalityViolated { relation_type, min, max, actual } => {
                let ghost v = self@;
                let mut s = joined("relation ", relation_type.as_str());
                s.append(" cardinality violated: min ");
                append_decimal(&mut s, *min as u64);
                s.append(", max ");
                match max {
                    Some(m) => {
                        s.append("Some(");
                        append_decimal(&mut s, *m as u64);
                        s.append(")");
                    },
                    None => {
                        s.append("None");
                    },
                }
                s.append(", actual ");
                append_decimal(&mut s, *actual as u64);
                assert(s@ =~= v.message());
                s
            },
        }
    }
}

impl MetadataError {
    /// Returns the message this failure displays.
    pub fn to_message(&self) -> (r: String)
        ensures
            r@ == self@.message(),
    {
        match self {
            MetadataError::EmptyTypeName => string_of("object type name must not be empty"),
            MetadataError::EmptyTypeVersion => string_of("object type version must not be zero"),
            MetadataError::EmptyPropertyName => string_of("property name must not be empty"),
            MetadataError::PropertyKeyMismatch { key, name } => {
                let mut s = joined("property key ", key.as_str());
                s.append(" does not match name ");
                s.append(name.as_str());
                s
            },
            MetadataError::EmptyRelationType => string_of("relation type must not be empty"),
            MetadataError::RelationKeyMismatch { key, relation_type } => {
                let mut s = joined("relation key ", key.as_str());
                s.append(" does not match relation type ");
                s.append(relation_type.as_str());
                s
            },
            MetadataError::InvalidRange { field } => joined("invalid range for ", field.as_str()),
            MetadataError::InvalidPattern { property, reason } => {
                let mut s = joined("invalid pattern for property ", property.as_str());
                s.append(": ");
                s.append(reason.as_str());
                s
            },
            MetadataError::WouldInvalidateExistingInstances { object_type } => {
                let mut s = string_of("metadata update would invalidate existing instances of ");
                append_object_type(&mut s, object_type);
                s
            },
        }
    }
}

impl ObjectRuntimeError {
    /// Returns the message this error displays.
    pub fn to_message(&self) -> (r: String)
        ensures
            r@ == self@.message(),
    {
        match self {
            ObjectRuntimeError::ObjectNotFound { object_id } => joined("object not found: ", object_id.as_str()),
            ObjectRuntimeError::ObjectTypeNotFound { object_type } => {
                let mut s = string_of("object type not found: ");
                append_object_type(&mut s, object_type);
                s
            },
            ObjectRuntimeError::VersionConflict { object_id, expected, actual } => {
                let ghost v = self@;
                let mut s = joined("version conflict on ", object_id.as_str());
                s.append(": expected ");
                append_decimal(&mut s, expected.value());
                s.append(", actual ");
                append_decimal(&mut s, actual.value());
                assert(s@ =~= v.message());
                s
            },
            ObjectRuntimeError::ValidationFailed { failure } => {
                let m = failure.to_message();
                joined("validation failed: ", m.as_str())
            },
            ObjectRuntimeError::InvalidRelation { failure } => {
                let m = failure.to_message();
                joined("invalid relation: ", m.as_str())
            },
            ObjectRuntimeError::DuplicateIdentity { object_id } => joined(
                "duplicate object identity: ",
                object_id.as_str(),
            ),
            ObjectRuntimeError::MalformedMetadata { failure } => {
                let m = failure.to_message();
                joined("malformed metadata: ", m.as_str())
            },
            ObjectRuntimeError::StorageProviderFailure { message } => joined(
                "storage provider failure: ",
                message.as_str(),
            ),
        }
    }
}

} // verus!
