//! Structured Event Engine error taxonomy, with the message each error displays.
use vstd::prelude::*;
use crate::contracts::ObjectId;
use crate::event_types::{AppendSequence, EventId, EventTypeRef, EventTypeRefView};
use crate::text::{append_decimal, decimal, push_char, string_of};

verus! {

/// Abstract contents of an Event Engine error.
pub enum EventEngineErrorView {
    EventTypeNotFound { event_type: EventTypeRefView },
    EventNotFound { event_id: Seq<char> },
    ValidationFailed { failure: ValidationErrorView },
    InvalidAppendSequenceRange { start: u64, max: usize, reason: Seq<char> },
    DuplicateIdentity { event_id: Seq<char> },
    AppendSequenceConflict { append_sequence: u64 },
    MalformedMetadata { failure: MetadataErrorView },
    AppendSequenceAllocationFailure { message: Seq<char> },
    StorageProviderFailure { message: Seq<char> },
}

/// Abstract contents of a payload or request validation failure.
pub enum ValidationErrorView {
    UnknownPayloadField { field: Seq<char> },
    MissingRequiredField { field: Seq<char> },
    TypeMismatch { field: Seq<char>, expected: Seq<char>, actual: Seq<char> },
    ConstraintViolation { field: Seq<char>, reason: Seq<char> },
    MissingOccurredAt,
    MalformedOccurredAt { value: Seq<char> },
    MissingRecordedAt,
    MalformedRecordedAt { value: Seq<char> },
    MissingEventSource,
    MalformedObjectReference { field: Seq<char>, object_id: Seq<char> },
}

/// Abstract contents of a metadata failure.
pub enum MetadataErrorView {
    EmptyTypeName,
    EmptyTypeVersion,
    EmptyPayloadFieldName,
    PayloadFieldKeyMismatch { key: Seq<char>, name: Seq<char> },
    InvalidRange { field: Seq<char> },
    InvalidPattern { field: Seq<char>, reason: Seq<char> },
    EventTypeAlreadyRegistered { event_type: EventTypeRefView },
}

/// `name@version` of an Event Type reference.
pub open spec fn type_ref_text(t: EventTypeRefView) -> Seq<char> {
    t.name.push('@') + decimal(t.version as nat)
}

impl ValidationErrorView {
    /// The message the failure displays.
    pub open spec fn message(self) -> Seq<char> {
        match self {
            ValidationErrorView::UnknownPayloadField { field } => "unknown payload field "@ + field,
            ValidationErrorView::MissingRequiredField { field } => "missing required payload field "@
                + field,
            ValidationErrorView::TypeMismatch { field, expected, actual } => "payload field "@ + field
                + " expected "@ + expected + ", got "@ + actual,
            ValidationErrorView::ConstraintViolation { field, reason } => "payload field "@ + field
                + " violates constraint: "@ + reason,
            ValidationErrorView::MissingOccurredAt => "occurred_at must not be empty"@,
            ValidationErrorView::MalformedOccurredAt { value } => "occurred_at is malformed: "@ + value,
            ValidationErrorView::MissingRecordedAt => "recorded_at must not be empty"@,
            ValidationErrorView::MalformedRecordedAt { value } => "recorded_at is malformed: "@ + value,
            ValidationErrorView::MissingEventSource => "event source must not be empty"@,
            ValidationErrorView::MalformedObjectReference { field, object_id } => "object reference "@
                + field + " is malformed: "@ + object_id,
        }
    }
}

impl MetadataErrorView {
    /// The message the failure displays.
    pub open spec fn message(self) -> Seq<char> {
        match self {
            MetadataErrorView::EmptyTypeName => "event type name must not be empty"@,
            MetadataErrorView::EmptyTypeVersion => "event type version must not be zero"@,
            MetadataErrorView::EmptyPayloadFieldName => "payload field name must not be empty"@,
            MetadataErrorView::PayloadFieldKeyMismatch { key, name } => "payload field key "@ + key
                + " does not match name "@ + name,
            MetadataErrorView::InvalidRange { field } => "invalid range for "@ + field,
            MetadataErrorView::InvalidPattern { field, reason } => "invalid pattern for payload field "@
                + field + ": "@ + reason,
            MetadataErrorView::EventTypeAlreadyRegistered { event_type } =>
                "event type schema is already registered: "@ + type_ref_text(event_type),
        }
    }
}

impl EventEngineErrorView {
    /// The message the error displays.
    pub open spec fn message(self) -> Seq<char> {
        match self {
            EventEngineErrorView::EventTypeNotFound { event_type } => "event type not found: "@
                + type_ref_text(event_type),
            EventEngineErrorView::EventNotFound { event_id } => "event not found: "@ + event_id,
            EventEngineErrorView::ValidationFailed { failure } => "validation failed: "@
                + failure.message(),
            EventEngineErrorView::InvalidAppendSequenceRange { start, max, reason } =>
                "invalid append sequence range from "@ + decimal(start as nat) + " with max "@
                + decimal(max as nat) + ": "@ + reason,
            EventEngineErrorView::DuplicateIdentity { event_id } => "duplicate event identity: "@
                + event_id,
            EventEngineErrorView::AppendSequenceConflict { append_sequence } =>
                "append sequence conflict: "@ + decimal(append_sequence as nat),
            EventEngineErrorView::MalformedMetadata { failure } => "malformed metadata: "@
                + failure.message(),
            EventEngineErrorView::AppendSequenceAllocationFailure { message } =>
                "append sequence allocation failure: "@ + message,
            EventEngineErrorView::StorageProviderFailure { message } => "storage provider failure: "@
                + message,
        }
    }
}

/// Structured Event Engine errors.
#[derive(Debug)]
pub enum EventEngineError {
    /// The requested Event Type name/version does not exist.
    EventTypeNotFound {
        /// Missing Event Type reference.
        event_type: EventTypeRef,
    },
    /// The requested Event identity does not exist.
    EventNotFound {
        /// Missing Event identity.
        event_id: EventId,
    },
    /// Payload or request validation failed.
    ValidationFailed {
        /// Specific validation failure.
        failure: ValidationError,
    },
    /// The requested append sequence range is invalid.
    InvalidAppendSequenceRange {
        /// Requested start marker.
        start: AppendSequence,
        /// Requested maximum Event count.
        max: usize,
        /// Deterministic reason for rejection.
        reason: String,
    },
    /// The generated Event identity already exists.
    DuplicateIdentity {
        /// Conflicting Event identity.
        event_id: EventId,
    },
    /// Storage detected a duplicate append sequence.
    AppendSequenceConflict {
        /// Conflicting append sequence.
        append_sequence: AppendSequence,
    },
    /// Event Type metadata is malformed or conflicts with an existing schema version.
    MalformedMetadata {
        /// Specific metadata failure.
        failure: MetadataError,
    },
    /// Append sequence allocation failed.
    AppendSequenceAllocationFailure {
        /// Deterministic allocation failure message.
        message: String,
    },
    /// The storage provider failed.
    StorageProviderFailure {
        /// Deterministic storage failure message.
        message: String,
    },
}

/// Payload and request validation failures.
#[derive(Debug)]
pub enum ValidationError {
    /// Payload contains a field not declared by the Event Type.
    UnknownPayloadField {
        /// Unknown payload field name.
        field: String,
    },
    /// A required payload field is missing.
    MissingRequiredField {
        /// Missing payload field name.
        field: String,
    },
    /// A payload value has the wrong primitive kind.
    TypeMismatch {
        /// Payload field name.
        field: String,
        /// Expected kind name.
        expected: String,
        /// Actual kind name.
        actual: String,
    },
    /// A payload value violates a declared structural constraint.
    ConstraintViolation {
        /// Payload field name.
        field: String,
        /// Deterministic constraint failure reason.
        reason: String,
    },
    /// The occurred-at timestamp is missing.
    MissingOccurredAt,
    /// The occurred-at timestamp is malformed.
    MalformedOccurredAt {
        /// Malformed timestamp value.
        value: String,
    },
    /// The recorded-at timestamp is missing.
    MissingRecordedAt,
    /// The recorded-at timestamp is malformed.
    MalformedRecordedAt {
        /// Malformed timestamp value.
        value: String,
    },
    /// The Event source reference is missing.
    MissingEventSource,
    /// An Object reference is syntactically malformed.
    MalformedObjectReference {
        /// Request or payload field containing the malformed reference.
        field: String,
        /// Malformed Object reference.
        object_id: ObjectId,
    },
}

/// Event Type metadata failures.
#[derive(Debug)]
pub enum MetadataError {
    /// Event Type name is empty.
    EmptyTypeName,
    /// Event Type version is zero.
    EmptyTypeVersion,
    /// A payload field name is empty.
    EmptyPayloadFieldName,
    /// A payload field map key does not match its definition name.
    PayloadFieldKeyMismatch {
        /// Map key.
        key: String,
        /// Definition name.
        name: String,
    },
    /// A declared numeric or length range has min greater than max.
    InvalidRange {
        /// Payload field name.
        field: String,
    },
    /// A declared regular-expression pattern is invalid.
    InvalidPattern {
        /// Payload field name.
        field: String,
        /// Compiler error reason.
        reason: String,
    },
    /// Event Type schema version is already registered.
    EventTypeAlreadyRegistered {
        /// Existing Event Type reference.
        event_type: EventTypeRef,
    },
}

impl View for ValidationError {
    type V = ValidationErrorView;

    open spec fn view(&self) -> ValidationErrorView {
        match self {
            ValidationError::UnknownPayloadField { field } => ValidationErrorView::UnknownPayloadField {
                field: field@,
            },
            ValidationError::MissingRequiredField { field } => ValidationErrorView::MissingRequiredField {
                field: field@,
            },
            ValidationError::TypeMismatch { field, expected, actual } => ValidationErrorView::TypeMismatch {
                field: field@,
                expected: expected@,
                actual: actual@,
            },
            ValidationError::ConstraintViolation { field, reason } =>
                ValidationErrorView::ConstraintViolation { field: field@, reason: reason@ },
            ValidationError::MissingOccurredAt => ValidationErrorView::MissingOccurredAt,
            ValidationError::MalformedOccurredAt { value } => ValidationErrorView::MalformedOccurredAt {
                value: value@,
            },
            ValidationError::MissingRecordedAt => ValidationErrorView::MissingRecordedAt,
            ValidationError::MalformedRecordedAt { value } => ValidationErrorView::MalformedRecordedAt {
                value: value@,
            },
            ValidationError::MissingEventSource => ValidationErrorView::MissingEventSource,
            ValidationError::MalformedObjectReference { field, object_id } =>
                ValidationErrorView::MalformedObjectReference { field: field@, object_id: object_id@ },
        }
    }
}

impl View for MetadataError {
    type V = MetadataErrorView;

    open spec fn view(&self) -> MetadataErrorView {
        match self {
            MetadataError::EmptyTypeName => MetadataErrorView::EmptyTypeName,
            MetadataError::EmptyTypeVersion => MetadataErrorView::EmptyTypeVersion,
            MetadataError::EmptyPayloadFieldName => MetadataErrorView::EmptyPayloadFieldName,
            MetadataError::PayloadFieldKeyMismatch { key, name } =>
                MetadataErrorView::PayloadFieldKeyMismatch { key: key@, name: name@ },
            MetadataError::InvalidRange { field } => MetadataErrorView::InvalidRange { field: field@ },
            MetadataError::InvalidPattern { field, reason } => MetadataErrorView::InvalidPattern {
                field: field@,
                reason: reason@,
            },
            MetadataError::EventTypeAlreadyRegistered { event_type } =>
                MetadataErrorView::EventTypeAlreadyRegistered { event_type: event_type@ },
        }
    }
}

impl View for EventEngineError {
    type V = EventEngineErrorView;

    open spec fn view(&self) -> EventEngineErrorView {
        match self {
            EventEngineError::EventTypeNotFound { event_type } => EventEngineErrorView::EventTypeNotFound {
                event_type: event_type@,
            },
            EventEngineError::EventNotFound { event_id } => EventEngineErrorView::EventNotFound {
                event_id: event_id@,
            },
            EventEngineError::ValidationFailed { failure } => EventEngineErrorView::ValidationFailed {
                failure: failure@,
            },
            EventEngineError::InvalidAppendSequenceRange { start, max, reason } =>
                EventEngineErrorView::InvalidAppendSequenceRange {
                start: start@,
                max: *max,
                reason: reason@,
            },
            EventEngineError::DuplicateIdentity { event_id } => EventEngineErrorView::DuplicateIdentity {
                event_id: event_id@,
            },
            EventEngineError::AppendSequenceConflict { append_sequence } =>
                EventEngineErrorView::AppendSequenceConflict { append_sequence: append_sequence@ },
            EventEngineError::MalformedMetadata { failure } => EventEngineErrorView::MalformedMetadata {
                failure: failure@,
            },
            EventEngineError::AppendSequenceAllocationFailure { message } =>
                EventEngineErrorView::AppendSequenceAllocationFailure { message: message@ },
            EventEngineError::StorageProviderFailure { message } =>
                EventEngineErrorView::StorageProviderFailure { message: message@ },
        }
    }
}

/// Appends the `name@version` form of an Event Type reference.
fn append_type_ref(out: &mut String, t: &EventTypeRef)
    ensures
        final(out)@ == old(out)@ + type_ref_text(t@),
{
    let ghost start = out@;
    out.append(t.name.as_str());
    push_char(out, '@');
    append_decimal(out, t.version as u64);
    assert(out@ =~= start + type_ref_text(t@));
}

/// Returns `prefix` followed by `rest`.
fn joined(prefix: &str, rest: &str) -> (r: String)
    ensures
        r@ == prefix@ + rest@,
{
    let mut s = string_of(prefix);
    s.append(rest);
    s
}

impl ValidationError {
    /// Returns the message this failure displays.
    pub fn to_message(&self) -> (r: String)
        ensures
            r@ == self@.message(),
    {
        match self {
            ValidationError::UnknownPayloadField { field } => joined("unknown payload field ", field.as_str()),
            ValidationError::MissingRequiredField { field } => joined(
                "missing required payload field ",
                field.as_str(),
            ),
            ValidationError::TypeMismatch { field, expected, actual } => {
                let mut s = joined("payload field ", field.as_str());
                s.append(" expected ");
                s.append(expected.as_str());
                s.append(", got ");
                s.append(actual.as_str());
                s
            },
            ValidationError::ConstraintViolation { field, reason } => {
                let mut s = joined("payload field ", field.as_str());
                s.append(" violates constraint: ");
                s.append(reason.as_str());
                s
            },
            ValidationError::MissingOccurredAt => string_of("occurred_at must not be empty"),
            ValidationError::MalformedOccurredAt { value } => joined(
                "occurred_at is malformed: ",
                value.as_str(),
            ),
            ValidationError::MissingRecordedAt => string_of("recorded_at must not be empty"),
            ValidationError::MalformedRecordedAt { value } => joined(
                "recorded_at is malformed: ",
                value.as_str(),
            ),
            ValidationError::MissingEventSource => string_of("event source must not be empty"),
            ValidationError::MalformedObjectReference { field, object_id } => {
                let mut s = joined("object reference ", field.as_str());
                s.append(" is malformed: ");
                s.append(object_id.as_str());
                s
            },
        }
    }
}

impl MetadataError {
    /// Returns the message this failure displays.
    pub fn to_message(&self) -> (r: String)
        ensures
            r@ == self@.message(),
    {
        match self {
            MetadataError::EmptyTypeName => string_of("event type name must not be empty"),
            MetadataError::EmptyTypeVersion => string_of("event type version must not be zero"),
            MetadataError::EmptyPayloadFieldName => string_of("payload field name must not be empty"),
            MetadataError::PayloadFieldKeyMismatch { key, name } => {
                let mut s = joined("payload field key ", key.as_str());
                s.append(" does not match name ");
                s.append(name.as_str());
                s
            },
            MetadataError::InvalidRange { field } => joined("invalid range for ", field.as_str()),
            MetadataError::InvalidPattern { field, reason } => {
                let mut s = joined("invalid pattern for payload field ", field.as_str());
                s.append(": ");
                s.append(reason.as_str());
                s
            },
            MetadataError::EventTypeAlreadyRegistered { event_type } => {
                let mut s = string_of("event type schema is already registered: ");
                append_type_ref(&mut s, event_type);
                s
            },
        }
    }
}

impl EventEngineError {
    /// Returns the message this error displays.
    pub fn to_message(&self) -> (r: String)
        ensures
            r@ == self@.message(),
    {
        match self {
            EventEngineError::EventTypeNotFound { event_type } => {
                let mut s = string_of("event type not found: ");
                append_type_ref(&mut s, event_type);
                s
            },
            EventEngineError::EventNotFound { event_id } => joined("event not found: ", event_id.as_str()),
            EventEngineError::ValidationFailed { failure } => {
                let m = failure.to_message();
                joined("validation failed: ", m.as_str())
            },
            EventEngineError::InvalidAppendSequenceRange { start, max, reason } => {
                let ghost start_view = start@;
                let mut s = string_of("invalid append sequence range from ");
                append_decimal(&mut s, start.value());
                s.append(" with max ");
                append_decimal(&mut s, *max as u64);
                s.append(": ");
                s.append(reason.as_str());
                assert(s@ =~= self@.message());
                s
            },
            EventEngineError::DuplicateIdentity { event_id } => joined(
                "duplicate event identity: ",
                event_id.as_str(),
            ),
            EventEngineError::AppendSequenceConflict { append_sequence } => {
                let mut s = string_of("append sequence conflict: ");
                append_decimal(&mut s, append_sequence.value());
                s
            },
            EventEngineError::MalformedMetadata { failure } => {
                let m = failure.to_message();
                joined("malformed metadata: ", m.as_str())
            },
            EventEngineError::AppendSequenceAllocationFailure { message } => joined(
                "append sequence allocation failure: ",
                message.as_str(),
            ),
            EventEngineError::StorageProviderFailure { message } => joined(
                "storage provider failure: ",
                message.as_str(),
            ),
        }
    }
}

} // verus!
