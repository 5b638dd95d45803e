//! Validation of Event Type metadata and of Event append requests.
//!
//! Each check reports the first failure in a fixed order: metadata is checked
//! field by field in ascending field-name order; an append request is checked
//! for its timestamps, its source, its Object references and then its payload.
use vstd::prelude::*;
use crate::contracts::{opt_view, ObjectId, PropertyValue, PropertyValueKind, PropertyValueView, value_kind};
use crate::collections::{OrdMap, OrdSet};
use crate::event_engine::AppendEventRequest;
use crate::event_errors::{
    EventEngineError, EventEngineErrorView, MetadataError, MetadataErrorView, ValidationError,
    ValidationErrorView,
};
use crate::event_types::{
    payload_view, EventSource, EventTimestamp, EventTypeDefinition, EventTypeDefinitionView,
    PayloadConstraints, PayloadFieldDefinitionView,
};
use crate::numbers::{number_less, number_lt};
use crate::pattern::{compile_pattern, regex_build_error};
use crate::text::string_of;
use crate::values::{
    check_value_constraints, constraint_outcome, kind_name, kind_name_spec, ConstraintOutcome,
    ConstraintOutcomeView, ConstraintsView,
};
use vstd::string::StrSliceExecFns;

verus! {

/// The metadata failure of a field's declared constraints, if any: an empty
/// length range, an empty number range, or a pattern that does not compile.
pub open spec fn constraints_failure(field: Seq<char>, c: ConstraintsView) -> Option<MetadataErrorView> {
    if c.min_length is Some && c.max_length is Some && c.min_length.unwrap() > c.max_length.unwrap() {
        Some(MetadataErrorView::InvalidRange { field: field + " length"@ })
    } else if c.min_number is Some && c.max_number is Some && number_lt(
        c.max_number.unwrap(),
        c.min_number.unwrap(),
    ) {
        Some(MetadataErrorView::InvalidRange { field: field + " number"@ })
    } else if c.pattern is Some && regex_build_error(c.pattern.unwrap()) is Some {
        Some(
            MetadataErrorView::InvalidPattern {
                field,
                reason: regex_build_error(c.pattern.unwrap()).unwrap(),
            },
        )
    } else {
        None
    }
}

/// The first metadata failure among the payload fields from position `i` on.
pub open spec fn fields_failure_from(
    keys: Seq<Seq<char>>,
    fields: Seq<PayloadFieldDefinitionView>,
    i: int,
) -> Option<MetadataErrorView>
    decreases keys.len() - i,
{
    if i < 0 || i >= keys.len() {
        None
    } else if fields[i].name.len() == 0 {
        Some(MetadataErrorView::EmptyPayloadFieldName)
    } else if keys[i] != fields[i].name {
        Some(MetadataErrorView::PayloadFieldKeyMismatch { key: keys[i], name: fields[i].name })
    } else if constraints_failure(fields[i].name, fields[i].constraints) is Some {
        constraints_failure(fields[i].name, fields[i].constraints)
    } else {
        fields_failure_from(keys, fields, i + 1)
    }
}

/// The first metadata failure of an Event Type definition, if any.
pub open spec fn metadata_failure(d: EventTypeDefinitionView) -> Option<MetadataErrorView> {
    if d.type_ref.name.len() == 0 {
        Some(MetadataErrorView::EmptyTypeName)
    } else if d.type_ref.version == 0 {
        Some(MetadataErrorView::EmptyTypeVersion)
    } else {
        fields_failure_from(d.field_keys, d.fields, 0)
    }
}

/// What each character position of a UTC timestamp token must hold.
pub open spec fn utc_char_ok(i: int, c: char, n: int) -> bool {
    if i == 4 || i == 7 {
        c == '-'
    } else if i == 10 {
        c == 'T'
    } else if i == 13 || i == 16 {
        c == ':'
    } else if i == n - 1 {
        c == 'Z'
    } else if i == 19 && n > 20 {
        c == '.'
    } else {
        '0' <= c && c <= '9'
    }
}

/// A UTC timestamp token `YYYY-MM-DDTHH:MM:SS[.fraction]Z`, checked position by position.
pub open spec fn is_utc_timestamp_spec(s: Seq<char>) -> bool {
    s.len() >= 20 && forall|i: int| 0 <= i < s.len() ==> #[trigger] utc_char_ok(i, s[i], s.len() as int)
}

/// The failure of a timestamp token, if any; `occurred` tells which timestamp it is.
pub open spec fn timestamp_failure(s: Seq<char>, occurred: bool) -> Option<ValidationErrorView> {
    if s.len() == 0 {
        if occurred {
            Some(ValidationErrorView::MissingOccurredAt)
        } else {
            Some(ValidationErrorView::MissingRecordedAt)
        }
    } else if !is_utc_timestamp_spec(s) {
        if occurred {
            Some(ValidationErrorView::MalformedOccurredAt { value: s })
        } else {
            Some(ValidationErrorView::MalformedRecordedAt { value: s })
        }
    } else {
        None
    }
}

/// The first payload key, from position `i` on, that the definition does not declare.
pub open spec fn unknown_field_from(pkeys: Seq<Seq<char>>, declared: Seq<Seq<char>>, i: int) -> Option<
    Seq<char>,
>
    decreases pkeys.len() - i,
{
    if i < 0 || i >= pkeys.len() {
        None
    } else if !declared.contains(pkeys[i]) {
        Some(pkeys[i])
    } else {
        unknown_field_from(pkeys, declared, i + 1)
    }
}

/// The failure of one present payload value against its field definition, if any.
pub open spec fn value_failure(
    key: Seq<char>,
    f: PayloadFieldDefinitionView,
    v: PropertyValueView,
) -> Option<EventEngineErrorView> {
    if value_kind(v) != f.kind {
        Some(
            EventEngineErrorView::ValidationFailed {
                failure: ValidationErrorView::TypeMismatch {
                    field: key,
                    expected: kind_name_spec(f.kind),
                    actual: kind_name_spec(value_kind(v)),
                },
            },
        )
    } else {
        match constraint_outcome(f.constraints, v) {
            ConstraintOutcomeView::Violated(reason) => Some(
                EventEngineErrorView::ValidationFailed {
                    failure: ValidationErrorView::ConstraintViolation { field: key, reason },
                },
            ),
            ConstraintOutcomeView::InvalidPattern(message) => Some(
                EventEngineErrorView::MalformedMetadata {
                    failure: MetadataErrorView::InvalidPattern { field: key, reason: message },
                },
            ),
            ConstraintOutcomeView::Satisfied => if v is Reference && v->Reference_0.len() == 0 {
                Some(
                    EventEngineErrorView::ValidationFailed {
                        failure: ValidationErrorView::MalformedObjectReference {
                            field: key,
                            object_id: Seq::empty(),
                        },
                    },
                )
            } else {
                None
            },
        }
    }
}

/// The first failure of the declared payload fields, from position `i` on.
pub open spec fn declared_fields_failure_from(
    keys: Seq<Seq<char>>,
    fields: Seq<PayloadFieldDefinitionView>,
    payload: Map<Seq<char>, PropertyValueView>,
    i: int,
) -> Option<EventEngineErrorView>
    decreases keys.len() - i,
{
    if i < 0 || i >= keys.len() {
        None
    } else if payload.contains_key(keys[i]) {
        if value_failure(keys[i], fields[i], payload[keys[i]]) is Some {
            value_failure(keys[i], fields[i], payload[keys[i]])
        } else {
            declared_fields_failure_from(keys, fields, payload, i + 1)
        }
    } else if fields[i].required {
        Some(
            EventEngineErrorView::ValidationFailed {
                failure: ValidationErrorView::MissingRequiredField { field: keys[i] },
            },
        )
    } else {
        declared_fields_failure_from(keys, fields, payload, i + 1)
    }
}

/// The first failure of a payload (keys in ascending order) against a definition.
pub open spec fn payload_failure(
    d: EventTypeDefinitionView,
    pkeys: Seq<Seq<char>>,
    payload: Map<Seq<char>, PropertyValueView>,
) -> Option<EventEngineErrorView> {
    match unknown_field_from(pkeys, d.field_keys, 0) {
        Some(k) => Some(
            EventEngineErrorView::ValidationFailed {
                failure: ValidationErrorView::UnknownPayloadField { field: k },
            },
        ),
        None => declared_fields_failure_from(d.field_keys, d.fields, payload, 0),
    }
}

/// The first failure of an append request against the Event Type it names.
pub open spec fn append_request_failure(d: EventTypeDefinitionView, request: AppendEventRequest) -> Option<
    EventEngineErrorView,
> {
    if timestamp_failure(request.occurred_at@, true) is Some {
        Some(EventEngineErrorView::ValidationFailed { failure: timestamp_failure(request.occurred_at@, true).unwrap() })
    } else if timestamp_failure(request.recorded_at@, false) is Some {
        Some(EventEngineErrorView::ValidationFailed { failure: timestamp_failure(request.recorded_at@, false).unwrap() })
    } else if request.source@.len() == 0 {
        Some(EventEngineErrorView::ValidationFailed { failure: ValidationErrorView::MissingEventSource })
    } else if request.object_refs.as_set().contains(Seq::empty()) {
        Some(
            EventEngineErrorView::ValidationFailed {
                failure: ValidationErrorView::MalformedObjectReference {
                    field: "object_refs"@,
                    object_id: Seq::empty(),
                },
            },
        )
    } else {
        payload_failure(d, request.payload.keys(), payload_view(request.payload))
    }
}

fn metadata_error(failure: MetadataError) -> (e: EventEngineError)
    ensures
        e@ == (EventEngineErrorView::MalformedMetadata { failure: failure@ }),
{
    EventEngineError::MalformedMetadata { failure }
}

fn validation_error(failure: ValidationError) -> (e: EventEngineError)
    ensures
        e@ == (EventEngineErrorView::ValidationFailed { failure: failure@ }),
{
    EventEngineError::ValidationFailed { failure }
}

fn suffixed(field: &str, suffix: &str) -> (r: String)
    ensures
        r@ == field@ + suffix@,
{
    let mut s = string_of(field);
    s.append(suffix);
    s
}

/// Checks the declared constraints of one payload field.
pub fn validate_constraints(field: &str, constraints: &PayloadConstraints) -> (r: Result<(), EventEngineError>)
    ensures
        r is Ok <==> constraints_failure(field@, constraints@) is None,
        r matches Err(e) ==> e@ == (EventEngineErrorView::MalformedMetadata {
            failure: constraints_failure(field@, constraints@).unwrap(),
        }),
{
    if let (Some(min), Some(max)) = (constraints.min_length, constraints.max_length) {
        if min > max {
            return Err(metadata_error(MetadataError::InvalidRange { field: suffixed(field, " length") }));
        }
    }
    if let (Some(min), Some(max)) = (constraints.min_number, constraints.max_number) {
        if number_less(max, min) {
            return Err(metadata_error(MetadataError::InvalidRange { field: suffixed(field, " number") }));
        }
    }
    if let Some(pattern) = &constraints.pattern {
        match compile_pattern(pattern.as_str()) {
            Err(message) => {
                return Err(
                    metadata_error(MetadataError::InvalidPattern { field: string_of(field), reason: message }),
                );
            },
            Ok(_) => {},
        }
    }
    Ok(())
}

/// Checks Event Type metadata before registration.
pub fn validate_metadata(definition: &EventTypeDefinition) -> (r: Result<(), EventEngineError>)
    ensures
        r is Ok <==> metadata_failure(definition@) is None,
        r matches Err(e) ==> e@ == (EventEngineErrorView::MalformedMetadata {
            failure: metadata_failure(definition@).unwrap(),
        }),
{
    if definition.type_ref.name.as_str().is_empty() {
        return Err(metadata_error(MetadataError::EmptyTypeName));
    }
    if definition.type_ref.version == 0 {
        return Err(metadata_error(MetadataError::EmptyTypeVersion));
    }
    let fields = &definition.payload_fields;
    let n = fields.len();
    let ghost d = definition@;
    proof {
        fields.lemma_shape();
    }
    let mut i: usize = 0;
    while i < n
        invariant
            d == definition@,
            metadata_failure(d) == fields_failure_from(d.field_keys, d.fields, 0),
            n == d.field_keys.len(),
            d.fields.len() == n,
            d.field_keys == fields.keys(),
            d.fields == crate::event_types::viewed_values(fields.values()),
            i <= n,
            fields_failure_from(d.field_keys, d.fields, 0) == fields_failure_from(
                d.field_keys,
                d.fields,
                i as int,
            ),
        decreases n - i,
    {
        let key = fields.key_at(i);
        let field = fields.value_at(i);
        assert(d.fields[i as int] == field@);
        if field.name.as_str().is_empty() {
            return Err(metadata_error(MetadataError::EmptyPayloadFieldName));
        }
        if !crate::text::str_eq(key.as_str(), field.name.as_str()) {
            return Err(
                metadata_error(
                    MetadataError::PayloadFieldKeyMismatch { key: key.clone(), name: field.name.clone() },
                ),
            );
        }
        match validate_constraints(field.name.as_str(), &field.constraints) {
            Err(e) => {
                return Err(e);
            },
            Ok(()) => {},
        }
        i = i + 1;
    }
    Ok(())
}

/// Reports whether a token is a UTC timestamp `YYYY-MM-DDTHH:MM:SS[.fraction]Z`.
pub fn is_utc_timestamp(value: &str) -> (b: bool)
    ensures
        b == is_utc_timestamp_spec(value@),
{
    let n = value.unicode_len();
    if n < 20 {
        return false;
    }
    let mut i: usize = 0;
    while i < n
        invariant
            n == value@.len(),
            n >= 20,
            i <= n,
            forall|j: int| 0 <= j < i ==> #[trigger] utc_char_ok(j, value@[j], n as int),
        decreases n - i,
    {
        let c = value.get_char(i);
        let ok = if i == 4 || i == 7 {
            c == '-'
        } else if i == 10 {
            c == 'T'
        } else if i == 13 || i == 16 {
            c == ':'
        } else if i == n - 1 {
            c == 'Z'
        } else if i == 19 && n > 20 {
            c == '.'
        } else {
            '0' <= c && c <= '9'
        };
        if !ok {
            assert(!utc_char_ok(i as int, value@[i as int], n as int));
            return false;
        }
        i = i + 1;
    }
    true
}

/// Checks one timestamp token; `occurred` tells which timestamp of the request it is.
pub fn validate_timestamp(timestamp: &EventTimestamp, occurred: bool) -> (r: Result<(), EventEngineError>)
    ensures
        r is Ok <==> timestamp_failure(timestamp@, occurred) is None,
        r matches Err(e) ==> e@ == (EventEngineErrorView::ValidationFailed {
            failure: timestamp_failure(timestamp@, occurred).unwrap(),
        }),
{
    if timestamp.is_empty() {
        if occurred {
            return Err(validation_error(ValidationError::MissingOccurredAt));
        } else {
            return Err(validation_error(ValidationError::MissingRecordedAt));
        }
    }
    if !is_utc_timestamp(timestamp.as_str()) {
        let value = string_of(timestamp.as_str());
        if occurred {
            return Err(validation_error(ValidationError::MalformedOccurredAt { value }));
        } else {
            return Err(validation_error(ValidationError::MalformedRecordedAt { value }));
        }
    }
    Ok(())
}

/// Checks that the Event source reference is present.
pub fn validate_source(source: &EventSource) -> (r: Result<(), EventEngineError>)
    ensures
        r is Ok <==> source@.len() > 0,
        r matches Err(e) ==> e@ == (EventEngineErrorView::ValidationFailed {
            failure: ValidationErrorView::MissingEventSource,
        }),
{
    if source.is_empty() {
        return Err(validation_error(ValidationError::MissingEventSource));
    }
    Ok(())
}

/// Checks that no Object reference of the request is empty.
pub fn validate_object_refs(object_refs: &OrdSet<ObjectId>) -> (r: Result<(), EventEngineError>)
    ensures
        r is Ok <==> !object_refs.as_set().contains(Seq::empty()),
        r matches Err(e) ==> e@ == (EventEngineErrorView::ValidationFailed {
            failure: ValidationErrorView::MalformedObjectReference {
                field: "object_refs"@,
                object_id: Seq::empty(),
            },
        }),
{
    let n = object_refs.len();
    let mut i: usize = 0;
    while i < n
        invariant
            n == object_refs.keys().len(),
            i <= n,
            forall|j: int| 0 <= j < i ==> (#[trigger] object_refs.keys()[j]).len() > 0,
        decreases n - i,
    {
        let id = object_refs.item_at(i);
        if id.is_empty() {
            proof {
                assert(object_refs.keys()[i as int] =~= Seq::<char>::empty());
                assert(object_refs.as_set().contains(object_refs.keys()[i as int]));
            }
            return Err(
                validation_error(
                    ValidationError::MalformedObjectReference {
                        field: string_of("object_refs"),
                        object_id: id.clone(),
                    },
                ),
            );
        }
        i = i + 1;
    }
    proof {
        if object_refs.as_set().contains(Seq::empty()) {
            let j = object_refs.keys().index_of(Seq::<char>::empty());
            assert(object_refs.keys()[j].len() > 0);
        }
    }
    Ok(())
}

/// Checks one present payload value against its field definition.
pub fn validate_value(field_name: &str, value: &PropertyValue, kind: PropertyValueKind, constraints: &PayloadConstraints) -> (r: Result<(), EventEngineError>)
    ensures
        r is Ok <==> value_failure(
            field_name@,
            crate::event_types::PayloadFieldDefinitionView {
                name: field_name@,
                kind,
                required: false,
                constraints: constraints@,
            },
            value@,
        ) is None,
        r matches Err(e) ==> Some(e@) == value_failure(
            field_name@,
            crate::event_types::PayloadFieldDefinitionView {
                name: field_name@,
                kind,
                required: false,
                constraints: constraints@,
            },
            value@,
        ),
{
    let actual = value.kind();
    if actual != kind {
        return Err(
            validation_error(
                ValidationError::TypeMismatch {
                    field: string_of(field_name),
                    expected: string_of(kind_name(kind)),
                    actual: string_of(kind_name(actual)),
                },
            ),
        );
    }
    match check_value_constraints(
        constraints.min_length,
        constraints.max_length,
        constraints.min_number,
        constraints.max_number,
        &constraints.pattern,
        &constraints.allowed_enum_values,
        value,
    ) {
        ConstraintOutcome::Violated(reason) => {
            return Err(
                validation_error(
                    ValidationError::ConstraintViolation { field: string_of(field_name), reason: string_of(reason) },
                ),
            );
        },
        ConstraintOutcome::InvalidPattern(message) => {
            return Err(
                metadata_error(MetadataError::InvalidPattern { field: string_of(field_name), reason: message }),
            );
        },
        ConstraintOutcome::Satisfied => {},
    }
    if let PropertyValue::Reference(object_id) = value {
        if object_id.is_empty() {
            proof {
                assert(object_id@ =~= Seq::<char>::empty());
            }
            return Err(
                validation_error(
                    ValidationError::MalformedObjectReference {
                        field: string_of(field_name),
                        object_id: object_id.clone(),
                    },
                ),
            );
        }
    }
    Ok(())
}

/// Checks a payload against the fields an Event Type declares.
pub fn validate_payload(definition: &EventTypeDefinition, payload: &OrdMap<String, PropertyValue>) -> (r:
    Result<(), EventEngineError>)
    ensures
        r is Ok <==> payload_failure(definition@, payload.keys(), payload_view(*payload)) is None,
        r matches Err(e) ==> Some(e@) == payload_failure(definition@, payload.keys(), payload_view(*payload)),
{
    let fields = &definition.payload_fields;
    let ghost d = definition@;
    let ghost pk = payload.keys();
    let ghost pv = payload_view(*payload);
    let np = payload.len();
    let mut i: usize = 0;
    while i < np
        invariant
            d == definition@,
            d.field_keys == fields.keys(),
            pk == payload.keys(),
            np == pk.len(),
            i <= np,
            unknown_field_from(pk, d.field_keys, 0) == unknown_field_from(pk, d.field_keys, i as int),
        decreases np - i,
    {
        let key = payload.key_at(i);
        if !fields.contains_key(key) {
            return Err(validation_error(ValidationError::UnknownPayloadField { field: key.clone() }));
        }
        i = i + 1;
    }
    proof {
        fields.lemma_shape();
    }
    let n = fields.len();
    let mut j: usize = 0;
    while j < n
        invariant
            d == definition@,
            pv == payload_view(*payload),
            pk == payload.keys(),
            unknown_field_from(pk, d.field_keys, 0) is None,
            n == d.field_keys.len(),
            d.fields.len() == n,
            d.field_keys == fields.keys(),
            d.fields == crate::event_types::viewed_values(fields.values()),
            j <= n,
            declared_fields_failure_from(d.field_keys, d.fields, pv, 0) == declared_fields_failure_from(
                d.field_keys,
                d.fields,
                pv,
                j as int,
            ),
        decreases n - j,
    {
        let key = fields.key_at(j);
        let field = fields.value_at(j);
        assert(d.fields[j as int] == field@);
        match payload.get(key) {
            Some(value) => {
                assert(pv[key@] == value@);
                match validate_value(key.as_str(), value, field.kind, &field.constraints) {
                    Err(e) => {
                        return Err(e);
                    },
                    Ok(()) => {},
                }
            },
            None => {
                if field.required {
                    return Err(validation_error(ValidationError::MissingRequiredField { field: key.clone() }));
                }
            },
        }
        j = j + 1;
    }
    Ok(())
}

/// Checks an append request against the definition of the Event Type it names.
pub fn validate_append_request(definition: &EventTypeDefinition, request: &AppendEventRequest) -> (r: Result<
    (),
    EventEngineError,
>)
    ensures
        r is Ok <==> append_request_failure(definition@, *request) is None,
        r matches Err(e) ==> Some(e@) == append_request_failure(definition@, *request),
{
    match validate_timestamp(&request.occurred_at, true) {
        Err(e) => {
            return Err(e);
        },
        Ok(()) => {},
    }
    match validate_timestamp(&request.recorded_at, false) {
        Err(e) => {
            return Err(e);
        },
        Ok(()) => {},
    }
    match validate_source(&request.source) {
        Err(e) => {
            return Err(e);
        },
        Ok(()) => {},
    }
    match validate_object_refs(&request.object_refs) {
        Err(e) => {
            return Err(e);
        },
        Ok(()) => {},
    }
    validate_payload(definition, &request.payload)
}

} // verus!
