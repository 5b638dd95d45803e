//! Validation of Object Type metadata and of Object records.
//!
//! Each check reports the first failure in a fixed order: properties in
//! ascending name order, then relation types and cardinalities, then the
//! lifecycle state, the owner and the permission scope.
use vstd::prelude::*;
use crate::collections::{OrdMap, OrdSet};
use crate::contracts::{value_kind, PropertyValue, PropertyValueKind, PropertyValueView};
use crate::event_types::{payload_view, viewed_values};
use crate::event_validation::unknown_field_from;
use crate::numbers::{number_less, number_lt};
use crate::object_errors::{
    InvalidRelationError, InvalidRelationErrorView, MetadataError, MetadataErrorView, ObjectRuntimeError,
    ObjectRuntimeErrorView, ValidationError, ValidationErrorView,
};
use crate::object_types::{
    ObjectRecord, ObjectRecordView, ObjectTypeDefinition, ObjectTypeDefinitionView, OwnershipInfo,
    PermissionScopeRef, PropertyDefinitionView, Relation, RelationDefinitionView, StructuralConstraints,
};
use crate::pattern::{compile_pattern, regex_build_error};
use crate::text::{str_eq, string_of};
use crate::values::{
    check_value_constraints, constraint_outcome, kind_name, kind_name_spec, ConstraintOutcome,
    ConstraintOutcomeView, ConstraintsView,
};

verus! {

/// The metadata failure of a property's declared constraints, if any.
pub open spec fn property_constraints_failure(property: Seq<char>, c: ConstraintsView) -> Option<MetadataErrorView> {
    if c.min_length is Some && c.max_length is Some && c.min_length.unwrap() > c.max_length.unwrap() {
        Some(MetadataErrorView::InvalidRange { field: property + " length"@ })
    } else if c.min_number is Some && c.max_number is Some && number_lt(
        c.max_number.unwrap(),
        c.min_number.unwrap(),
    ) {
        Some(MetadataErrorView::InvalidRange { field: property + " number"@ })
    } else if c.pattern is Some && regex_build_error(c.pattern.unwrap()) is Some {
        Some(MetadataErrorView::InvalidPattern { property, reason: regex_build_error(c.pattern.unwrap()).unwrap() })
    } else {
        None
    }
}

/// The first metadata failure among property definitions from position `i` on.
pub open spec fn property_definitions_failure_from(
    keys: Seq<Seq<char>>,
    props: Seq<PropertyDefinitionView>,
    i: int,
) -> Option<MetadataErrorView>
    decreases keys.len() - i,
{
    if i < 0 || i >= keys.len() {
        None
    } else if props[i].name.len() == 0 {
        Some(MetadataErrorView::EmptyPropertyName)
    } else if keys[i] != props[i].name {
        Some(MetadataErrorView::PropertyKeyMismatch { key: keys[i], name: props[i].name })
    } else if property_constraints_failure(props[i].name, props[i].constraints) is Some {
        property_constraints_failure(props[i].name, props[i].constraints)
    } else {
        property_definitions_failure_from(keys, props, i + 1)
    }
}

/// The first metadata failure among relation definitions from position `i` on.
pub open spec fn relation_definitions_failure_from(
    keys: Seq<Seq<char>>,
    rels: Seq<RelationDefinitionView>,
    i: int,
) -> Option<MetadataErrorView>
    decreases keys.len() - i,
{
    if i < 0 || i >= keys.len() {
        None
    } else if rels[i].relation_type.len() == 0 {
        Some(MetadataErrorView::EmptyRelationType)
    } else if keys[i] != rels[i].relation_type {
        Some(MetadataErrorView::RelationKeyMismatch { key: keys[i], relation_type: rels[i].relation_type })
    } else if rels[i].cardinality.max is Some && rels[i].cardinality.min > rels[i].cardinality.max.unwrap() {
        Some(MetadataErrorView::InvalidRange { field: "relation "@ + rels[i].relation_type + " cardinality"@ })
    } else {
        relation_definitions_failure_from(keys, rels, i + 1)
    }
}

/// The first metadata failure of an Object Type definition, if any.
pub open spec fn object_metadata_failure(d: ObjectTypeDefinitionView) -> Option<MetadataErrorView> {
    if d.type_ref.name.len() == 0 {
        Some(MetadataErrorView::EmptyTypeName)
    } else if d.type_ref.version == 0 {
        Some(MetadataErrorView::EmptyTypeVersion)
    } else if property_definitions_failure_from(d.property_keys, d.properties, 0) is Some {
        property_definitions_failure_from(d.property_keys, d.properties, 0)
    } else {
        relation_definitions_failure_from(d.relation_keys, d.relations, 0)
    }
}

/// The failure of one present property value against its definition, if any.
pub open spec fn property_value_failure(
    key: Seq<char>,
    kind: PropertyValueKind,
    c: ConstraintsView,
    v: PropertyValueView,
) -> Option<ObjectRuntimeErrorView> {
    if value_kind(v) != kind {
        Some(
            ObjectRuntimeErrorView::ValidationFailed {
                failure: ValidationErrorView::TypeMismatch {
                    property: key,
                    expected: kind_name_spec(kind),
                    actual: kind_name_spec(value_kind(v)),
                },
            },
        )
    } else {
        match constraint_outcome(c, v) {
            ConstraintOutcomeView::Violated(reason) => Some(
                ObjectRuntimeErrorView::ValidationFailed {
                    failure: ValidationErrorView::ConstraintViolation { property: key, reason },
                },
            ),
            ConstraintOutcomeView::InvalidPattern(message) => Some(
                ObjectRuntimeErrorView::MalformedMetadata {
                    failure: MetadataErrorView::InvalidPattern { property: key, reason: message },
                },
            ),
            ConstraintOutcomeView::Satisfied => None,
        }
    }
}

/// The first failure of the declared properties from position `i` on.
pub open spec fn declared_properties_failure_from(
    keys: Seq<Seq<char>>,
    props: Seq<PropertyDefinitionView>,
    values: Map<Seq<char>, PropertyValueView>,
    i: int,
) -> Option<ObjectRuntimeErrorView>
    decreases keys.len() - i,
{
    if i < 0 || i >= keys.len() {
        None
    } else if values.contains_key(keys[i]) {
        if property_value_failure(keys[i], props[i].kind, props[i].constraints, values[keys[i]]) is Some {
            property_value_failure(keys[i], props[i].kind, props[i].constraints, values[keys[i]])
        } else {
            declared_properties_failure_from(keys, props, values, i + 1)
        }
    } else if props[i].required {
        Some(
            ObjectRuntimeErrorView::ValidationFailed {
                failure: ValidationErrorView::MissingRequiredProperty { property: keys[i] },
            },
        )
    } else {
        declared_properties_failure_from(keys, props, values, i + 1)
    }
}

/// The first failure of a record's properties (keys in ascending order).
pub open spec fn properties_failure(
    d: ObjectTypeDefinitionView,
    keys: Seq<Seq<char>>,
    values: Map<Seq<char>, PropertyValueView>,
) -> Option<ObjectRuntimeErrorView> {
    match unknown_field_from(keys, d.property_keys, 0) {
        Some(k) => Some(
            ObjectRuntimeErrorView::ValidationFailed { failure: ValidationErrorView::UnknownProperty { property: k } },
        ),
        None => declared_properties_failure_from(d.property_keys, d.properties, values, 0),
    }
}

/// The first relation, from position `i` on, whose type the definition does not declare.
pub open spec fn unknown_relation_from(rels: Seq<(Seq<char>, Seq<char>)>, declared: Seq<Seq<char>>, i: int) -> Option<
    Seq<char>,
>
    decreases rels.len() - i,
{
    if i < 0 || i >= rels.len() {
        None
    } else if !declared.contains(rels[i].0) {
        Some(rels[i].0)
    } else {
        unknown_relation_from(rels, declared, i + 1)
    }
}

/// The number of relations of type `t` among the first `n` relations.
pub open spec fn relation_count(rels: Seq<(Seq<char>, Seq<char>)>, t: Seq<char>, n: int) -> nat
    decreases n,
{
    if n <= 0 {
        0
    } else {
        relation_count(rels, t, n - 1) + if rels[n - 1].0 == t {
            1nat
        } else {
            0nat
        }
    }
}

/// The first cardinality failure among the declared relation types from position `i` on.
pub open spec fn cardinality_failure_from(
    keys: Seq<Seq<char>>,
    defs: Seq<RelationDefinitionView>,
    rels: Seq<(Seq<char>, Seq<char>)>,
    i: int,
) -> Option<InvalidRelationErrorView>
    decreases keys.len() - i,
{
    if i < 0 || i >= keys.len() {
        None
    } else {
        let actual = relation_count(rels, keys[i], rels.len() as int);
        let min = defs[i].cardinality.min;
        let max = defs[i].cardinality.max;
        if actual < min || (max is Some && actual > max.unwrap()) {
            Some(
                InvalidRelationErrorView::CardinalityViolated {
                    relation_type: keys[i],
                    min,
                    max,
                    actual: actual as usize,
                },
            )
        } else {
            cardinality_failure_from(keys, defs, rels, i + 1)
        }
    }
}

/// The first relation failure of a record: an undeclared type, then a cardinality.
pub open spec fn relations_failure(d: ObjectTypeDefinitionView, rels: Seq<(Seq<char>, Seq<char>)>) -> Option<
    InvalidRelationErrorView,
> {
    match unknown_relation_from(rels, d.relation_keys, 0) {
        Some(t) => Some(InvalidRelationErrorView::UnknownRelationType { relation_type: t }),
        None => cardinality_failure_from(d.relation_keys, d.relations, rels, 0),
    }
}

/// The failure of the owner and permission scope, if any.
pub open spec fn owner_and_scope_failure(owner: Seq<char>, scope: Seq<char>) -> Option<ValidationErrorView> {
    if owner.len() == 0 {
        Some(ValidationErrorView::EmptyOwner)
    } else if scope.len() == 0 {
        Some(ValidationErrorView::EmptyPermissionScope)
    } else {
        None
    }
}

/// The first failure of a record's shape against its Object Type definition.
pub open spec fn record_shape_failure(d: ObjectTypeDefinitionView, r: ObjectRecordView) -> Option<
    ObjectRuntimeErrorView,
> {
    if properties_failure(d, r.property_keys, r.properties) is Some {
        properties_failure(d, r.property_keys, r.properties)
    } else if relations_failure(d, r.relations) is Some {
        Some(ObjectRuntimeErrorView::InvalidRelation { failure: relations_failure(d, r.relations).unwrap() })
    } else if r.lifecycle_state.len() == 0 {
        Some(ObjectRuntimeErrorView::ValidationFailed { failure: ValidationErrorView::EmptyLifecycleState })
    } else if owner_and_scope_failure(r.owner, r.permission_scope) is Some {
        Some(ObjectRuntimeErrorView::ValidationFailed { failure: owner_and_scope_failure(r.owner, r.permission_scope).unwrap() })
    } else {
        None
    }
}

fn metadata_error(failure: MetadataError) -> (e: ObjectRuntimeError)
    ensures
        e@ == (ObjectRuntimeErrorView::MalformedMetadata { failure: failure@ }),
{
    ObjectRuntimeError::MalformedMetadata { failure }
}

fn validation_error(failure: ValidationError) -> (e: ObjectRuntimeError)
    ensures
        e@ == (ObjectRuntimeErrorView::ValidationFailed { failure: failure@ }),
{
    ObjectRuntimeError::ValidationFailed { failure }
}

fn relation_error(failure: InvalidRelationError) -> (e: ObjectRuntimeError)
    ensures
        e@ == (ObjectRuntimeErrorView::InvalidRelation { failure: failure@ }),
{
    ObjectRuntimeError::InvalidRelation { failure }
}

fn suffixed(field: &str, suffix: &str) -> (r: String)
    ensures
        r@ == field@ + suffix@,
{
    let mut s = string_of(field);
    s.append(suffix);
    s
}

/// Checks the declared constraints of one property.
pub fn validate_property_constraints(property: &str, constraints: &StructuralConstraints) -> (r: Result<(), ObjectRuntimeError>)
    ensures
        r is Ok <==> property_constraints_failure(property@, constraints@) is None,
        r matches Err(e) ==> e@ == (ObjectRuntimeErrorView::MalformedMetadata {
            failure: property_constraints_failure(property@, constraints@).unwrap(),
        }),
{
    if let (Some(min), Some(max)) = (constraints.min_length, constraints.max_length) {
        if min > max {
            return Err(metadata_error(MetadataError::InvalidRange { field: suffixed(property, " length") }));
        }
    }
    if let (Some(min), Some(max)) = (constraints.min_number, constraints.max_number) {
        if number_less(max, min) {
            return Err(metadata_error(MetadataError::InvalidRange { field: suffixed(property, " number") }));
        }
    }
    if let Some(pattern) = &constraints.pattern {
        match compile_pattern(pattern.as_str()) {
            Err(message) => {
                return Err(
                    metadata_error(MetadataError::InvalidPattern { property: string_of(property), reason: message }),
                );
            },
            Ok(_) => {},
        }
    }
    Ok(())
}

/// Checks Object Type metadata before registration.
pub fn validate_object_metadata(definition: &ObjectTypeDefinition) -> (r: Result<(), ObjectRuntimeError>)
    ensures
        r is Ok <==> object_metadata_failure(definition@) is None,
        r matches Err(e) ==> e@ == (ObjectRuntimeErrorView::MalformedMetadata {
            failure: object_metadata_failure(definition@).unwrap(),
        }),
{
    if definition.type_ref.name.as_str().is_empty() {
        return Err(metadata_error(MetadataError::EmptyTypeName));
    }
    if definition.type_ref.version == 0 {
        return Err(metadata_error(MetadataError::EmptyTypeVersion));
    }
    let ghost d = definition@;
    let props = &definition.properties;
    proof {
        props.lemma_shape();
    }
    let n = props.len();
    let mut i: usize = 0;
    while i < n
        invariant
            d == definition@,
            d.property_keys == props.keys(),
            d.properties == viewed_values(props.values()),
            n == d.property_keys.len(),
            d.properties.len() == n,
            object_metadata_failure(d) == (if property_definitions_failure_from(d.property_keys, d.properties, 0) is Some {
                property_definitions_failure_from(d.property_keys, d.properties, 0)
            } else {
                relation_definitions_failure_from(d.relation_keys, d.relations, 0)
            }),
            i <= n,
            property_definitions_failure_from(d.property_keys, d.properties, 0)
                == property_definitions_failure_from(d.property_keys, d.properties, i as int),
        decreases n - i,
    {
        let key = props.key_at(i);
        let prop = props.value_at(i);
        assert(d.properties[i as int] == prop@);
        if prop.name.as_str().is_empty() {
            return Err(metadata_error(MetadataError::EmptyPropertyName));
        }
        if !str_eq(key.as_str(), prop.name.as_str()) {
            return Err(
                metadata_error(MetadataError::PropertyKeyMismatch { key: key.clone(), name: prop.name.clone() }),
            );
        }
        match validate_property_constraints(prop.name.as_str(), &prop.constraints) {
            Err(e) => {
                return Err(e);
            },
            Ok(()) => {},
        }
        i = i + 1;
    }
    let rels = &definition.relations;
    proof {
        rels.lemma_shape();
    }
    let m = rels.len();
    let mut j: usize = 0;
    while j < m
        invariant
            d == definition@,
            d.relation_keys == rels.keys(),
            d.relations == viewed_values(rels.values()),
            m == d.relation_keys.len(),
            d.relations.len() == m,
            object_metadata_failure(d) == relation_definitions_failure_from(d.relation_keys, d.relations, 0),
            j <= m,
            relation_definitions_failure_from(d.relation_keys, d.relations, 0)
                == relation_definitions_failure_from(d.relation_keys, d.relations, j as int),
        decreases m - j,
    {
        let key = rels.key_at(j);
        let rel = rels.value_at(j);
        assert(d.relations[j as int] == rel@);
        if rel.relation_type.as_str().is_empty() {
            return Err(metadata_error(MetadataError::EmptyRelationType));
        }
        if !str_eq(key.as_str(), rel.relation_type.as_str()) {
            return Err(
                metadata_error(
                    MetadataError::RelationKeyMismatch { key: key.clone(), relation_type: rel.relation_type.clone() },
                ),
            );
        }
        if let Some(max) = rel.cardinality.max {
            if rel.cardinality.min > max {
                let mut field = string_of("relation ");
                field.append(rel.relation_type.as_str());
                field.append(" cardinality");
                return Err(metadata_error(MetadataError::InvalidRange { field }));
            }
        }
        j = j + 1;
    }
    Ok(())
}

/// Checks one present property value against its declared kind and constraints.
pub fn validate_property_value(
    property: &str,
    value: &PropertyValue,
    kind: PropertyValueKind,
    constraints: &StructuralConstraints,
) -> (r: Result<(), ObjectRuntimeError>)
    ensures
        r is Ok <==> property_value_failure(property@, kind, constraints@, value@) is None,
        r matches Err(e) ==> Some(e@) == property_value_failure(property@, kind, constraints@, value@),
{
    let actual = value.kind();
    if actual != kind {
        return Err(
            validation_error(
                ValidationError::TypeMismatch {
                    property: string_of(property),
                    expected: string_of(kind_name(kind)),
                    actual: string_of(kind_name(actual)),
                },
            ),
        );
    }
    match check_value_constraints(
        constraints.min_length,
        constraints.max_length,
        constraints.min_number,
        constraints.max_number,
        &constraints.pattern,
        &constraints.allowed_enum_values,
        value,
    ) {
        ConstraintOutcome::Violated(reason) => Err(
            validation_error(
                ValidationError::ConstraintViolation { property: string_of(property), reason: string_of(reason) },
            ),
        ),
        ConstraintOutcome::InvalidPattern(message) => Err(
            metadata_error(MetadataError::InvalidPattern { property: string_of(property), reason: message }),
        ),
        ConstraintOutcome::Satisfied => Ok(()),
    }
}

/// Checks a record's properties against the properties its type declares.
pub fn validate_properties(definition: &ObjectTypeDefinition, properties: &OrdMap<String, PropertyValue>) -> (r:
    Result<(), ObjectRuntimeError>)
    ensures
        r is Ok <==> properties_failure(definition@, properties.keys(), payload_view(*properties)) is None,
        r matches Err(e) ==> Some(e@) == properties_failure(
            definition@,
            properties.keys(),
            payload_view(*properties),
        ),
{
    let defs = &definition.properties;
    let ghost d = definition@;
    let ghost pk = properties.keys();
    let ghost pv = payload_view(*properties);
    let np = properties.len();
    let mut i: usize = 0;
    while i < np
        invariant
            d == definition@,
            d.property_keys == defs.keys(),
            pk == properties.keys(),
            np == pk.len(),
            i <= np,
            unknown_field_from(pk, d.property_keys, 0) == unknown_field_from(pk, d.property_keys, i as int),
        decreases np - i,
    {
        let key = properties.key_at(i);
        if !defs.contains_key(key) {
            return Err(validation_error(ValidationError::UnknownProperty { property: key.clone() }));
        }
        i = i + 1;
    }
    proof {
        defs.lemma_shape();
    }
    let n = defs.len();
    let mut j: usize = 0;
    while j < n
        invariant
            d == definition@,
            pv == payload_view(*properties),
            pk == properties.keys(),
            unknown_field_from(pk, d.property_keys, 0) is None,
            n == d.property_keys.len(),
            d.properties.len() == n,
            d.property_keys == defs.keys(),
            d.properties == viewed_values(defs.values()),
            j <= n,
            declared_properties_failure_from(d.property_keys, d.properties, pv, 0)
                == declared_properties_failure_from(d.property_keys, d.properties, pv, j as int),
        decreases n - j,
    {
        let key = defs.key_at(j);
        let def = defs.value_at(j);
        assert(d.properties[j as int] == def@);
        match properties.get(key) {
            Some(value) => {
                assert(pv[key@] == value@);
                match validate_property_value(key.as_str(), value, def.kind, &def.constraints) {
                    Err(e) => {
                        return Err(e);
                    },
                    Ok(()) => {},
                }
            },
            None => {
                if def.required {
                    return Err(validation_error(ValidationError::MissingRequiredProperty { property: key.clone() }));
                }
            },
        }
        j = j + 1;
    }
    Ok(())
}

/// Counts the relations of one type.
fn count_relations(relations: &OrdSet<Relation>, relation_type: &str) -> (c: usize)
    ensures
        c == relation_count(relations.keys(), relation_type@, relations.keys().len() as int),
{
    let n = relations.len();
    let mut count: usize = 0;
    let mut i: usize = 0;
    while i < n
        invariant
            n == relations.keys().len(),
            i <= n,
            count <= i,
            count == relation_count(relations.keys(), relation_type@, i as int),
        decreases n - i,
    {
        let relation = relations.item_at(i);
        if str_eq(relation.relation_type.as_str(), relation_type) {
            count = count + 1;
        }
        i = i + 1;
    }
    count
}

/// Checks relation types and the cardinality of each declared relation type.
pub fn validate_relation_types_and_cardinality(definition: &ObjectTypeDefinition, relations: &OrdSet<Relation>) -> (r:
    Result<(), ObjectRuntimeError>)
    ensures
        r is Ok <==> relations_failure(definition@, relations.keys()) is None,
        r matches Err(e) ==> e@ == (ObjectRuntimeErrorView::InvalidRelation {
            failure: relations_failure(definition@, relations.keys()).unwrap(),
        }),
{
    let defs = &definition.relations;
    let ghost d = definition@;
    let ghost rk = relations.keys();
    let nr = relations.len();
    let mut i: usize = 0;
    while i < nr
        invariant
            d == definition@,
            d.relation_keys == defs.keys(),
            rk == relations.keys(),
            nr == rk.len(),
            i <= nr,
            unknown_relation_from(rk, d.relation_keys, 0) == unknown_relation_from(rk, d.relation_keys, i as int),
        decreases nr - i,
    {
        let relation = relations.item_at(i);
        if !defs.contains_key(&relation.relation_type) {
            return Err(
                relation_error(
                    InvalidRelationError::UnknownRelationType { relation_type: relation.relation_type.clone() },
                ),
            );
        }
        i = i + 1;
    }
    proof {
        defs.lemma_shape();
    }
    let n = defs.len();
    let mut j: usize = 0;
    while j < n
        invariant
            d == definition@,
            rk == relations.keys(),
            unknown_relation_from(rk, d.relation_keys, 0) is None,
            n == d.relation_keys.len(),
            d.relations.len() == n,
            d.relation_keys == defs.keys(),
            d.relations == viewed_values(defs.values()),
            j <= n,
            cardinality_failure_from(d.relation_keys, d.relations, rk, 0) == cardinality_failure_from(
                d.relation_keys,
                d.relations,
                rk,
                j as int,
            ),
        decreases n - j,
    {
        let key = defs.key_at(j);
        let def = defs.value_at(j);
        assert(d.relations[j as int] == def@);
        let actual = count_relations(relations, key.as_str());
        let min = def.cardinality.min;
        let max = def.cardinality.max;
        let too_many = match max {
            Some(limit) => actual > limit,
            None => false,
        };
        if actual < min || too_many {
            return Err(
                relation_error(
                    InvalidRelationError::CardinalityViolated { relation_type: key.clone(), min, max, actual },
                ),
            );
        }
        j = j + 1;
    }
    Ok(())
}

/// Checks the owner and the permission scope.
pub fn validate_owner_and_scope(ownership: &OwnershipInfo, permission_scope: &PermissionScopeRef) -> (r: Result<
    (),
    ObjectRuntimeError,
>)
    ensures
        r is Ok <==> owner_and_scope_failure(ownership.owner@, permission_scope@) is None,
        r matches Err(e) ==> e@ == (ObjectRuntimeErrorView::ValidationFailed {
            failure: owner_and_scope_failure(ownership.owner@, permission_scope@).unwrap(),
        }),
{
    if ownership.owner.is_empty() {
        return Err(validation_error(ValidationError::EmptyOwner));
    }
    if permission_scope.is_empty() {
        return Err(validation_error(ValidationError::EmptyPermissionScope));
    }
    Ok(())
}

/// Checks a record's shape against its Object Type definition.
pub fn validate_record_shape(definition: &ObjectTypeDefinition, record: &ObjectRecord) -> (r: Result<
    (),
    ObjectRuntimeError,
>)
    ensures
        r is Ok <==> record_shape_failure(definition@, record@) is None,
        r matches Err(e) ==> Some(e@) == record_shape_failure(definition@, record@),
{
    match validate_properties(definition, &record.properties) {
        Err(e) => {
            return Err(e);
        },
        Ok(()) => {},
    }
    match validate_relation_types_and_cardinality(definition, &record.relations) {
        Err(e) => {
            return Err(e);
        },
        Ok(()) => {},
    }
    if record.lifecycle_state.is_empty() {
        return Err(validation_error(ValidationError::EmptyLifecycleState));
    }
    validate_owner_and_scope(&record.ownership, &record.permission_scope)
}

} // verus!
