//! Metadata of the demonstration's equipment assets: the asset Object Type
//! and the three asset Event Types, with their registration.
use vstd::prelude::*;
use crate::collections::{OrdMap, OrdSet};
use crate::contracts::PropertyValueKind;
use crate::event_engine::{AppendSequenceGenerator, EventEngine, EventIdGenerator, StorageProvider as EventStorage};
use crate::event_errors::EventEngineError;
use crate::event_types::EventTypeDefinitionView;
use crate::event_types::{
    EventTypeDefinition, EventTypeRef, EventTypeRefView, PayloadConstraints, PayloadFieldDefinition,
    PayloadFieldDefinitionView,
};
use crate::object_errors::ObjectRuntimeError;
use crate::object_runtime::{ObjectIdGenerator, ObjectRuntime, StorageProvider as ObjectStorage};
use crate::object_types::{
    ObjectTypeDefinition, ObjectTypeRef, ObjectTypeRefView, PropertyDefinition, PropertyDefinitionView,
    StructuralConstraints,
};
use crate::values::ConstraintsView;

verus! {

/// The asset Object Type's reference: `asset.equipment`, version one.
pub open spec fn asset_object_type_key() -> ObjectTypeRefView {
    ObjectTypeRefView { name: "asset.equipment"@, version: 1 }
}

/// The asset-registered Event Type's reference.
pub open spec fn registered_event_key() -> EventTypeRefView {
    EventTypeRefView { name: "asset.registered"@, version: 1 }
}

/// The calibration-performed Event Type's reference.
pub open spec fn performed_event_key() -> EventTypeRefView {
    EventTypeRefView { name: "asset.calibration_performed"@, version: 1 }
}

/// The calibration-accepted Event Type's reference.
pub open spec fn accepted_event_key() -> EventTypeRefView {
    EventTypeRefView { name: "asset.calibration_accepted"@, version: 1 }
}

/// Returns the reference of the asset Object Type: `asset.equipment`, version one.
pub fn asset_object_type_ref() -> (r: ObjectTypeRef)
    ensures
        r@ == asset_object_type_key(),
{
    ObjectTypeRef::new("asset.equipment", 1)
}

/// Returns the reference of the asset-registered Event Type.
pub fn asset_registered_event_type_ref() -> (r: EventTypeRef)
    ensures
        r@ == registered_event_key(),
{
    EventTypeRef::new("asset.registered", 1)
}

/// Returns the reference of the calibration-performed Event Type.
pub fn asset_calibration_performed_event_type_ref() -> (r: EventTypeRef)
    ensures
        r@ == performed_event_key(),
{
    EventTypeRef::new("asset.calibration_performed", 1)
}

/// Returns the reference of the calibration-accepted Event Type.
pub fn asset_calibration_accepted_event_type_ref() -> (r: EventTypeRef)
    ensures
        r@ == accepted_event_key(),
{
    EventTypeRef::new("asset.calibration_accepted", 1)
}

/// Text constraints of an asset property: one to 128 characters, the given
/// allowed values.
pub open spec fn property_constraints(allowed: Set<Seq<char>>) -> ConstraintsView {
    ConstraintsView {
        min_length: Some(1),
        max_length: Some(128),
        min_number: None,
        max_number: None,
        pattern: None,
        allowed_enum_values: allowed,
    }
}

/// Text constraints of an asset Event field: one to 256 characters, the
/// given allowed values.
pub open spec fn field_constraints(allowed: Set<Seq<char>>) -> ConstraintsView {
    ConstraintsView {
        min_length: Some(1),
        max_length: Some(256),
        min_number: None,
        max_number: None,
        pattern: None,
        allowed_enum_values: allowed,
    }
}

/// The asset classes.
pub open spec fn asset_classes() -> Set<Seq<char>> {
    set!["measuring_equipment"@, "machine"@, "robot"@, "tool"@, "fixture"@, "generic"@]
}

/// An asset property definition.
pub open spec fn asset_property(name: Seq<char>, kind: PropertyValueKind, required: bool, allowed: Set<Seq<char>>) -> PropertyDefinitionView {
    PropertyDefinitionView { name, kind, required, constraints: property_constraints(allowed) }
}

/// The properties of an asset: identity, class, organization, location,
/// maker, model and serial number, status, responsible party, registration
/// time, whether calibration is required, and the optional calibration
/// interval and due date.
pub open spec fn asset_properties() -> Map<Seq<char>, PropertyDefinitionView> {
    map![
        "identity_label"@ => asset_property("identity_label"@, PropertyValueKind::Text, true, Set::empty()),
        "asset_class"@ => asset_property("asset_class"@, PropertyValueKind::EnumValue, true, asset_classes()),
        "organization"@ => asset_property("organization"@, PropertyValueKind::Text, true, Set::empty()),
        "location"@ => asset_property("location"@, PropertyValueKind::Text, true, Set::empty()),
        "manufacturer"@ => asset_property("manufacturer"@, PropertyValueKind::Text, true, Set::empty()),
        "model"@ => asset_property("model"@, PropertyValueKind::Text, true, Set::empty()),
        "serial_number"@ => asset_property("serial_number"@, PropertyValueKind::Text, true, Set::empty()),
        "status"@ => asset_property(
            "status"@,
            PropertyValueKind::EnumValue,
            true,
            set!["registered"@, "in_service"@, "out_of_service"@],
        ),
        "responsible_reference"@ => asset_property("responsible_reference"@, PropertyValueKind::Text, true, Set::empty()),
        "registered_at"@ => asset_property("registered_at"@, PropertyValueKind::DateTime, true, Set::empty()),
        "calibration_required"@ => asset_property("calibration_required"@, PropertyValueKind::Boolean, true, Set::empty()),
        "calibration_interval_days"@ => asset_property(
            "calibration_interval_days"@,
            PropertyValueKind::Number,
            false,
            Set::empty(),
        ),
        "next_calibration_due"@ => asset_property("next_calibration_due"@, PropertyValueKind::DateTime, false, Set::empty()),
    ]
}

fn string_set(values: &Vec<&str>) -> (r: OrdSet<String>)
    ensures
        r.as_set() == values@.map_values(|s: &str| s@).to_set(),
{
    let ghost views = values@.map_values(|s: &str| s@);
    let mut set: OrdSet<String> = OrdSet::new();
    let n = values.len();
    let mut i: usize = 0;
    proof {
        assert(views.take(0).to_set() =~= Set::<Seq<char>>::empty());
    }
    while i < n
        invariant
            n == values@.len(),
            views == values@.map_values(|s: &str| s@),
            i <= n,
            set.as_set() == views.take(i as int).to_set(),
        decreases n - i,
    {
        set.insert(String::from_str(values[i]));
        proof {
            assert(views.take(i + 1) =~= views.take(i as int).push(views[i as int]));
            views.take(i as int).lemma_push_to_set_commute(views[i as int]);
        }
        i = i + 1;
    }
    proof {
        assert(views.take(n as int) =~= views);
    }
    set
}

fn add_property(
    properties: &mut OrdMap<String, PropertyDefinition>,
    name: &str,
    kind: PropertyValueKind,
    required: bool,
    allowed: &Vec<&str>,
)
    ensures
        final(properties).as_map().map_values(|p: PropertyDefinition| p@) == old(properties).as_map().map_values(
            |p: PropertyDefinition| p@,
        ).insert(name@, asset_property(name@, kind, required, allowed@.map_values(|s: &str| s@).to_set())),
{
    let ghost before = properties.as_map().map_values(|p: PropertyDefinition| p@);
    let mut constraints = StructuralConstraints::default();
    constraints.min_length = Some(1);
    constraints.max_length = Some(128);
    constraints.allowed_enum_values = string_set(allowed);
    properties.insert(String::from_str(name), PropertyDefinition::new(name, kind, required, constraints));
    assert(properties.as_map().map_values(|p: PropertyDefinition| p@) =~= before.insert(
        name@,
        asset_property(name@, kind, required, allowed@.map_values(|s: &str| s@).to_set()),
    ));
}

proof fn lemma_empty_values()
    ensures
        Seq::<&str>::empty().map_values(|s: &str| s@).to_set() == Set::<Seq<char>>::empty(),
{
    assert(Seq::<&str>::empty().map_values(|s: &str| s@).to_set() =~= Set::<Seq<char>>::empty());
}

proof fn lemma_listed_values(values: Seq<&str>, views: Seq<Seq<char>>)
    requires
        values.len() == views.len(),
        forall|i: int| 0 <= i < values.len() ==> (#[trigger] values[i])@ == views[i],
    ensures
        values.map_values(|s: &str| s@).to_set() == views.to_set(),
{
    assert(values.map_values(|s: &str| s@) =~= views);
}

/// Returns the asset Object Type definition.
pub fn asset_object_type_definition() -> (r: ObjectTypeDefinition)
    ensures
        r.type_ref@.name == "asset.equipment"@,
        r.type_ref@.version == 1,
        r.properties.as_map().map_values(|p: PropertyDefinition| p@) == asset_properties(),
        r.relations.as_map().len() == 0,
        r.migration_marker is None,
{
    let none: Vec<&str> = Vec::new();
    let classes: Vec<&str> = vec!["measuring_equipment", "machine", "robot", "tool", "fixture", "generic"];
    let statuses: Vec<&str> = vec!["registered", "in_service", "out_of_service"];
    proof {
        lemma_empty_values();
        assert(none@ =~= Seq::<&str>::empty());
        lemma_listed_values(classes@, seq!["measuring_equipment"@, "machine"@, "robot"@, "tool"@, "fixture"@, "generic"@]);
        lemma_listed_values(statuses@, seq!["registered"@, "in_service"@, "out_of_service"@]);
        assert(seq!["measuring_equipment"@, "machine"@, "robot"@, "tool"@, "fixture"@, "generic"@].to_set() =~= asset_classes());
        assert(seq!["registered"@, "in_service"@, "out_of_service"@].to_set() =~= set!["registered"@, "in_service"@, "out_of_service"@]);
    }
    let mut properties: OrdMap<String, PropertyDefinition> = OrdMap::new();
    proof {
        assert(properties.as_map().map_values(|p: PropertyDefinition| p@) =~= Map::empty());
    }
    add_property(&mut properties, "identity_label", PropertyValueKind::Text, true, &none);
    add_property(&mut properties, "asset_class", PropertyValueKind::EnumValue, true, &classes);
    add_property(&mut properties, "organization", PropertyValueKind::Text, true, &none);
    add_property(&mut properties, "location", PropertyValueKind::Text, true, &none);
    add_property(&mut properties, "manufacturer", PropertyValueKind::Text, true, &none);
    add_property(&mut properties, "model", PropertyValueKind::Text, true, &none);
    add_property(&mut properties, "serial_number", PropertyValueKind::Text, true, &none);
    add_property(&mut properties, "status", PropertyValueKind::EnumValue, true, &statuses);
    add_property(&mut properties, "responsible_reference", PropertyValueKind::Text, true, &none);
    add_property(&mut properties, "registered_at", PropertyValueKind::DateTime, true, &none);
    add_property(&mut properties, "calibration_required", PropertyValueKind::Boolean, true, &none);
    add_property(&mut properties, "calibration_interval_days", PropertyValueKind::Number, false, &none);
    add_property(&mut properties, "next_calibration_due", PropertyValueKind::DateTime, false, &none);
    let relations = OrdMap::new();
    proof {
        assert(relations.as_map() =~= Map::empty());
    }
    ObjectTypeDefinition::new(asset_object_type_ref(), properties, relations, None)
}

/// An asset Event field definition.
pub open spec fn asset_field(name: Seq<char>, kind: PropertyValueKind, required: bool, allowed: Set<Seq<char>>) -> PayloadFieldDefinitionView {
    PayloadFieldDefinitionView { name, kind, required, constraints: field_constraints(allowed) }
}

/// Fields of the asset-registered Event.
pub open spec fn registered_fields() -> Map<Seq<char>, PayloadFieldDefinitionView> {
    map![
        "asset_id"@ => asset_field("asset_id"@, PropertyValueKind::Reference, true, Set::empty()),
        "asset_class"@ => asset_field("asset_class"@, PropertyValueKind::EnumValue, true, asset_classes()),
        "registered_at"@ => asset_field("registered_at"@, PropertyValueKind::DateTime, true, Set::empty()),
    ]
}

/// Fields of the calibration-performed Event.
pub open spec fn performed_fields() -> Map<Seq<char>, PayloadFieldDefinitionView> {
    map![
        "asset_id"@ => asset_field("asset_id"@, PropertyValueKind::Reference, true, Set::empty()),
        "performed_at"@ => asset_field("performed_at"@, PropertyValueKind::DateTime, true, Set::empty()),
        "outcome"@ => asset_field("outcome"@, PropertyValueKind::EnumValue, true, set!["accepted"@, "rejected"@]),
        "note"@ => asset_field("note"@, PropertyValueKind::Text, false, Set::empty()),
    ]
}

/// Fields of the calibration-accepted Event.
pub open spec fn accepted_fields() -> Map<Seq<char>, PayloadFieldDefinitionView> {
    map![
        "asset_id"@ => asset_field("asset_id"@, PropertyValueKind::Reference, true, Set::empty()),
        "accepted_at"@ => asset_field("accepted_at"@, PropertyValueKind::DateTime, true, Set::empty()),
        "next_calibration_due"@ => asset_field("next_calibration_due"@, PropertyValueKind::DateTime, true, Set::empty()),
    ]
}

fn add_field(
    fields: &mut OrdMap<String, PayloadFieldDefinition>,
    name: &str,
    kind: PropertyValueKind,
    required: bool,
    allowed: &Vec<&str>,
)
    ensures
        final(fields).as_map().map_values(|f: PayloadFieldDefinition| f@) == old(fields).as_map().map_values(
            |f: PayloadFieldDefinition| f@,
        ).insert(name@, asset_field(name@, kind, required, allowed@.map_values(|s: &str| s@).to_set())),
{
    let ghost before = fields.as_map().map_values(|f: PayloadFieldDefinition| f@);
    let mut constraints = PayloadConstraints::default();
    constraints.min_length = Some(1);
    constraints.max_length = Some(256);
    constraints.allowed_enum_values = string_set(allowed);
    fields.insert(String::from_str(name), PayloadFieldDefinition::new(name, kind, required, constraints));
    assert(fields.as_map().map_values(|f: PayloadFieldDefinition| f@) =~= before.insert(
        name@,
        asset_field(name@, kind, required, allowed@.map_values(|s: &str| s@).to_set()),
    ));
}

/// Returns the three asset Event Type definitions: registered, calibration
/// performed, calibration accepted.
pub fn asset_event_type_definitions() -> (r: Vec<EventTypeDefinition>)
    ensures
        r@.len() == 3,
        r@[0].type_ref@.name == "asset.registered"@,
        r@[0].payload_fields.as_map().map_values(|f: PayloadFieldDefinition| f@) == registered_fields(),
        r@[1].type_ref@.name == "asset.calibration_performed"@,
        r@[1].payload_fields.as_map().map_values(|f: PayloadFieldDefinition| f@) == performed_fields(),
        r@[2].type_ref@.name == "asset.calibration_accepted"@,
        r@[2].payload_fields.as_map().map_values(|f: PayloadFieldDefinition| f@) == accepted_fields(),
        forall|i: int| 0 <= i < 3 ==> (#[trigger] r@[i]).type_ref@.version == 1,
{
    let none: Vec<&str> = Vec::new();
    let classes: Vec<&str> = vec!["measuring_equipment", "machine", "robot", "tool", "fixture", "generic"];
    let outcomes: Vec<&str> = vec!["accepted", "rejected"];
    proof {
        lemma_empty_values();
        assert(none@ =~= Seq::<&str>::empty());
        lemma_listed_values(classes@, seq!["measuring_equipment"@, "machine"@, "robot"@, "tool"@, "fixture"@, "generic"@]);
        lemma_listed_values(outcomes@, seq!["accepted"@, "rejected"@]);
        assert(seq!["measuring_equipment"@, "machine"@, "robot"@, "tool"@, "fixture"@, "generic"@].to_set() =~= asset_classes());
        assert(seq!["accepted"@, "rejected"@].to_set() =~= set!["accepted"@, "rejected"@]);
    }
    let mut registered: OrdMap<String, PayloadFieldDefinition> = OrdMap::new();
    let mut performed: OrdMap<String, PayloadFieldDefinition> = OrdMap::new();
    let mut accepted: OrdMap<String, PayloadFieldDefinition> = OrdMap::new();
    proof {
        assert(registered.as_map().map_values(|f: PayloadFieldDefinition| f@) =~= Map::empty());
        assert(performed.as_map().map_values(|f: PayloadFieldDefinition| f@) =~= Map::empty());
        assert(accepted.as_map().map_values(|f: PayloadFieldDefinition| f@) =~= Map::empty());
    }
    add_field(&mut registered, "asset_id", PropertyValueKind::Reference, true, &none);
    add_field(&mut registered, "asset_class", PropertyValueKind::EnumValue, true, &classes);
    add_field(&mut registered, "registered_at", PropertyValueKind::DateTime, true, &none);
    add_field(&mut performed, "asset_id", PropertyValueKind::Reference, true, &none);
    add_field(&mut performed, "performed_at", PropertyValueKind::DateTime, true, &none);
    add_field(&mut performed, "outcome", PropertyValueKind::EnumValue, true, &outcomes);
    add_field(&mut performed, "note", PropertyValueKind::Text, false, &none);
    add_field(&mut accepted, "asset_id", PropertyValueKind::Reference, true, &none);
    add_field(&mut accepted, "accepted_at", PropertyValueKind::DateTime, true, &none);
    add_field(&mut accepted, "next_calibration_due", PropertyValueKind::DateTime, true, &none);
    let mut out: Vec<EventTypeDefinition> = Vec::new();
    out.push(EventTypeDefinition::new(asset_registered_event_type_ref(), registered));
    out.push(EventTypeDefinition::new(asset_calibration_performed_event_type_ref(), performed));
    out.push(EventTypeDefinition::new(asset_calibration_accepted_event_type_ref(), accepted));
    out
}

/// Registers the asset Object Type with an Object Runtime.
pub fn register_object_metadata<S: ObjectStorage, G: ObjectIdGenerator>(runtime: &mut ObjectRuntime<S, G>) -> (r: Result<
    (),
    ObjectRuntimeError,
>)
    ensures
        final(runtime).objects() == old(runtime).objects(),
        r is Err ==> final(runtime).object_types() == old(runtime).object_types(),
        r is Ok ==> final(runtime).object_types().dom() == old(runtime).object_types().dom().insert(
            asset_object_type_key(),
        ),
        r is Ok ==> exists|d: ObjectTypeDefinition|
            #![trigger old(runtime).object_types().insert(asset_object_type_key(), d@)]
            {
                &&& d.type_ref@ == asset_object_type_key()
                &&& d.properties.as_map().map_values(|p: PropertyDefinition| p@) == asset_properties()
                &&& d.relations.as_map().len() == 0
                &&& d.migration_marker is None
                &&& final(runtime).object_types() == old(runtime).object_types().insert(asset_object_type_key(), d@)
            },
{
    let definition = asset_object_type_definition();
    let ghost handed = definition;
    let r = runtime.register_object_type(definition);
    proof {
        if r is Ok {
            assert(final(runtime).object_types() == old(runtime).object_types().insert(asset_object_type_key(), handed@));
            assert(final(runtime).object_types().dom() =~= old(runtime).object_types().dom().insert(
                asset_object_type_key(),
            ));
        }
    }
    r
}

/// The keys present after the first `count` asset Event Types were added to `start`.
pub open spec fn keys_registered(start: Set<EventTypeRefView>, count: int) -> Set<EventTypeRefView> {
    if count <= 0 {
        start
    } else if count == 1 {
        start.insert(registered_event_key())
    } else if count == 2 {
        start.insert(registered_event_key()).insert(performed_event_key())
    } else {
        start.insert(registered_event_key()).insert(performed_event_key()).insert(accepted_event_key())
    }
}

/// The definitions after the first `count` of `defs` were added to `start`.
pub open spec fn types_registered(
    start: Map<EventTypeRefView, EventTypeDefinitionView>,
    defs: Seq<EventTypeDefinition>,
    count: int,
) -> Map<EventTypeRefView, EventTypeDefinitionView>
    decreases count,
{
    if count <= 0 {
        start
    } else {
        types_registered(start, defs, count - 1).insert(defs[count - 1].type_ref@, defs[count - 1]@)
    }
}

/// Registers the asset Event Types with an Event Engine, stopping at the first failure.
pub fn register_event_metadata<S: EventStorage, I: EventIdGenerator, Q: AppendSequenceGenerator>(engine: &mut EventEngine<S, I, Q>) -> (r:
    Result<(), EventEngineError>)
    ensures
        final(engine).events() == old(engine).events(),
        r is Ok ==> final(engine).event_types().dom() == old(engine).event_types().dom().insert(
            registered_event_key(),
        ).insert(performed_event_key()).insert(accepted_event_key()),
        r is Ok ==> exists|defs: Seq<EventTypeDefinition>|
            #![trigger types_registered(old(engine).event_types(), defs, 3)]
            {
                &&& defs.len() == 3
                &&& defs[0].type_ref@ == registered_event_key()
                &&& defs[0].payload_fields.as_map().map_values(|f: PayloadFieldDefinition| f@) == registered_fields()
                &&& defs[1].type_ref@ == performed_event_key()
                &&& defs[1].payload_fields.as_map().map_values(|f: PayloadFieldDefinition| f@) == performed_fields()
                &&& defs[2].type_ref@ == accepted_event_key()
                &&& defs[2].payload_fields.as_map().map_values(|f: PayloadFieldDefinition| f@) == accepted_fields()
                &&& final(engine).event_types() == types_registered(old(engine).event_types(), defs, 3)
            },
{
    let definitions = asset_event_type_definitions();
    let n = definitions.len();
    let mut remaining = definitions;
    let mut i: usize = 0;
    let ghost defs = remaining@;
    let ghost start_events = engine.events();
    let ghost start_types = engine.event_types();
    while i < n
        invariant
            n == 3,
            defs.len() == 3,
            i <= n,
            remaining@ == defs.skip(i as int),
            engine.events() == start_events,
            start_events == old(engine).events(),
            defs[0].type_ref@ == registered_event_key(),
            defs[1].type_ref@ == performed_event_key(),
            defs[2].type_ref@ == accepted_event_key(),
            engine.event_types().dom() == keys_registered(start_types.dom(), i as int),
            start_types == old(engine).event_types(),
            engine.event_types() == types_registered(start_types, defs, i as int),
        decreases n - i,
    {
        let definition = remaining.remove(0);
        let ghost key = definition.type_ref@;
        assert(key == defs[i as int].type_ref@);
        engine.register_event_type(definition)?;
        proof {
            assert(remaining@ =~= defs.skip(i + 1));
            assert(engine.event_types().dom() =~= keys_registered(start_types.dom(), i as int).insert(key));
            assert(defs[i as int] == definition);
        }
        i = i + 1;
    }
    Ok(())
}

} // verus!
