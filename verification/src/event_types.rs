//! Data contracts for the Event Engine: identities, append sequences,
//! timestamps, Event Type metadata and immutable Event records.
use vstd::prelude::*;
use crate::collections::{OrdMap, OrdSet, OrderedKey};
use crate::contracts::{clone_opt_string, opt_view, ObjectId, PropertyValue, PropertyValueKind, PropertyValueView};
use crate::text::{chars_lt, compare_chars, lemma_chars_lt_irreflexive, lemma_chars_lt_total,
    lemma_chars_lt_transitive, KeyOrder};
use crate::values::ConstraintsView;

verus! {

/// Opaque globally unique identifier for an Event.
#[derive(Debug, Eq, PartialEq, Ord, PartialOrd, Hash)]
pub struct EventId(String);

impl View for EventId {
    type V = Seq<char>;

    closed spec fn view(&self) -> Seq<char> {
        self.0@
    }
}

impl Clone for EventId {
    fn clone(&self) -> (r: Self)
        ensures
            r@ == self@,
    {
        EventId(self.0.clone())
    }
}

impl EventId {
    /// Creates a new opaque Event identifier from a caller-supplied token.
    pub fn new(value: &str) -> (r: Self)
        ensures
            r@ == value@,
    {
        EventId(String::from_str(value))
    }

    /// Returns the identifier token without assigning any business meaning to it.
    pub fn as_str(&self) -> (r: &str)
        ensures
            r@ == self@,
    {
        self.0.as_str()
    }

    /// Reports whether the identifier token is empty.
    pub fn is_empty(&self) -> (b: bool)
        ensures
            b == (self@.len() == 0),
    {
        self.0.as_str().is_empty()
    }

    /// Returns the token as an owned string, as its display form.
    pub fn to_string(&self) -> (r: String)
        ensures
            r@ == self@,
    {
        self.0.clone()
    }
}

impl OrderedKey for EventId {
    type KeyView = Seq<char>;

    open spec fn key_view(&self) -> Seq<char> {
        self@
    }

    open spec fn view_lt(a: Seq<char>, b: Seq<char>) -> bool {
        chars_lt(a, b)
    }

    proof fn lemma_view_lt_irreflexive(a: Seq<char>) {
        lemma_chars_lt_irreflexive(a);
    }

    proof fn lemma_view_lt_transitive(a: Seq<char>, b: Seq<char>, c: Seq<char>) {
        lemma_chars_lt_transitive(a, b, c);
    }

    proof fn lemma_view_lt_total(a: Seq<char>, b: Seq<char>) {
        lemma_chars_lt_total(a, b);
    }

    fn compare_key(&self, other: &Self) -> (r: KeyOrder) {
        compare_chars(self.0.as_str(), other.0.as_str())
    }

    fn copy_key(&self) -> (r: Self) {
        self.clone()
    }
}

/// Abstract contents of an Event Type reference.
pub struct EventTypeRefView {
    pub name: Seq<char>,
    pub version: u32,
}

/// Reference to a registered Event Type metadata definition.
#[derive(Debug, Eq, PartialEq, Ord, PartialOrd)]
pub struct EventTypeRef {
    /// Language-neutral Event Type name.
    pub name: String,
    /// Metadata schema version for this Event Type.
    pub version: u32,
}

impl View for EventTypeRef {
    type V = EventTypeRefView;

    open spec fn view(&self) -> EventTypeRefView {
        EventTypeRefView { name: self.name@, version: self.version }
    }
}

impl Clone for EventTypeRef {
    fn clone(&self) -> (r: Self)
        ensures
            r@ == self@,
    {
        EventTypeRef { name: self.name.clone(), version: self.version }
    }
}

impl EventTypeRef {
    /// Creates a new Event Type reference.
    pub fn new(name: &str, version: u32) -> (r: Self)
        ensures
            r@ == (EventTypeRefView { name: name@, version }),
    {
        EventTypeRef { name: String::from_str(name), version }
    }

    /// Reports whether two references name the same Event Type version.
    pub fn same_as(&self, other: &EventTypeRef) -> (b: bool)
        ensures
            b == (self@ == other@),
    {
        crate::text::str_eq(self.name.as_str(), other.name.as_str()) && self.version == other.version
    }
}

/// Strictly increasing Event Engine append-order marker.
#[derive(Clone, Copy, Debug, Eq, PartialEq, Ord, PartialOrd, Hash, Structural)]
pub struct AppendSequence(u64);

impl View for AppendSequence {
    type V = u64;

    closed spec fn view(&self) -> u64 {
        self.0
    }
}

impl AppendSequence {
    /// Returns the first valid append sequence.
    pub fn first() -> (r: Self)
        ensures
            r@ == 1,
    {
        AppendSequence(1)
    }

    /// Creates an append sequence from a raw monotonic marker.
    pub fn new(value: u64) -> (r: Self)
        ensures
            r@ == value,
    {
        AppendSequence(value)
    }

    /// Returns the raw monotonic marker.
    pub fn value(self) -> (r: u64)
        ensures
            r == self@,
    {
        self.0
    }

    /// Returns the next append sequence marker.
    pub fn next(self) -> (r: Self)
        requires
            self@ < u64::MAX,
        ensures
            r@ == self@ + 1,
    {
        AppendSequence(self.0 + 1)
    }

    /// Reports whether this marker is outside the valid public range.
    pub fn is_zero(self) -> (b: bool)
        ensures
            b == (self@ == 0),
    {
        self.0 == 0
    }
}

/// Caller-supplied timestamp token stored on an Event.
#[derive(Debug, Eq, PartialEq, Ord, PartialOrd, Hash)]
pub struct EventTimestamp(String);

impl View for EventTimestamp {
    type V = Seq<char>;

    closed spec fn view(&self) -> Seq<char> {
        self.0@
    }
}

impl Clone for EventTimestamp {
    fn clone(&self) -> (r: Self)
        ensures
            r@ == self@,
    {
        EventTimestamp(self.0.clone())
    }
}

impl EventTimestamp {
    /// Creates a timestamp token.
    pub fn new(value: &str) -> (r: Self)
        ensures
            r@ == value@,
    {
        EventTimestamp(String::from_str(value))
    }

    /// Returns the stored timestamp token.
    pub fn as_str(&self) -> (r: &str)
        ensures
            r@ == self@,
    {
        self.0.as_str()
    }

    /// Reports whether the timestamp token is empty.
    pub fn is_empty(&self) -> (b: bool)
        ensures
            b == (self@.len() == 0),
    {
        self.0.as_str().is_empty()
    }
}
/// Caller-supplied opaque source reference for an Event.
#[derive(Debug, Eq, PartialEq, Ord, PartialOrd, Hash)]
pub struct EventSource(String);

impl View for EventSource {
    type V = Seq<char>;

    closed spec fn view(&self) -> Seq<char> {
        self.0@
    }
}

impl Clone for EventSource {
    fn clone(&self) -> (r: Self)
        ensures
            r@ == self@,
    {
        EventSource(self.0.clone())
    }
}

impl EventSource {
    /// Creates an Event source reference.
    pub fn new(value: &str) -> (r: Self)
        ensures
            r@ == value@,
    {
        EventSource(String::from_str(value))
    }

    /// Returns the stored source reference.
    pub fn as_str(&self) -> (r: &str)
        ensures
            r@ == self@,
    {
        self.0.as_str()
    }

    /// Reports whether the source reference is empty.
    pub fn is_empty(&self) -> (b: bool)
        ensures
            b == (self@.len() == 0),
    {
        self.0.as_str().is_empty()
    }
}
/// Optional opaque value grouping related Events.
#[derive(Debug, Eq, PartialEq, Ord, PartialOrd, Hash)]
pub struct CorrelationId(String);

impl View for CorrelationId {
    type V = Seq<char>;

    closed spec fn view(&self) -> Seq<char> {
        self.0@
    }
}

impl Clone for CorrelationId {
    fn clone(&self) -> (r: Self)
        ensures
            r@ == self@,
    {
        CorrelationId(self.0.clone())
    }
}

impl CorrelationId {
    /// Creates a correlation reference.
    pub fn new(value: &str) -> (r: Self)
        ensures
            r@ == value@,
    {
        CorrelationId(String::from_str(value))
    }

    /// Returns the stored correlation token.
    pub fn as_str(&self) -> (r: &str)
        ensures
            r@ == self@,
    {
        self.0.as_str()
    }
}
/// Optional opaque value identifying what caused an Event.
#[derive(Debug, Eq, PartialEq, Ord, PartialOrd, Hash)]
pub struct CausationId(String);

impl View for CausationId {
    type V = Seq<char>;

    closed spec fn view(&self) -> Seq<char> {
        self.0@
    }
}

impl Clone for CausationId {
    fn clone(&self) -> (r: Self)
        ensures
            r@ == self@,
    {
        CausationId(self.0.clone())
    }
}

impl CausationId {
    /// Creates a causation reference.
    pub fn new(value: &str) -> (r: Self)
        ensures
            r@ == value@,
    {
        CausationId(String::from_str(value))
    }

    /// Returns the stored causation token.
    pub fn as_str(&self) -> (r: &str)
        ensures
            r@ == self@,
    {
        self.0.as_str()
    }
}

/// Structural constraints declared by Event Type metadata.
///
/// Numeric bounds are IEEE 754 binary64 bit patterns.
#[derive(Debug)]
pub struct PayloadConstraints {
    /// Minimum string or blob length, where applicable.
    pub min_length: Option<usize>,
    /// Maximum string or blob length, where applicable.
    pub max_length: Option<usize>,
    /// Minimum numeric value, where applicable.
    pub min_number: Option<u64>,
    /// Maximum numeric value, where applicable.
    pub max_number: Option<u64>,
    /// Deterministic regular-expression pattern for string-like values.
    pub pattern: Option<String>,
    /// Allowed values for enum payload fields.
    pub allowed_enum_values: OrdSet<String>,
}

impl View for PayloadConstraints {
    type V = ConstraintsView;

    open spec fn view(&self) -> ConstraintsView {
        ConstraintsView {
            min_length: self.min_length,
            max_length: self.max_length,
            min_number: self.min_number,
            max_number: self.max_number,
            pattern: opt_view(self.pattern),
            allowed_enum_values: self.allowed_enum_values.as_set(),
        }
    }
}

impl Clone for PayloadConstraints {
    fn clone(&self) -> (r: Self)
        ensures
            r@ == self@,
    {
        PayloadConstraints {
            min_length: self.min_length,
            max_length: self.max_length,
            min_number: self.min_number,
            max_number: self.max_number,
            pattern: clone_opt_string(&self.pattern),
            allowed_enum_values: self.allowed_enum_values.copy(),
        }
    }
}

impl Default for PayloadConstraints {
    fn default() -> (r: Self)
        ensures
            r@ == unconstrained(),
    {
        let r = PayloadConstraints {
            min_length: None,
            max_length: None,
            min_number: None,
            max_number: None,
            pattern: None,
            allowed_enum_values: OrdSet::new(),
        };
        assert(r@ == unconstrained());
        r
    }
}

/// Constraints that admit every value.
pub open spec fn unconstrained() -> ConstraintsView {
    ConstraintsView {
        min_length: None,
        max_length: None,
        min_number: None,
        max_number: None,
        pattern: None,
        allowed_enum_values: Set::empty(),
    }
}

/// Abstract contents of a payload field definition.
pub struct PayloadFieldDefinitionView {
    pub name: Seq<char>,
    pub kind: PropertyValueKind,
    pub required: bool,
    pub constraints: ConstraintsView,
}

/// Definition of one payload field on an Event Type.
#[derive(Debug)]
pub struct PayloadFieldDefinition {
    /// Language-neutral payload field name.
    pub name: String,
    /// Required payload value kind.
    pub kind: PropertyValueKind,
    /// Whether the payload field must be present on every Event.
    pub required: bool,
    /// Structural validation constraints.
    pub constraints: PayloadConstraints,
}

impl View for PayloadFieldDefinition {
    type V = PayloadFieldDefinitionView;

    open spec fn view(&self) -> PayloadFieldDefinitionView {
        PayloadFieldDefinitionView {
            name: self.name@,
            kind: self.kind,
            required: self.required,
            constraints: self.constraints@,
        }
    }
}

impl Clone for PayloadFieldDefinition {
    fn clone(&self) -> (r: Self)
        ensures
            r@ == self@,
    {
        PayloadFieldDefinition {
            name: self.name.clone(),
            kind: self.kind,
            required: self.required,
            constraints: self.constraints.clone(),
        }
    }
}

impl PayloadFieldDefinition {
    /// Creates a payload field definition.
    pub fn new(name: &str, kind: PropertyValueKind, required: bool, constraints: PayloadConstraints) -> (r:
        Self)
        ensures
            r@ == (PayloadFieldDefinitionView { name: name@, kind, required, constraints: constraints@ }),
    {
        PayloadFieldDefinition { name: String::from_str(name), kind, required, constraints }
    }
}

/// Abstract contents of an Event Type definition: its reference and its
/// payload fields, keyed by name, with the names in ascending order.
pub struct EventTypeDefinitionView {
    pub type_ref: EventTypeRefView,
    pub field_keys: Seq<Seq<char>>,
    pub fields: Seq<PayloadFieldDefinitionView>,
}

impl EventTypeDefinitionView {
    /// The payload field definitions as a map from key to definition.
    pub open spec fn field_map(self) -> Map<Seq<char>, PayloadFieldDefinitionView> {
        Map::new(
            |k: Seq<char>| self.field_keys.contains(k),
            |k: Seq<char>| self.fields[self.field_keys.index_of(k)],
        )
    }
}

/// The values of an ordered map, each taken by its view.
pub open spec fn viewed_values<V: View>(s: Seq<V>) -> Seq<V::V> {
    s.map_values(|v: V| v@)
}

/// Versioned Event Type metadata definition.
#[derive(Debug)]
pub struct EventTypeDefinition {
    /// Name/version pair for this metadata definition.
    pub type_ref: EventTypeRef,
    /// Payload field definitions keyed by language-neutral field name.
    pub payload_fields: OrdMap<String, PayloadFieldDefinition>,
}

impl View for EventTypeDefinition {
    type V = EventTypeDefinitionView;

    open spec fn view(&self) -> EventTypeDefinitionView {
        EventTypeDefinitionView {
            type_ref: self.type_ref@,
            field_keys: self.payload_fields.keys(),
            fields: viewed_values(self.payload_fields.values()),
        }
    }
}

impl Clone for EventTypeDefinition {
    fn clone(&self) -> (r: Self)
        ensures
            r@ == self@,
    {
        let fields = self.payload_fields.clone();
        proof {
            self.payload_fields.lemma_shape();
            fields.lemma_shape();
            assert(viewed_values(fields.values()) =~= viewed_values(self.payload_fields.values()));
        }
        EventTypeDefinition { type_ref: self.type_ref.clone(), payload_fields: fields }
    }
}

impl EventTypeDefinition {
    /// Creates an Event Type definition.
    pub fn new(type_ref: EventTypeRef, payload_fields: OrdMap<String, PayloadFieldDefinition>) -> (r: Self)
        ensures
            r.type_ref@ == type_ref@,
            r.payload_fields == payload_fields,
    {
        EventTypeDefinition { type_ref, payload_fields }
    }
}

/// Abstract contents of an Event record.
pub struct EventRecordView {
    pub id: Seq<char>,
    pub event_type: EventTypeRefView,
    pub append_sequence: u64,
    pub occurred_at: Seq<char>,
    pub recorded_at: Seq<char>,
    pub source: Seq<char>,
    pub object_refs: Set<Seq<char>>,
    pub payload: Map<Seq<char>, PropertyValueView>,
    pub correlation_id: Option<Seq<char>>,
    pub causation_id: Option<Seq<char>>,
}

/// The payload of a record as a map from field name to value.
pub open spec fn payload_view(payload: OrdMap<String, PropertyValue>) -> Map<Seq<char>, PropertyValueView> {
    payload.as_map().map_values(|v: PropertyValue| v@)
}

/// An optional token by its characters.
pub open spec fn correlation_view(c: Option<CorrelationId>) -> Option<Seq<char>> {
    match c {
        Some(v) => Some(v@),
        None => None,
    }
}

/// An optional token by its characters.
pub open spec fn causation_view(c: Option<CausationId>) -> Option<Seq<char>> {
    match c {
        Some(v) => Some(v@),
        None => None,
    }
}

/// Immutable Event record stored in the Business Event Log.
#[derive(Debug)]
pub struct EventRecord {
    /// Event identity.
    pub id: EventId,
    /// Event Type name/version this record was validated against.
    pub event_type: EventTypeRef,
    /// Strict append-order marker assigned by the Event Engine.
    pub append_sequence: AppendSequence,
    /// Caller-supplied timestamp describing when the fact happened.
    pub occurred_at: EventTimestamp,
    /// Caller-supplied timestamp describing when the Runtime accepted the Event.
    pub recorded_at: EventTimestamp,
    /// Caller-supplied opaque source reference.
    pub source: EventSource,
    /// Opaque Object references the fact concerns, without existence checks.
    pub object_refs: OrdSet<ObjectId>,
    /// Immutable payload values keyed by language-neutral field name.
    pub payload: OrdMap<String, PropertyValue>,
    /// Optional opaque correlation reference.
    pub correlation_id: Option<CorrelationId>,
    /// Optional opaque causation reference.
    pub causation_id: Option<CausationId>,
}

impl View for EventRecord {
    type V = EventRecordView;

    open spec fn view(&self) -> EventRecordView {
        EventRecordView {
            id: self.id@,
            event_type: self.event_type@,
            append_sequence: self.append_sequence@,
            occurred_at: self.occurred_at@,
            recorded_at: self.recorded_at@,
            source: self.source@,
            object_refs: self.object_refs.as_set(),
            payload: payload_view(self.payload),
            correlation_id: correlation_view(self.correlation_id),
            causation_id: causation_view(self.causation_id),
        }
    }
}

/// Copies an ordered map of values, keeping every key and value.
pub fn copy_values(m: &OrdMap<String, PropertyValue>) -> (r: OrdMap<String, PropertyValue>)
    ensures
        payload_view(r) == payload_view(*m),
        r.keys() == m.keys(),
{
    let r = m.clone();
    proof {
        m.lemma_shape();
        r.lemma_shape();
        assert forall|k: Seq<char>| #[trigger] r.as_map().contains_key(k) implies r.as_map()[k]@
            == m.as_map()[k]@ by {
            let i = r.keys().index_of(k);
            r.lemma_value_at(i);
            m.lemma_value_at(i);
        }
        assert(payload_view(r) =~= payload_view(*m));
    }
    r
}

impl Clone for EventRecord {
    fn clone(&self) -> (r: Self)
        ensures
            r@ == self@,
    {
        let correlation_id = match &self.correlation_id {
            Some(c) => Some(c.clone()),
            None => None,
        };
        let causation_id = match &self.causation_id {
            Some(c) => Some(c.clone()),
            None => None,
        };
        EventRecord {
            id: self.id.clone(),
            event_type: self.event_type.clone(),
            append_sequence: self.append_sequence,
            occurred_at: self.occurred_at.clone(),
            recorded_at: self.recorded_at.clone(),
            source: self.source.clone(),
            object_refs: self.object_refs.copy(),
            payload: copy_values(&self.payload),
            correlation_id,
            causation_id,
        }
    }
}

impl EventRecord {
    /// Creates a full immutable Event record.
    pub fn new(
        id: EventId,
        event_type: EventTypeRef,
        append_sequence: AppendSequence,
        occurred_at: EventTimestamp,
        recorded_at: EventTimestamp,
        source: EventSource,
        object_refs: OrdSet<ObjectId>,
        payload: OrdMap<String, PropertyValue>,
        correlation_id: Option<CorrelationId>,
        causation_id: Option<CausationId>,
    ) -> (r: Self)
        ensures
            r@ == (EventRecordView {
                id: id@,
                event_type: event_type@,
                append_sequence: append_sequence@,
                occurred_at: occurred_at@,
                recorded_at: recorded_at@,
                source: source@,
                object_refs: object_refs.as_set(),
                payload: payload_view(payload),
                correlation_id: correlation_view(correlation_id),
                causation_id: causation_view(causation_id),
            }),
    {
        EventRecord {
            id,
            event_type,
            append_sequence,
            occurred_at,
            recorded_at,
            source,
            object_refs,
            payload,
            correlation_id,
            causation_id,
        }
    }
}

} // verus!

verus! {

impl OrderedKey for EventTypeRef {
    type KeyView = EventTypeRefView;

    open spec fn key_view(&self) -> EventTypeRefView {
        self@
    }

    open spec fn view_lt(a: EventTypeRefView, b: EventTypeRefView) -> bool {
        chars_lt(a.name, b.name) || (a.name == b.name && a.version < b.version)
    }

    proof fn lemma_view_lt_irreflexive(a: EventTypeRefView) {
        lemma_chars_lt_irreflexive(a.name);
    }

    proof fn lemma_view_lt_transitive(a: EventTypeRefView, b: EventTypeRefView, c: EventTypeRefView) {
        lemma_chars_lt_irreflexive(a.name);
        if chars_lt(a.name, b.name) && chars_lt(b.name, c.name) {
            lemma_chars_lt_transitive(a.name, b.name, c.name);
        }
    }

    proof fn lemma_view_lt_total(a: EventTypeRefView, b: EventTypeRefView) {
        lemma_chars_lt_total(a.name, b.name);
    }

    fn compare_key(&self, other: &Self) -> (r: KeyOrder) {
        proof {
            lemma_chars_lt_irreflexive(self.name@);
            lemma_chars_lt_total(self.name@, other.name@);
            if chars_lt(self.name@, other.name@) && chars_lt(other.name@, self.name@) {
                lemma_chars_lt_transitive(self.name@, other.name@, self.name@);
            }
        }
        match compare_chars(self.name.as_str(), other.name.as_str()) {
            KeyOrder::Equal => if self.version < other.version {
                KeyOrder::Less
            } else if self.version == other.version {
                KeyOrder::Equal
            } else {
                KeyOrder::Greater
            },
            other_order => other_order,
        }
    }

    fn copy_key(&self) -> (r: Self) {
        self.clone()
    }
}

impl OrderedKey for AppendSequence {
    type KeyView = u64;

    open spec fn key_view(&self) -> u64 {
        self@
    }

    open spec fn view_lt(a: u64, b: u64) -> bool {
        a < b
    }

    proof fn lemma_view_lt_irreflexive(a: u64) {
    }

    proof fn lemma_view_lt_transitive(a: u64, b: u64, c: u64) {
    }

    proof fn lemma_view_lt_total(a: u64, b: u64) {
    }

    fn compare_key(&self, other: &Self) -> (r: KeyOrder) {
        if self.0 < other.0 {
            KeyOrder::Less
        } else if self.0 == other.0 {
            KeyOrder::Equal
        } else {
            KeyOrder::Greater
        }
    }

    fn copy_key(&self) -> (r: Self) {
        *self
    }
}

} // verus!
