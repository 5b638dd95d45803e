//! Data contracts of the Process Engine: definitions as immutable directed
//! graphs of nodes, transition requests and outcomes, the reserved Object
//! properties that carry a process state, and the transition Event type.
use vstd::prelude::*;
use crate::collections::{OrdMap, OrdSet, OrderedKey};
use crate::contracts::{ObjectId, PropertyValue, PropertyValueKind, PropertyValueView, UnitOfWork, Version};
use crate::event_types::{EventId, EventTypeDefinition, EventTypeRef, PayloadConstraints, PayloadFieldDefinition};
use crate::text::{chars_lt, compare_chars, lemma_chars_lt_irreflexive, lemma_chars_lt_total, lemma_chars_lt_transitive, KeyOrder};

verus! {

/// Opaque Process Definition identifier.
#[derive(Debug, Eq, PartialEq, Ord, PartialOrd, Hash)]
pub struct ProcessDefinitionId(String);

impl View for ProcessDefinitionId {
    type V = Seq<char>;

    closed spec fn view(&self) -> Seq<char> {
        self.0@
    }
}

impl Clone for ProcessDefinitionId {
    fn clone(&self) -> (r: Self)
        ensures
            r@ == self@,
    {
        ProcessDefinitionId(self.0.clone())
    }
}

impl ProcessDefinitionId {
    /// Creates the token from a caller-supplied value.
    pub fn new(value: &str) -> (r: Self)
        ensures
            r@ == value@,
    {
        ProcessDefinitionId(String::from_str(value))
    }

    /// Returns the stored token without assigning business meaning.
    pub fn as_str(&self) -> (r: &str)
        ensures
            r@ == self@,
    {
        self.0.as_str()
    }

    /// Reports whether the stored token is empty.
    pub fn is_empty(&self) -> (b: bool)
        ensures
            b == (self@.len() == 0),
    {
        self.0.as_str().is_empty()
    }

    /// Returns the token as an owned string, as its display form.
    pub fn to_string(&self) -> (r: String)
        ensures
            r@ == self@,
    {
        self.0.clone()
    }
}

/// Opaque Process node identifier scoped to one Process Definition.
#[derive(Debug, Eq, PartialEq, Ord, PartialOrd, Hash)]
pub struct ProcessNodeId(String);

impl View for ProcessNodeId {
    type V = Seq<char>;

    closed spec fn view(&self) -> Seq<char> {
        self.0@
    }
}

impl Clone for ProcessNodeId {
    fn clone(&self) -> (r: Self)
        ensures
            r@ == self@,
    {
        ProcessNodeId(self.0.clone())
    }
}

impl ProcessNodeId {
    /// Creates the token from a caller-supplied value.
    pub fn new(value: &str) -> (r: Self)
        ensures
            r@ == value@,
    {
        ProcessNodeId(String::from_str(value))
    }

    /// Returns the stored token without assigning business meaning.
    pub fn as_str(&self) -> (r: &str)
        ensures
            r@ == self@,
    {
        self.0.as_str()
    }

    /// Reports whether the stored token is empty.
    pub fn is_empty(&self) -> (b: bool)
        ensures
            b == (self@.len() == 0),
    {
        self.0.as_str().is_empty()
    }

    /// Returns the token as an owned string, as its display form.
    pub fn to_string(&self) -> (r: String)
        ensures
            r@ == self@,
    {
        self.0.clone()
    }
}

impl OrderedKey for ProcessNodeId {
    type KeyView = Seq<char>;

    open spec fn key_view(&self) -> Seq<char> {
        self@
    }

    open spec fn view_lt(a: Seq<char>, b: Seq<char>) -> bool {
        chars_lt(a, b)
    }

    proof fn lemma_view_lt_irreflexive(a: Seq<char>) {
        lemma_chars_lt_irreflexive(a);
    }

    proof fn lemma_view_lt_transitive(a: Seq<char>, b: Seq<char>, c: Seq<char>) {
        lemma_chars_lt_transitive(a, b, c);
    }

    proof fn lemma_view_lt_total(a: Seq<char>, b: Seq<char>) {
        lemma_chars_lt_total(a, b);
    }

    fn compare_key(&self, other: &Self) -> (r: KeyOrder) {
        compare_chars(self.0.as_str(), other.0.as_str())
    }

    fn copy_key(&self) -> (r: Self) {
        self.clone()
    }
}

/// Opaque identity of a recorded Transaction.
#[derive(Debug, Eq, PartialEq, Ord, PartialOrd, Hash)]
pub struct TransactionId(String);

impl View for TransactionId {
    type V = Seq<char>;

    closed spec fn view(&self) -> Seq<char> {
        self.0@
    }
}

impl Clone for TransactionId {
    fn clone(&self) -> (r: Self)
        ensures
            r@ == self@,
    {
        TransactionId(self.0.clone())
    }
}

impl TransactionId {
    /// Creates the token from a caller-supplied value.
    pub fn new(value: &str) -> (r: Self)
        ensures
            r@ == value@,
    {
        TransactionId(String::from_str(value))
    }

    /// Returns the stored token without assigning business meaning.
    pub fn as_str(&self) -> (r: &str)
        ensures
            r@ == self@,
    {
        self.0.as_str()
    }

    /// Reports whether the stored token is empty.
    pub fn is_empty(&self) -> (b: bool)
        ensures
            b == (self@.len() == 0),
    {
        self.0.as_str().is_empty()
    }

    /// Returns the token as an owned string, as its display form.
    pub fn to_string(&self) -> (r: String)
        ensures
            r@ == self@,
    {
        self.0.clone()
    }
}

/// Opaque reference to the actor responsible for a change.
#[derive(Debug, Eq, PartialEq, Ord, PartialOrd, Hash)]
pub struct ActorRef(String);

impl View for ActorRef {
    type V = Seq<char>;

    closed spec fn view(&self) -> Seq<char> {
        self.0@
    }
}

impl Clone for ActorRef {
    fn clone(&self) -> (r: Self)
        ensures
            r@ == self@,
    {
        ActorRef(self.0.clone())
    }
}

impl ActorRef {
    /// Creates the token from a caller-supplied value.
    pub fn new(value: &str) -> (r: Self)
        ensures
            r@ == value@,
    {
        ActorRef(String::from_str(value))
    }

    /// Returns the stored token without assigning business meaning.
    pub fn as_str(&self) -> (r: &str)
        ensures
            r@ == self@,
    {
        self.0.as_str()
    }

    /// Reports whether the stored token is empty.
    pub fn is_empty(&self) -> (b: bool)
        ensures
            b == (self@.len() == 0),
    {
        self.0.as_str().is_empty()
    }

    /// Returns the token as an owned string, as its display form.
    pub fn to_string(&self) -> (r: String)
        ensures
            r@ == self@,
    {
        self.0.clone()
    }
}

/// Opaque reference to the device a change was made on.
#[derive(Debug, Eq, PartialEq, Ord, PartialOrd, Hash)]
pub struct DeviceRef(String);

impl View for DeviceRef {
    type V = Seq<char>;

    closed spec fn view(&self) -> Seq<char> {
        self.0@
    }
}

impl Clone for DeviceRef {
    fn clone(&self) -> (r: Self)
        ensures
            r@ == self@,
    {
        DeviceRef(self.0.clone())
    }
}

impl DeviceRef {
    /// Creates the token from a caller-supplied value.
    pub fn new(value: &str) -> (r: Self)
        ensures
            r@ == value@,
    {
        DeviceRef(String::from_str(value))
    }

    /// Returns the stored token without assigning business meaning.
    pub fn as_str(&self) -> (r: &str)
        ensures
            r@ == self@,
    {
        self.0.as_str()
    }

    /// Reports whether the stored token is empty.
    pub fn is_empty(&self) -> (b: bool)
        ensures
            b == (self@.len() == 0),
    {
        self.0.as_str().is_empty()
    }

    /// Returns the token as an owned string, as its display form.
    pub fn to_string(&self) -> (r: String)
        ensures
            r@ == self@,
    {
        self.0.clone()
    }
}

/// Opaque reference to the site a change was made at.
#[derive(Debug, Eq, PartialEq, Ord, PartialOrd, Hash)]
pub struct SiteRef(String);

impl View for SiteRef {
    type V = Seq<char>;

    closed spec fn view(&self) -> Seq<char> {
        self.0@
    }
}

impl Clone for SiteRef {
    fn clone(&self) -> (r: Self)
        ensures
            r@ == self@,
    {
        SiteRef(self.0.clone())
    }
}

impl SiteRef {
    /// Creates the token from a caller-supplied value.
    pub fn new(value: &str) -> (r: Self)
        ensures
            r@ == value@,
    {
        SiteRef(String::from_str(value))
    }

    /// Returns the stored token without assigning business meaning.
    pub fn as_str(&self) -> (r: &str)
        ensures
            r@ == self@,
    {
        self.0.as_str()
    }

    /// Reports whether the stored token is empty.
    pub fn is_empty(&self) -> (b: bool)
        ensures
            b == (self@.len() == 0),
    {
        self.0.as_str().is_empty()
    }

    /// Returns the token as an owned string, as its display form.
    pub fn to_string(&self) -> (r: String)
        ensures
            r@ == self@,
    {
        self.0.clone()
    }
}

/// Caller-supplied timestamp token of a Transaction.
#[derive(Debug, Eq, PartialEq, Ord, PartialOrd, Hash)]
pub struct TransactionTimestamp(String);

impl View for TransactionTimestamp {
    type V = Seq<char>;

    closed spec fn view(&self) -> Seq<char> {
        self.0@
    }
}

impl Clone for TransactionTimestamp {
    fn clone(&self) -> (r: Self)
        ensures
            r@ == self@,
    {
        TransactionTimestamp(self.0.clone())
    }
}

impl TransactionTimestamp {
    /// Creates the token from a caller-supplied value.
    pub fn new(value: &str) -> (r: Self)
        ensures
            r@ == value@,
    {
        TransactionTimestamp(String::from_str(value))
    }

    /// Returns the stored token without assigning business meaning.
    pub fn as_str(&self) -> (r: &str)
        ensures
            r@ == self@,
    {
        self.0.as_str()
    }

    /// Reports whether the stored token is empty.
    pub fn is_empty(&self) -> (b: bool)
        ensures
            b == (self@.len() == 0),
    {
        self.0.as_str().is_empty()
    }

    /// Returns the token as an owned string, as its display form.
    pub fn to_string(&self) -> (r: String)
        ensures
            r@ == self@,
    {
        self.0.clone()
    }
}

/// Abstract contents of a transition.
pub struct ProcessTransitionView {
    pub from: Seq<char>,
    pub to: Seq<char>,
    pub name: Seq<char>,
}

/// Directed graph edge between two Process nodes.
#[derive(Debug, Eq, PartialEq, Ord, PartialOrd)]
pub struct ProcessTransition {
    /// Source node.
    pub from: ProcessNodeId,
    /// Target node.
    pub to: ProcessNodeId,
    /// Language-neutral transition name.
    pub name: String,
}

impl View for ProcessTransition {
    type V = ProcessTransitionView;

    open spec fn view(&self) -> ProcessTransitionView {
        ProcessTransitionView { from: self.from@, to: self.to@, name: self.name@ }
    }
}

impl Clone for ProcessTransition {
    fn clone(&self) -> (r: Self)
        ensures
            r@ == self@,
    {
        ProcessTransition { from: self.from.clone(), to: self.to.clone(), name: self.name.clone() }
    }
}

impl ProcessTransition {
    /// Creates one directed Process transition.
    pub fn new(from: ProcessNodeId, to: ProcessNodeId, name: &str) -> (r: Self)
        ensures
            r@ == (ProcessTransitionView { from: from@, to: to@, name: name@ }),
    {
        ProcessTransition { from, to, name: String::from_str(name) }
    }
}

/// The views of transitions.
pub open spec fn transition_views(s: Seq<ProcessTransition>) -> Seq<ProcessTransitionView> {
    s.map_values(|t: ProcessTransition| t@)
}

/// Abstract contents of a Process Definition.
pub struct ProcessDefinitionView {
    pub id: Seq<char>,
    pub schema_version: u64,
    pub nodes: Seq<Seq<char>>,
    pub transitions: Seq<ProcessTransitionView>,
    pub entry_nodes: Seq<Seq<char>>,
}

/// Immutable Process Definition graph for one schema version.
#[derive(Debug)]
pub struct ProcessDefinition {
    /// Stable Process Definition identifier.
    pub id: ProcessDefinitionId,
    /// Definition schema version.
    pub schema_version: Version,
    /// Nodes available in this definition version.
    pub nodes: OrdSet<ProcessNodeId>,
    /// Directed transitions allowed by this definition version.
    pub transitions: Vec<ProcessTransition>,
    /// Nodes that may start this process on an Object with no current-node value.
    pub entry_nodes: OrdSet<ProcessNodeId>,
}

impl View for ProcessDefinition {
    type V = ProcessDefinitionView;

    open spec fn view(&self) -> ProcessDefinitionView {
        ProcessDefinitionView {
            id: self.id@,
            schema_version: self.schema_version@,
            nodes: self.nodes.keys(),
            transitions: transition_views(self.transitions@),
            entry_nodes: self.entry_nodes.keys(),
        }
    }
}

impl Clone for ProcessDefinition {
    fn clone(&self) -> (r: Self)
        ensures
            r@ == self@,
    {
        let mut transitions: Vec<ProcessTransition> = Vec::new();
        let n = self.transitions.len();
        let mut i: usize = 0;
        while i < n
            invariant
                n == self.transitions@.len(),
                i <= n,
                transitions@.len() == i,
                forall|k: int| 0 <= k < i ==> (#[trigger] transitions@[k])@ == self.transitions@[k]@,
            decreases n - i,
        {
            transitions.push(self.transitions[i].clone());
            i = i + 1;
        }
        assert(transition_views(transitions@) =~= transition_views(self.transitions@));
        ProcessDefinition {
            id: self.id.clone(),
            schema_version: self.schema_version,
            nodes: self.nodes.copy(),
            transitions,
            entry_nodes: self.entry_nodes.copy(),
        }
    }
}

impl ProcessDefinition {
    /// Creates an immutable Process Definition value.
    pub fn new(
        id: ProcessDefinitionId,
        schema_version: Version,
        nodes: OrdSet<ProcessNodeId>,
        transitions: Vec<ProcessTransition>,
        entry_nodes: OrdSet<ProcessNodeId>,
    ) -> (r: Self)
        ensures
            r.id@ == id@,
            r.schema_version == schema_version,
            r.nodes == nodes,
            r.transitions == transitions,
            r.entry_nodes == entry_nodes,
    {
        ProcessDefinition { id, schema_version, nodes, transitions, entry_nodes }
    }
}

/// Request to record one caller-initiated Process transition.
#[derive(Debug)]
pub struct TransitionRequest {
    /// Object being transitioned.
    pub object_id: ObjectId,
    /// Process Definition identifier to evaluate.
    pub definition_id: ProcessDefinitionId,
    /// Process Definition schema version to evaluate.
    pub schema_version: Version,
    /// Requested target node.
    pub to: ProcessNodeId,
    /// Actor responsible for the transition.
    pub actor: ActorRef,
    /// Device reference supplied for the paired Transaction.
    pub device: DeviceRef,
    /// Optional site reference supplied for the paired Transaction.
    pub site: Option<SiteRef>,
    /// Caller-supplied edit timestamp for the transition.
    pub edit_timestamp: TransactionTimestamp,
    /// Caller-supplied server receipt timestamp.
    pub server_receipt_time: TransactionTimestamp,
    /// Caller-supplied Unit-of-Work handle for the paired writes.
    pub unit_of_work: UnitOfWork,
}

/// Process transition consistency status disclosed to the caller.
#[derive(Clone, Copy, Debug, Eq, PartialEq, Ord, PartialOrd, Hash, Structural)]
pub enum TransitionConsistencyStatus {
    /// Object update, Transaction append, and Event append all completed.
    Complete,
    /// Object update and Transaction append committed, but the Event append failed afterward.
    PartiallyCompleted,
    /// Mutation did not complete before a durable state change.
    FailedBeforeMutation,
}

/// Result returned after a legal Process transition is attempted.
#[derive(Debug)]
pub struct TransitionOutcome {
    /// Object that was transitioned.
    pub object_id: ObjectId,
    /// Process Definition identifier used for the transition.
    pub definition_id: ProcessDefinitionId,
    /// Process Definition schema version used for the transition.
    pub schema_version: Version,
    /// Node observed before the transition, or none for an entry transition.
    pub prior_node: Option<ProcessNodeId>,
    /// Node written by the transition.
    pub new_node: ProcessNodeId,
    /// Transaction identity assigned to the paired Transaction.
    pub transaction_id: TransactionId,
    /// Event identity assigned to the transition Event, when appended.
    pub event_id: Option<EventId>,
    /// Consistency status across the paired writes and the Event append.
    pub consistency_status: TransitionConsistencyStatus,
    /// Recovery guidance when a post-commit Event append failed.
    pub recovery_guidance: Option<String>,
}

/// The reserved property that holds an Object's current node in a process:
/// `process.`, the definition identifier, `.current_node`.
pub open spec fn current_node_key(definition_id: Seq<char>) -> Seq<char> {
    "process."@ + definition_id + ".current_node"@
}

/// The reserved property that holds the last Transaction of an Object's
/// process: `process.`, the definition identifier, `.last_transaction_id`.
pub open spec fn last_transaction_key(definition_id: Seq<char>) -> Seq<char> {
    "process."@ + definition_id + ".last_transaction_id"@
}

/// Returns the reserved current-node property key for a Process Definition.
pub fn current_node_property_key(definition_id: &ProcessDefinitionId) -> (r: String)
    ensures
        r@ == current_node_key(definition_id@),
{
    let mut key = String::from_str("process.");
    key.append(definition_id.as_str());
    key.append(".current_node");
    key
}

/// Returns the reserved last-Transaction chaining property key for a Process Definition.
pub fn last_transaction_property_key(definition_id: &ProcessDefinitionId) -> (r: String)
    ensures
        r@ == last_transaction_key(definition_id@),
{
    let mut key = String::from_str("process.");
    key.append(definition_id.as_str());
    key.append(".last_transaction_id");
    key
}

/// Returns the Event Type reference used for Process transition facts.
pub fn process_transition_event_type_ref() -> (r: EventTypeRef)
    ensures
        r@.name == "process.transitioned"@,
        r@.version == 1,
{
    EventTypeRef::new("process.transitioned", 1)
}

/// A required, unconstrained transition Event field.
pub open spec fn event_field(name: Seq<char>, kind: PropertyValueKind) -> crate::event_types::PayloadFieldDefinitionView {
    crate::event_types::PayloadFieldDefinitionView { name, kind, required: true, constraints: crate::event_types::unconstrained() }
}

/// The fields of the transition Event: text fields for the definition, the
/// two nodes, the transition name and the actor, and a date-time field for
/// the edit timestamp.
pub open spec fn transition_event_fields() -> Map<Seq<char>, crate::event_types::PayloadFieldDefinitionView> {
    map![
        "definition_id"@ => event_field("definition_id"@, PropertyValueKind::Text),
        "from_node"@ => event_field("from_node"@, PropertyValueKind::Text),
        "to_node"@ => event_field("to_node"@, PropertyValueKind::Text),
        "transition_name"@ => event_field("transition_name"@, PropertyValueKind::Text),
        "actor"@ => event_field("actor"@, PropertyValueKind::Text),
        "edit_timestamp"@ => event_field("edit_timestamp"@, PropertyValueKind::DateTime),
    ]
}

fn add_event_field(
    fields: &mut OrdMap<String, PayloadFieldDefinition>,
    name: &str,
    kind: PropertyValueKind,
)
    ensures
        final(fields).as_map().map_values(|f: PayloadFieldDefinition| f@) == old(fields).as_map().map_values(
            |f: PayloadFieldDefinition| f@,
        ).insert(name@, event_field(name@, kind)),
{
    let ghost before = fields.as_map().map_values(|f: PayloadFieldDefinition| f@);
    fields.insert(String::from_str(name), PayloadFieldDefinition::new(name, kind, true, PayloadConstraints::default()));
    assert(fields.as_map().map_values(|f: PayloadFieldDefinition| f@) =~= before.insert(name@, event_field(name@, kind)));
}

/// Returns the Event Type definition expected by Process transition Event appends.
pub fn process_transition_event_type_definition() -> (r: EventTypeDefinition)
    ensures
        r.type_ref@.name == "process.transitioned"@,
        r.type_ref@.version == 1,
        r.payload_fields.as_map().map_values(|f: PayloadFieldDefinition| f@) == transition_event_fields(),
{
    let mut fields: OrdMap<String, PayloadFieldDefinition> = OrdMap::new();
    proof {
        assert(fields.as_map().map_values(|f: PayloadFieldDefinition| f@) =~= Map::empty());
    }
    add_event_field(&mut fields, "definition_id", PropertyValueKind::Text);
    add_event_field(&mut fields, "from_node", PropertyValueKind::Text);
    add_event_field(&mut fields, "to_node", PropertyValueKind::Text);
    add_event_field(&mut fields, "transition_name", PropertyValueKind::Text);
    add_event_field(&mut fields, "actor", PropertyValueKind::Text);
    add_event_field(&mut fields, "edit_timestamp", PropertyValueKind::DateTime);
    EventTypeDefinition::new(process_transition_event_type_ref(), fields)
}

/// The value a node takes in the current-node property.
pub open spec fn node_value(node: Seq<char>) -> PropertyValueView {
    PropertyValueView::EnumValue(node)
}

/// The value recorded as the prior node of an entry transition.
pub open spec fn absent_node() -> PropertyValueView {
    PropertyValueView::Text { value: "not-started"@, language: None }
}

/// Returns the current-node property value of a node.
pub fn process_node_value(node_id: &ProcessNodeId) -> (r: PropertyValue)
    ensures
        r@ == node_value(node_id@),
{
    PropertyValue::EnumValue(node_id.to_string())
}

/// Returns the prior-node value of an entry transition.
pub fn absent_node_value() -> (r: PropertyValue)
    ensures
        r@ == absent_node(),
{
    PropertyValue::Text { value: String::from_str("not-started"), language: None }
}

/// Returns the last-Transaction property value of a Transaction identity.
pub fn transaction_id_value(transaction_id: &TransactionId) -> (r: PropertyValue)
    ensures
        r@ == (PropertyValueView::Text { value: transaction_id@, language: None }),
{
    PropertyValue::Text { value: transaction_id.to_string(), language: None }
}

} // verus!
