//! The Event Engine: the Business Event Log. It registers immutable Event Type
//! metadata, appends validated immutable Events and reads them back by
//! identity or by ascending append sequence, through an abstract storage
//! boundary.
use vstd::prelude::*;
use crate::collections::{OrdMap, OrdSet, OrderedKey, strictly_sorted, lemma_sorted_index_of};
use crate::contracts::{ObjectId, PropertyValue};
use crate::event_errors::{EventEngineError, EventEngineErrorView, MetadataError, MetadataErrorView};
use crate::event_types::{
    causation_view, correlation_view, payload_view, viewed_values, AppendSequence, CausationId,
    CorrelationId, EventId, EventRecord, EventRecordView, EventSource, EventTimestamp,
    EventTypeDefinition, EventTypeDefinitionView, EventTypeRef, EventTypeRefView,
};
use crate::event_validation::{append_request_failure, metadata_failure, validate_append_request, validate_metadata};
use crate::text::string_of;

verus! {

/// Request to append one immutable Event.
#[derive(Debug)]
pub struct AppendEventRequest {
    /// Event Type reference to validate against.
    pub event_type: EventTypeRef,
    /// Payload values keyed by language-neutral field name.
    pub payload: OrdMap<String, PropertyValue>,
    /// Caller-supplied timestamp describing when the fact happened.
    pub occurred_at: EventTimestamp,
    /// Caller-supplied timestamp describing when the Runtime accepted the Event.
    pub recorded_at: EventTimestamp,
    /// Caller-supplied opaque source reference.
    pub source: EventSource,
    /// Opaque Object references the fact concerns, without existence checks.
    pub object_refs: OrdSet<ObjectId>,
    /// Optional opaque correlation reference.
    pub correlation_id: Option<CorrelationId>,
    /// Optional opaque causation reference.
    pub causation_id: Option<CausationId>,
}

/// The record an accepted request becomes under an identity and an append sequence.
pub open spec fn record_of(request: AppendEventRequest, id: Seq<char>, seq: u64) -> EventRecordView {
    EventRecordView {
        id,
        event_type: request.event_type@,
        append_sequence: seq,
        occurred_at: request.occurred_at@,
        recorded_at: request.recorded_at@,
        source: request.source@,
        object_refs: request.object_refs.as_set(),
        payload: payload_view(request.payload),
        correlation_id: correlation_view(request.correlation_id),
        causation_id: causation_view(request.causation_id),
    }
}

/// Result returned by a successful Event append operation.
#[derive(Debug)]
pub struct AppendEventResult {
    /// Newly assigned Event identifier.
    pub event_id: EventId,
    /// Newly assigned append sequence.
    pub append_sequence: AppendSequence,
    /// Full newly stored Event record.
    pub record: EventRecord,
}

/// Bounded sequential read result.
#[derive(Debug)]
pub struct EventRange {
    /// Events read in ascending Append Sequence order.
    pub events: Vec<EventRecord>,
    /// Continuation point for the next range read, when at least one Event was returned.
    pub next_start: Option<AppendSequence>,
}

/// Some stored Event carries the identity `id`.
pub open spec fn has_event_id(events: Map<u64, EventRecordView>, id: Seq<char>) -> bool {
    exists|s: u64| #[trigger] events.contains_key(s) && events[s].id == id
}

/// `out` is the range read from `start`: the stored Events whose append
/// sequence is at least `start`, in ascending order, the first `max` of them.
pub open spec fn is_sequence_range(
    events: Map<u64, EventRecordView>,
    start: u64,
    max: usize,
    out: Seq<EventRecordView>,
) -> bool {
    &&& out.len() <= max
    &&& forall|i: int|
        0 <= i < out.len() ==> {
            &&& events.contains_key(#[trigger] out[i].append_sequence)
            &&& events[out[i].append_sequence] == out[i]
            &&& out[i].append_sequence >= start
        }
    &&& forall|i: int, j: int|
        0 <= i < j < out.len() ==> #[trigger] out[i].append_sequence < #[trigger] out[j].append_sequence
    &&& forall|s: u64|
        #[trigger] events.contains_key(s) && s >= start && (out.len() < max || (out.len() > 0 && s
            <= out.last().append_sequence))
            ==> exists|i: int| 0 <= i < out.len() && #[trigger] out[i].append_sequence == s
}

/// Abstract append-only persistence boundary used by the Event Engine.
///
/// Implementations may use any backing store as long as they keep this
/// contract: stored Event Type definitions by reference, and stored Events by
/// append sequence.
pub trait StorageProvider {
    /// The stored Event Type definitions, by reference.
    spec fn stored_types(&self) -> Map<EventTypeRefView, EventTypeDefinitionView>;

    /// The stored Events, by append sequence.
    spec fn stored_events(&self) -> Map<u64, EventRecordView>;

    /// Retrieves an Event Type definition by exact name/version reference.
    fn get_type(&self, event_type: &EventTypeRef) -> (r: Result<Option<EventTypeDefinition>, EventEngineError>)
        ensures
            r matches Ok(found) ==> (found is Some <==> self.stored_types().contains_key(event_type@)),
            r matches Ok(Some(d)) ==> d@ == self.stored_types()[event_type@],
    ;

    /// Stores a new immutable Event Type schema version.
    fn insert_type(&mut self, definition: EventTypeDefinition) -> (r: Result<(), EventEngineError>)
        ensures
            r is Ok ==> final(self).stored_types() == old(self).stored_types().insert(
                definition.type_ref@,
                definition@,
            ),
            r is Err ==> final(self).stored_types() == old(self).stored_types(),
            final(self).stored_events() == old(self).stored_events(),
    ;

    /// Retrieves an Event record by identity.
    fn get_event(&self, event_id: &EventId) -> (r: Result<Option<EventRecord>, EventEngineError>)
        ensures
            r matches Ok(found) ==> (found is Some <==> has_event_id(self.stored_events(), event_id@)),
            r matches Ok(Some(record)) ==> record@.id == event_id@ && self.stored_events().contains_key(
                record@.append_sequence,
            ) && self.stored_events()[record@.append_sequence] == record@,
    ;

    /// Reports whether an Event identity exists.
    fn event_exists(&self, event_id: &EventId) -> (r: Result<bool, EventEngineError>)
        ensures
            r matches Ok(b) ==> b == has_event_id(self.stored_events(), event_id@),
    ;

    /// Appends a new Event record and rejects duplicate identities or append sequences.
    fn append_event(&mut self, record: EventRecord) -> (r: Result<(), EventEngineError>)
        ensures
            r is Ok ==> {
                &&& !old(self).stored_events().contains_key(record@.append_sequence)
                &&& !has_event_id(old(self).stored_events(), record@.id)
                &&& final(self).stored_events() == old(self).stored_events().insert(
                    record@.append_sequence,
                    record@,
                )
            },
            r is Err ==> final(self).stored_events() == old(self).stored_events(),
            final(self).stored_types() == old(self).stored_types(),
    ;

    /// Reads Events in ascending Append Sequence order, starting at `start`.
    fn read_sequence_range(&self, start: AppendSequence, max: usize) -> (r: Result<Vec<EventRecord>, EventEngineError>)
        ensures
            r matches Ok(v) ==> is_sequence_range(self.stored_events(), start@, max, viewed_values(v@)),
    ;
}

/// The answer to an Event Type lookup, given the storage provider's answer:
/// the definition it found, `EventTypeNotFound` when it found none, or its
/// own failure.
pub fn event_type_lookup(
    event_type: &EventTypeRef,
    answer: Result<Option<EventTypeDefinition>, EventEngineError>,
) -> (r: Result<EventTypeDefinition, EventEngineError>)
    ensures
        match answer {
            Ok(Some(d)) => r == Ok::<EventTypeDefinition, EventEngineError>(d),
            Ok(None) => r matches Err(e) && e@ == (EventEngineErrorView::EventTypeNotFound { event_type: event_type@ }),
            Err(e) => r == Err::<EventTypeDefinition, EventEngineError>(e),
        },
{
    match answer {
        Err(e) => Err(e),
        Ok(Some(d)) => Ok(d),
        Ok(None) => Err(EventEngineError::EventTypeNotFound { event_type: event_type.clone() }),
    }
}

/// The identity a new Event gets, given the storage provider's answer to
/// whether the generated identity is taken: the identity when it is free,
/// `DuplicateIdentity` when it is taken, or the provider's own failure.
pub fn fresh_event_identity(event_id: EventId, answer: Result<bool, EventEngineError>) -> (r: Result<EventId, EventEngineError>)
    ensures
        match answer {
            Ok(false) => r == Ok::<EventId, EventEngineError>(event_id),
            Ok(true) => r matches Err(e) && e@ == (EventEngineErrorView::DuplicateIdentity { event_id: event_id@ }),
            Err(e) => r == Err::<EventId, EventEngineError>(e),
        },
{
    match answer {
        Err(e) => Err(e),
        Ok(true) => Err(EventEngineError::DuplicateIdentity { event_id }),
        Ok(false) => Ok(event_id),
    }
}

/// The answer to an Event read, given the storage provider's answer: the
/// record it found, `EventNotFound` when it found none, or its own failure.
pub fn event_lookup(event_id: &EventId, answer: Result<Option<EventRecord>, EventEngineError>) -> (r: Result<
    EventRecord,
    EventEngineError,
>)
    ensures
        match answer {
            Ok(Some(d)) => r == Ok::<EventRecord, EventEngineError>(d),
            Ok(None) => r matches Err(e) && e@ == (EventEngineErrorView::EventNotFound { event_id: event_id@ }),
            Err(e) => r == Err::<EventRecord, EventEngineError>(e),
        },
{
    match answer {
        Err(e) => Err(e),
        Ok(Some(record)) => Ok(record),
        Ok(None) => Err(EventEngineError::EventNotFound { event_id: event_id.clone() }),
    }
}

/// Event identity source used by append operations.
pub trait EventIdGenerator {
    /// Returns the next opaque Event identifier.
    fn next_id(&mut self) -> EventId;
}

/// Append sequence source used by append operations.
pub trait AppendSequenceGenerator {
    /// Returns the next append sequence marker.
    fn next_sequence(&mut self) -> AppendSequence;
}

/// Event Engine facade over a storage provider and identity and sequence sources.
pub struct EventEngine<S: StorageProvider, I: EventIdGenerator, Q: AppendSequenceGenerator> {
    storage: S,
    id_generator: I,
    sequence_generator: Q,
}

impl<S: StorageProvider, I: EventIdGenerator, Q: AppendSequenceGenerator> EventEngine<S, I, Q> {
    /// The registered Event Type definitions, by reference.
    pub closed spec fn event_types(&self) -> Map<EventTypeRefView, EventTypeDefinitionView> {
        self.storage.stored_types()
    }

    /// The appended Events, by append sequence.
    pub closed spec fn events(&self) -> Map<u64, EventRecordView> {
        self.storage.stored_events()
    }

    /// Creates an Event Engine over a storage provider and deterministic sources.
    pub fn new(storage: S, id_generator: I, sequence_generator: Q) -> (r: Self)
        ensures
            r.event_types() == storage.stored_types(),
            r.events() == storage.stored_events(),
    {
        EventEngine { storage, id_generator, sequence_generator }
    }

    /// Registers a new immutable Event Type schema version.
    pub fn register_event_type(&mut self, definition: EventTypeDefinition) -> (r: Result<(), EventEngineError>)
        ensures
            metadata_failure(definition@) is Some ==> (r matches Err(e) && e@
                == (EventEngineErrorView::MalformedMetadata { failure: metadata_failure(definition@).unwrap() })),
            metadata_failure(definition@) is None && old(self).event_types().contains_key(definition.type_ref@)
                ==> r is Err,
            r is Ok ==> final(self).event_types() == old(self).event_types().insert(
                definition.type_ref@,
                definition@,
            ),
            r is Err ==> final(self).event_types() == old(self).event_types(),
            final(self).events() == old(self).events(),
    {
        match validate_metadata(&definition) {
            Err(e) => {
                return Err(e);
            },
            Ok(()) => {},
        }
        match self.storage.get_type(&definition.type_ref) {
            Err(e) => Err(e),
            Ok(Some(_)) => Err(
                EventEngineError::MalformedMetadata {
                    failure: MetadataError::EventTypeAlreadyRegistered { event_type: definition.type_ref },
                },
            ),
            Ok(None) => self.storage.insert_type(definition),
        }
    }

    /// Retrieves a registered Event Type metadata definition by exact name/version.
    pub fn get_event_type(&self, event_type: &EventTypeRef) -> (r: Result<EventTypeDefinition, EventEngineError>)
        ensures
            r matches Ok(d) ==> self.event_types().contains_key(event_type@) && d@ == self.event_types()[event_type@],
            !self.event_types().contains_key(event_type@) ==> (r matches Err(e) && (e@
                == (EventEngineErrorView::EventTypeNotFound { event_type: event_type@ }) || self.type_refusal(
                event_type@,
                e,
            ))),
    {
        let lookup = S::get_type;
        let answer = lookup(&self.storage, event_type);
        proof {
            if answer is Err {
                assert(self.type_refusal(event_type@, answer->Err_0));
            }
        }
        event_type_lookup(event_type, answer)
    }

    /// Appends a new immutable Event after validation.
    ///
    /// The identity and the append sequence come from the engine's sources;
    /// the storage provider rejects a duplicate of either.
    pub fn append_event(&mut self, request: AppendEventRequest) -> (r: Result<AppendEventResult, EventEngineError>)
        ensures
            final(self).event_types() == old(self).event_types(),
            r is Err ==> final(self).events() == old(self).events(),
            !old(self).event_types().contains_key(request.event_type@) ==> (r matches Err(e) && (e@
                == (EventEngineErrorView::EventTypeNotFound { event_type: request.event_type@ }) || old(self).type_refusal(
                request.event_type@,
                e,
            ))),
            old(self).event_types().contains_key(request.event_type@) && append_request_failure(
                old(self).event_types()[request.event_type@],
                request,
            ) is Some ==> (r matches Err(e) && (Some(e@) == append_request_failure(
                old(self).event_types()[request.event_type@],
                request,
            ) || old(self).type_refusal(request.event_type@, e))),
            r matches Ok(res) ==> {
                &&& old(self).event_types().contains_key(request.event_type@)
                &&& append_request_failure(old(self).event_types()[request.event_type@], request) is None
                &&& res.record@ == record_of(request, res.event_id@, res.append_sequence@)
                &&& !old(self).events().contains_key(res.append_sequence@)
                &&& !has_event_id(old(self).events(), res.event_id@)
                &&& final(self).events() == old(self).events().insert(res.append_sequence@, res.record@)
            },
    {
        let lookup = S::get_type;
        let type_answer = lookup(&self.storage, &request.event_type);
        proof {
            if type_answer is Err {
                assert(self.type_refusal(request.event_type@, type_answer->Err_0));
            }
        }
        let definition = match event_type_lookup(&request.event_type, type_answer) {
            Err(e) => {
                return Err(e);
            },
            Ok(d) => d,
        };
        match validate_append_request(&definition, &request) {
            Err(e) => {
                return Err(e);
            },
            Ok(()) => {},
        }
        let candidate = self.id_generator.next_id();
        let answer = self.storage.event_exists(&candidate);
        let event_id = match fresh_event_identity(candidate, answer) {
            Err(e) => {
                return Err(e);
            },
            Ok(id) => id,
        };
        let append_sequence = self.sequence_generator.next_sequence();
        let AppendEventRequest {
            event_type,
            payload,
            occurred_at,
            recorded_at,
            source,
            object_refs,
            correlation_id,
            causation_id,
        } = request;
        let record = EventRecord::new(
            event_id.clone(),
            event_type,
            append_sequence,
            occurred_at,
            recorded_at,
            source,
            object_refs,
            payload,
            correlation_id,
            causation_id,
        );
        match self.storage.append_event(record.clone()) {
            Err(e) => Err(e),
            Ok(()) => Ok(AppendEventResult { event_id, append_sequence, record }),
        }
    }

    /// Reads one immutable Event by identity.
    pub fn read_event(&self, event_id: &EventId) -> (r: Result<EventRecord, EventEngineError>)
        ensures
            r matches Ok(record) ==> record@.id == event_id@ && self.events().contains_key(record@.append_sequence)
                && self.events()[record@.append_sequence] == record@,
            !has_event_id(self.events(), event_id@) ==> (r matches Err(e) && (e@
                == (EventEngineErrorView::EventNotFound { event_id: event_id@ }) || self.read_refusal(event_id@, e))),
    {
        let read = S::get_event;
        let answer = read(&self.storage, event_id);
        proof {
            if answer is Err {
                assert(self.read_refusal(event_id@, answer->Err_0));
            }
        }
        event_lookup(event_id, answer)
    }

    /// The storage provider may answer a lookup of the Event Type `t` with
    /// the failure `e`.
    pub closed spec fn type_refusal(&self, t: EventTypeRefView, e: EventEngineError) -> bool {
        exists|type_ref: EventTypeRef|
            #![trigger call_ensures(S::get_type, (&self.storage, &type_ref), Err::<Option<EventTypeDefinition>, EventEngineError>(e))]
            type_ref@ == t && call_ensures(
                S::get_type,
                (&self.storage, &type_ref),
                Err::<Option<EventTypeDefinition>, EventEngineError>(e),
            )
    }

    /// The storage provider may answer a read of the Event `id` with the
    /// failure `e`.
    pub closed spec fn read_refusal(&self, id: Seq<char>, e: EventEngineError) -> bool {
        exists|event_id: EventId|
            #![trigger call_ensures(S::get_event, (&self.storage, &event_id), Err::<Option<EventRecord>, EventEngineError>(e))]
            event_id@ == id && call_ensures(
                S::get_event,
                (&self.storage, &event_id),
                Err::<Option<EventRecord>, EventEngineError>(e),
            )
    }

    /// The storage provider may answer a range read from `start` of at most
    /// `max` Events with the failure `e`.
    pub closed spec fn range_refusal(&self, start: u64, max: usize, e: EventEngineError) -> bool {
        exists|from: AppendSequence|
            #![trigger call_ensures(S::read_sequence_range, (&self.storage, from, max), Err::<Vec<EventRecord>, EventEngineError>(e))]
            from@ == start && call_ensures(
                S::read_sequence_range,
                (&self.storage, from, max),
                Err::<Vec<EventRecord>, EventEngineError>(e),
            )
    }

    /// Reads a bounded sequence range in strictly ascending Append Sequence order.
    pub fn read_sequence_range(&self, start: AppendSequence, max: usize) -> (r: Result<EventRange, EventEngineError>)
        requires
            forall|s: u64| #[trigger] self.events().contains_key(s) ==> s < u64::MAX,
        ensures
            start@ == 0 || max == 0 ==> (r matches Err(e) && e@ == (EventEngineErrorView::InvalidAppendSequenceRange {
                start: start@,
                max,
                reason: "start must be non-zero and max must be greater than zero"@,
            })),
            start@ > 0 && max > 0 ==> (r is Ok || (r matches Err(e) && self.range_refusal(start@, max, e))),
            r matches Ok(range) ==> {
                &&& start@ > 0 && max > 0
                &&& is_sequence_range(self.events(), start@, max, viewed_values(range.events@))
                &&& match range.next_start {
                    None => range.events@.len() == 0,
                    Some(n) => range.events@.len() > 0 && n@ == range.events@.last()@.append_sequence + 1,
                }
            },
    {
        if start.is_zero() || max == 0 {
            return Err(
                EventEngineError::InvalidAppendSequenceRange {
                    start,
                    max,
                    reason: string_of("start must be non-zero and max must be greater than zero"),
                },
            );
        }
        let read = S::read_sequence_range;
        let answer = read(&self.storage, start, max);
        match answer {
            Err(e) => {
                proof {
                    assert(call_ensures(S::read_sequence_range, (&self.storage, start, max), Err::<Vec<EventRecord>, EventEngineError>(e)));
                }
                Err(e)
            },
            Ok(events) => {
                let n = events.len();
                let next_start = if n == 0 {
                    None
                } else {
                    proof {
                        let out = viewed_values(events@);
                        assert(out[n - 1] == events@[n - 1]@);
                        assert(self.events().contains_key(out[n - 1].append_sequence));
                    }
                    Some(events[n - 1].append_sequence.next())
                };
                Ok(EventRange { events, next_start })
            },
        }
    }
}

/// In-memory storage provider: Event Type definitions by reference and Events
/// by append sequence, each kept in ascending key order.
pub struct MemoryEventStorage {
    types: OrdMap<EventTypeRef, EventTypeDefinition>,
    events: OrdMap<AppendSequence, EventRecord>,
}

impl MemoryEventStorage {
    #[verifier::type_invariant]
    closed spec fn keyed_by_sequence(&self) -> bool {
        forall|s: u64| #[trigger] self.events.as_map().contains_key(s) ==> self.events.as_map()[s]@.append_sequence == s
    }

    /// Creates an empty store.
    pub fn new() -> (r: Self)
        ensures
            r.stored_types() == Map::<EventTypeRefView, EventTypeDefinitionView>::empty(),
            r.stored_events() == Map::<u64, EventRecordView>::empty(),
    {
        let r = MemoryEventStorage { types: OrdMap::new(), events: OrdMap::new() };
        assert(r.stored_types() =~= Map::<EventTypeRefView, EventTypeDefinitionView>::empty());
        assert(r.stored_events() =~= Map::<u64, EventRecordView>::empty());
        r
    }

    /// Returns how many Events are stored.
    pub fn event_count(&self) -> (r: usize)
        ensures
            r == self.stored_events().len(),
    {
        proof {
            self.events.lemma_len();
            assert(self.stored_events().dom() =~= self.events.as_map().dom());
        }
        self.events.len()
    }

    /// Position of the stored Event with identity `id`, if any.
    fn find_event(&self, event_id: &EventId) -> (r: Option<usize>)
        ensures
            r is Some <==> has_event_id(self.stored_events(), event_id@),
            r matches Some(i) ==> i < self.events.keys().len() && self.events.values()[i as int]@.id == event_id@
                && self.stored_events().contains_key(self.events.keys()[i as int])
                && self.stored_events()[self.events.keys()[i as int]] == self.events.values()[i as int]@,
    {
        proof {
            use_type_invariant(self);
            self.events.lemma_shape();
        }
        let n = self.events.len();
        let mut i: usize = 0;
        while i < n
            invariant
                n == self.events.keys().len(),
                self.events.keys().len() == self.events.values().len(),
                i <= n,
                forall|j: int| 0 <= j < i ==> (#[trigger] self.events.values()[j])@.id != event_id@,
            decreases n - i,
        {
            let record = self.events.value_at(i);
            if crate::text::str_eq(record.id.as_str(), event_id.as_str()) {
                proof {
                    self.events.lemma_value_at(i as int);
                    let s = self.events.keys()[i as int];
                    assert(self.stored_events().contains_key(s));
                }
                return Some(i);
            }
            i = i + 1;
        }
        proof {
            if has_event_id(self.stored_events(), event_id@) {
                let s = choose|s: u64| #[trigger] self.stored_events().contains_key(s) && self.stored_events()[s].id
                    == event_id@;
                let j = self.events.keys().index_of(s);
                self.events.lemma_value_at(j);
                assert(self.events.values()[j]@.id != event_id@);
            }
        }
        None
    }
}

impl StorageProvider for MemoryEventStorage {
    closed spec fn stored_types(&self) -> Map<EventTypeRefView, EventTypeDefinitionView> {
        self.types.as_map().map_values(|d: EventTypeDefinition| d@)
    }

    closed spec fn stored_events(&self) -> Map<u64, EventRecordView> {
        self.events.as_map().map_values(|e: EventRecord| e@)
    }

    fn get_type(&self, event_type: &EventTypeRef) -> (r: Result<Option<EventTypeDefinition>, EventEngineError>)
        ensures
            r is Ok,
    {
        match self.types.get(event_type) {
            Some(d) => Ok(Some(d.clone())),
            None => Ok(None),
        }
    }

    fn insert_type(&mut self, definition: EventTypeDefinition) -> (r: Result<(), EventEngineError>)
        ensures
            r is Ok,
    {
        proof {
            use_type_invariant(&*self);
        }
        let key = definition.type_ref.clone();
        let ghost dv = definition@;
        let mut types = OrdMap::new();
        std::mem::swap(&mut types, &mut self.types);
        types.insert(key, definition);
        self.types = types;
        assert(self.stored_types() =~= old(self).stored_types().insert(dv.type_ref, dv));
        Ok(())
    }

    fn get_event(&self, event_id: &EventId) -> (r: Result<Option<EventRecord>, EventEngineError>)
        ensures
            r is Ok,
    {
        match self.find_event(event_id) {
            Some(i) => {
                proof {
                    use_type_invariant(self);
                    self.events.lemma_value_at(i as int);
                }
                Ok(Some(self.events.value_at(i).clone()))
            },
            None => Ok(None),
        }
    }

    fn event_exists(&self, event_id: &EventId) -> (r: Result<bool, EventEngineError>)
        ensures
            r is Ok,
    {
        match self.find_event(event_id) {
            Some(_) => Ok(true),
            None => Ok(false),
        }
    }

    fn append_event(&mut self, record: EventRecord) -> (r: Result<(), EventEngineError>)
        ensures
            r is Ok <==> !has_event_id(old(self).stored_events(), record@.id) && !old(self).stored_events().contains_key(
                record@.append_sequence,
            ),
            r matches Err(e) ==> if has_event_id(old(self).stored_events(), record@.id) {
                e@ == (EventEngineErrorView::DuplicateIdentity { event_id: record@.id })
            } else {
                e@ == (EventEngineErrorView::AppendSequenceConflict { append_sequence: record@.append_sequence })
            },
    {
        proof {
            use_type_invariant(&*self);
        }
        match self.find_event(&record.id) {
            Some(_) => {
                return Err(EventEngineError::DuplicateIdentity { event_id: record.id.clone() });
            },
            None => {},
        }
        if self.events.contains_key(&record.append_sequence) {
            return Err(EventEngineError::AppendSequenceConflict { append_sequence: record.append_sequence });
        }
        let ghost rv = record@;
        let key = record.append_sequence;
        let mut events = OrdMap::new();
        std::mem::swap(&mut events, &mut self.events);
        events.insert(key, record);
        assert forall|s: u64| #[trigger] events.as_map().contains_key(s) implies events.as_map()[s]@.append_sequence == s by {
            if s != rv.append_sequence {
                assert(old(self).events.as_map().contains_key(s));
            }
        }
        self.events = events;
        assert(self.stored_events() =~= old(self).stored_events().insert(rv.append_sequence, rv));
        Ok(())
    }

    fn read_sequence_range(&self, start: AppendSequence, max: usize) -> (r: Result<Vec<EventRecord>, EventEngineError>)
        ensures
            r is Ok,
    {
        proof {
            use_type_invariant(self);
            self.events.lemma_shape();
        }
        let ghost keys = self.events.keys();
        let n = self.events.len();
        let p = self.events.lower_bound(&start);
        let end = if max <= n - p {
            p + max
        } else {
            n
        };
        let mut out: Vec<EventRecord> = Vec::new();
        let mut i: usize = p;
        while i < end
            invariant
                keys == self.events.keys(),
                n == keys.len(),
                keys.len() == self.events.values().len(),
                strictly_sorted::<AppendSequence>(keys),
                p <= i <= end <= n,
                out@.len() == i - p,
                forall|j: int| 0 <= j < out@.len() ==> (#[trigger] out@[j])@ == self.events.values()[p + j]@,
            decreases end - i,
        {
            out.push(self.events.value_at(i).clone());
            i = i + 1;
        }
        proof {
            let ov = viewed_values(out@);
            let m = self.stored_events();
            assert forall|j: int| 0 <= j < ov.len() implies m.contains_key(#[trigger] ov[j].append_sequence)
                && m[ov[j].append_sequence] == ov[j] && ov[j].append_sequence >= start@ by {
                self.events.lemma_value_at(p + j);
                assert(ov[j] == self.events.values()[p + j]@);
                let k = keys[p + j];
                assert(m.contains_key(k));
                if j > 0 {
                    assert(AppendSequence::view_lt(keys[p as int], keys[p + j]));
                }
            }
            assert forall|a: int, b: int| 0 <= a < b < ov.len() implies #[trigger] ov[a].append_sequence
                < #[trigger] ov[b].append_sequence by {
                self.events.lemma_value_at(p + a);
                self.events.lemma_value_at(p + b);
                assert(ov[a] == self.events.values()[p + a]@);
                assert(ov[b] == self.events.values()[p + b]@);
                assert(AppendSequence::view_lt(keys[p + a], keys[p + b]));
            }
            assert forall|s: u64| #[trigger] m.contains_key(s) && s >= start@ && (ov.len() < max || (ov.len() > 0 && s
                <= ov.last().append_sequence)) implies exists|j: int| 0 <= j < ov.len() && #[trigger] ov[j].append_sequence
                == s by {
                let q = keys.index_of(s);
                lemma_sorted_index_of::<AppendSequence>(keys, q);
                if q < p {
                    assert(AppendSequence::view_lt(keys[q], start@));
                }
                if q >= end {
                    if ov.len() < max {
                        assert(end == n);
                    } else {
                        self.events.lemma_value_at(end - 1);
                        assert(ov.last() == self.events.values()[end - 1]@);
                        assert(AppendSequence::view_lt(keys[end - 1], keys[q]));
                    }
                }
                self.events.lemma_value_at(q);
                assert(ov[q - p] == self.events.values()[q]@);
            }
        }
        Ok(out)
    }
}

/// No two stored Events share an identity.
pub open spec fn unique_event_ids(events: Map<u64, EventRecordView>) -> bool {
    forall|a: u64, b: u64|
        #[trigger] events.contains_key(a) && #[trigger] events.contains_key(b) && events[a].id == events[b].id ==> a == b
}

/// An append never changes an Event stored before it, and afterwards the
/// appended identity is found at its append sequence only, holding the
/// appended record: reading it back gives what was appended.
pub proof fn law_append_only_and_read_back(
    before: Map<u64, EventRecordView>,
    request: AppendEventRequest,
    id: Seq<char>,
    seq: u64,
)
    requires
        !before.contains_key(seq),
        !has_event_id(before, id),
    ensures
        forall|s: u64| #[trigger] before.contains_key(s) ==> before.insert(seq, record_of(request, id, seq))[s] == before[s],
        has_event_id(before.insert(seq, record_of(request, id, seq)), id),
        forall|s: u64|
            #[trigger] before.insert(seq, record_of(request, id, seq)).contains_key(s) && before.insert(
                seq,
                record_of(request, id, seq),
            )[s].id == id ==> s == seq && before.insert(seq, record_of(request, id, seq))[s] == record_of(request, id, seq),
{
    let after = before.insert(seq, record_of(request, id, seq));
    assert(after.contains_key(seq) && after[seq].id == id);
    assert forall|s: u64| #[trigger] after.contains_key(s) && after[s].id == id implies s == seq && after[s] == record_of(
        request,
        id,
        seq,
    ) by {
        if s != seq {
            assert(before.contains_key(s) && before[s].id == id);
        }
    }
}

/// Appending a fresh identity at a fresh sequence keeps identities unique.
pub proof fn law_append_keeps_identities_unique(
    before: Map<u64, EventRecordView>,
    request: AppendEventRequest,
    id: Seq<char>,
    seq: u64,
)
    requires
        unique_event_ids(before),
        !before.contains_key(seq),
        !has_event_id(before, id),
    ensures
        unique_event_ids(before.insert(seq, record_of(request, id, seq))),
{
    let after = before.insert(seq, record_of(request, id, seq));
    assert forall|a: u64, b: u64|
        #[trigger] after.contains_key(a) && #[trigger] after.contains_key(b) && after[a].id == after[b].id implies a == b by {
        if a != seq && b != seq {
            assert(before.contains_key(a) && before.contains_key(b));
        } else if a == seq && b != seq {
            assert(before.contains_key(b) && before[b].id == id);
        } else if a != seq && b == seq {
            assert(before.contains_key(a) && before[a].id == id);
        }
    }
}

} // verus!
