//! The demonstration's stores: an in-memory append-only Event store that can
//! be told to refuse its next append, and an in-memory Object store that can
//! be told to refuse its next replace, to show how a failed write is reported.
use vstd::prelude::*;
use crate::event_engine::{is_sequence_range, has_event_id, MemoryEventStorage, StorageProvider};
use crate::event_errors::{EventEngineError, EventEngineErrorView};
use crate::contracts::{ObjectId, Version};
use crate::object_errors::{ObjectRuntimeError, ObjectRuntimeErrorView};
use crate::object_runtime::{MemoryObjectStorage, StorageProvider as ObjectStorage};
use crate::object_types::{
    ObjectRecord, ObjectRecordView, ObjectTypeDefinition, ObjectTypeDefinitionView, ObjectTypeRef, ObjectTypeRefView,
};
use crate::event_types::{
    viewed_values, AppendSequence, EventId, EventRecord, EventRecordView, EventTypeDefinition,
    EventTypeDefinitionView, EventTypeRef, EventTypeRefView,
};

verus! {

/// In-memory Event store with a one-shot append failure switch.
pub struct DemoEventStore {
    inner: MemoryEventStorage,
    fail_next_append: bool,
}

impl DemoEventStore {
    /// Whether the next append is refused.
    pub closed spec fn append_will_fail(&self) -> bool {
        self.fail_next_append
    }

    /// Creates an empty store whose appends succeed.
    pub fn new() -> (r: Self)
        ensures
            r.stored_types() == Map::<EventTypeRefView, EventTypeDefinitionView>::empty(),
            r.stored_events() == Map::<u64, EventRecordView>::empty(),
            !r.append_will_fail(),
    {
        DemoEventStore { inner: MemoryEventStorage::new(), fail_next_append: false }
    }

    /// Makes the next append fail with a storage failure, leaving the log unchanged.
    pub fn fail_next_append(&mut self)
        ensures
            final(self).append_will_fail(),
            final(self).stored_types() == old(self).stored_types(),
            final(self).stored_events() == old(self).stored_events(),
    {
        self.fail_next_append = true;
    }

    /// Returns how many Events are stored.
    pub fn event_count(&self) -> (r: usize)
        ensures
            r == self.stored_events().len(),
    {
        self.inner.event_count()
    }
}

impl Default for DemoEventStore {
    fn default() -> (r: Self)
        ensures
            r.stored_types() == Map::<EventTypeRefView, EventTypeDefinitionView>::empty(),
            r.stored_events() == Map::<u64, EventRecordView>::empty(),
            !r.append_will_fail(),
    {
        Self::new()
    }
}

impl StorageProvider for DemoEventStore {
    closed spec fn stored_types(&self) -> Map<EventTypeRefView, EventTypeDefinitionView> {
        self.inner.stored_types()
    }

    closed spec fn stored_events(&self) -> Map<u64, EventRecordView> {
        self.inner.stored_events()
    }

    fn get_type(&self, event_type: &EventTypeRef) -> (r: Result<Option<EventTypeDefinition>, EventEngineError>)
        ensures
            r is Ok,
    {
        self.inner.get_type(event_type)
    }

    fn insert_type(&mut self, definition: EventTypeDefinition) -> (r: Result<(), EventEngineError>)
        ensures
            r is Ok,
    {
        self.inner.insert_type(definition)
    }

    fn get_event(&self, event_id: &EventId) -> (r: Result<Option<EventRecord>, EventEngineError>)
        ensures
            r is Ok,
    {
        self.inner.get_event(event_id)
    }

    fn event_exists(&self, event_id: &EventId) -> (r: Result<bool, EventEngineError>)
        ensures
            r is Ok,
    {
        self.inner.event_exists(event_id)
    }

    fn append_event(&mut self, record: EventRecord) -> (r: Result<(), EventEngineError>)
        ensures
            old(self).append_will_fail() ==> r is Err && !final(self).append_will_fail(),
            old(self).append_will_fail() ==> (r matches Err(e) && e@ == (EventEngineErrorView::StorageProviderFailure {
                message: "injected event append failure"@,
            })),
            !old(self).append_will_fail() ==> !final(self).append_will_fail() && (r is Ok <==> !has_event_id(
                old(self).stored_events(),
                record@.id,
            ) && !old(self).stored_events().contains_key(record@.append_sequence)),
    {
        if self.fail_next_append {
            self.fail_next_append = false;
            return Err(
                EventEngineError::StorageProviderFailure { message: String::from_str("injected event append failure") },
            );
        }
        self.inner.append_event(record)
    }

    fn read_sequence_range(&self, start: AppendSequence, max: usize) -> (r: Result<Vec<EventRecord>, EventEngineError>)
        ensures
            r is Ok,
    {
        self.inner.read_sequence_range(start, max)
    }
}

/// In-memory Object store with a one-shot replace failure switch.
pub struct DemoObjectStore {
    inner: MemoryObjectStorage,
    fail_next_replace: bool,
}

impl DemoObjectStore {
    /// Whether the next replace is refused.
    pub closed spec fn replace_will_fail(&self) -> bool {
        self.fail_next_replace
    }

    /// Creates an empty store whose writes succeed.
    pub fn new() -> (r: Self)
        ensures
            r.stored_types() == Map::<ObjectTypeRefView, ObjectTypeDefinitionView>::empty(),
            r.stored_objects() == Map::<Seq<char>, ObjectRecordView>::empty(),
            !r.replace_will_fail(),
    {
        DemoObjectStore { inner: MemoryObjectStorage::new(), fail_next_replace: false }
    }

    /// Makes the next replace fail with a storage failure, leaving the Objects unchanged.
    pub fn fail_next_replace(&mut self)
        ensures
            final(self).replace_will_fail(),
            final(self).stored_types() == old(self).stored_types(),
            final(self).stored_objects() == old(self).stored_objects(),
    {
        self.fail_next_replace = true;
    }

    /// Returns how many Objects are stored.
    pub fn object_count(&self) -> (r: usize)
        ensures
            r == self.stored_objects().len(),
    {
        self.inner.object_count()
    }
}

impl Default for DemoObjectStore {
    fn default() -> (r: Self)
        ensures
            r.stored_types() == Map::<ObjectTypeRefView, ObjectTypeDefinitionView>::empty(),
            r.stored_objects() == Map::<Seq<char>, ObjectRecordView>::empty(),
            !r.replace_will_fail(),
    {
        Self::new()
    }
}

impl ObjectStorage for DemoObjectStore {
    closed spec fn stored_types(&self) -> Map<ObjectTypeRefView, ObjectTypeDefinitionView> {
        self.inner.stored_types()
    }

    closed spec fn stored_objects(&self) -> Map<Seq<char>, ObjectRecordView> {
        self.inner.stored_objects()
    }

    fn get_type(&self, object_type: &ObjectTypeRef) -> (r: Result<Option<ObjectTypeDefinition>, ObjectRuntimeError>)
        ensures
            r is Ok,
    {
        self.inner.get_type(object_type)
    }

    fn put_type(&mut self, definition: ObjectTypeDefinition) -> (r: Result<(), ObjectRuntimeError>)
        ensures
            r is Ok,
    {
        self.inner.put_type(definition)
    }

    fn get_object(&self, object_id: &ObjectId) -> (r: Result<Option<ObjectRecord>, ObjectRuntimeError>)
        ensures
            r is Ok,
    {
        self.inner.get_object(object_id)
    }

    fn insert_object(&mut self, record: ObjectRecord) -> (r: Result<(), ObjectRuntimeError>)
        ensures
            r is Ok <==> !old(self).stored_objects().contains_key(record@.id),
            r matches Err(e) ==> e@ == (ObjectRuntimeErrorView::DuplicateIdentity { object_id: record@.id }),
            final(self).replace_will_fail() == old(self).replace_will_fail(),
    {
        self.inner.insert_object(record)
    }

    fn replace_object(&mut self, record: ObjectRecord, expected_version: Version) -> (r: Result<(), ObjectRuntimeError>)
        ensures
            old(self).replace_will_fail() ==> r is Err && !final(self).replace_will_fail(),
            old(self).replace_will_fail() ==> (r matches Err(e) && e@ == (ObjectRuntimeErrorView::StorageProviderFailure {
                message: "injected object replace failure"@,
            })),
            !old(self).replace_will_fail() ==> !final(self).replace_will_fail() && (r is Ok <==> old(self).stored_objects().contains_key(
                record@.id,
            ) && old(self).stored_objects()[record@.id].version == expected_version@),
    {
        if self.fail_next_replace {
            self.fail_next_replace = false;
            return Err(
                ObjectRuntimeError::StorageProviderFailure { message: String::from_str("injected object replace failure") },
            );
        }
        self.inner.replace_object(record, expected_version)
    }

    fn object_exists(&self, object_id: &ObjectId) -> (r: Result<bool, ObjectRuntimeError>)
        ensures
            r is Ok,
    {
        self.inner.object_exists(object_id)
    }

    fn list_objects(&self) -> (r: Result<Vec<ObjectRecord>, ObjectRuntimeError>)
        ensures
            r is Ok,
    {
        self.inner.list_objects()
    }
}

} // verus!
