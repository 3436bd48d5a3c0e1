//! The arena that owns the stream records of one connection.
//!
//! A record is reached through a `Key`, which stays valid until the record is
//! freed and is never handed out again afterwards. Beside the records the
//! store keeps the active index: the records that a lookup by stream ID
//! finds. Taking a record out of the index and freeing it are two steps.

use vstd::prelude::*;
use crate::frame::StreamId;

verus! {

/// Where a stream stands in its life, as far as bookkeeping cares.
#[derive(Clone, Copy, Debug, PartialEq, Eq, Structural)]
pub enum State {
    Open,
    Closed,
}

/// The record of one stream.
#[derive(Clone, Copy, Debug, PartialEq, Eq, Structural)]
pub struct Stream {
    /// The stream's number.
    pub id: StreamId,
    /// Whether the stream is still open.
    pub state: State,
    /// Whether the stream holds one of the connection's concurrency slots.
    pub counted: bool,
    /// Whether nothing refers to the record any more.
    pub released: bool,
}

impl Stream {
    /// A new, open record that holds no slot and is still referred to.
    pub fn new(id: StreamId) -> (r: Stream)
        ensures
            r == (Stream { id, state: State::Open, counted: false, released: false }),
    {
        Stream { id, state: State::Open, counted: false, released: false }
    }

    pub fn id(&self) -> (r: StreamId)
        ensures
            r == self.id,
    {
        self.id
    }

    pub fn is_closed(&self) -> (r: bool)
        ensures
            r == (self.state == State::Closed),
    {
        match self.state {
            State::Closed => true,
            State::Open => false,
        }
    }

    pub fn is_counted(&self) -> (r: bool)
        ensures
            r == self.counted,
    {
        self.counted
    }

    pub fn is_released(&self) -> (r: bool)
        ensures
            r == self.released,
    {
        self.released
    }
}

/// One occupied slot of the arena.
#[derive(Clone, Copy, Debug, PartialEq, Eq, Structural)]
pub struct Entry {
    /// The record.
    pub stream: Stream,
    /// Whether the record is in the active index.
    pub linked: bool,
}

/// Names one slot of the arena.
#[derive(Clone, Copy, Debug, PartialEq, Eq, Structural, Hash)]
pub struct Key(pub usize);

/// Whether `key` names an occupied slot of `slots`.
pub open spec fn live(slots: Seq<Option<Entry>>, key: Key) -> bool {
    key.0 < slots.len() && slots[key.0 as int] is Some
}

/// The entry in the slot that `key` names.
pub open spec fn entry_at(slots: Seq<Option<Entry>>, key: Key) -> Entry
    recommends
        live(slots, key),
{
    slots[key.0 as int]->0
}

/// The record in the slot that `key` names.
pub open spec fn stream_at(slots: Seq<Option<Entry>>, key: Key) -> Stream
    recommends
        live(slots, key),
{
    entry_at(slots, key).stream
}

/// `slots` with the record under `key` replaced by `stream`.
pub open spec fn with_stream(slots: Seq<Option<Entry>>, key: Key, stream: Stream) -> Seq<Option<Entry>>
    recommends
        live(slots, key),
{
    slots.update(key.0 as int, Some(Entry { stream, linked: entry_at(slots, key).linked }))
}

/// `slots` with the record under `key` taken out of the active index.
pub open spec fn unlinked(slots: Seq<Option<Entry>>, key: Key) -> Seq<Option<Entry>>
    recommends
        live(slots, key),
{
    slots.update(key.0 as int, Some(Entry { stream: stream_at(slots, key), linked: false }))
}

/// `slots` with the slot under `key` emptied: the record is gone, and with
/// it its place in the active index.
pub open spec fn removed(slots: Seq<Option<Entry>>, key: Key) -> Seq<Option<Entry>>
    recommends
        live(slots, key),
{
    slots.update(key.0 as int, None)
}

/// Whether slot `i` holds a record with the number `id` that is in the
/// active index.
pub open spec fn active_at(slots: Seq<Option<Entry>>, i: int, id: StreamId) -> bool {
    &&& 0 <= i < slots.len()
    &&& slots[i] matches Some(e)
    &&& e.linked
    &&& e.stream.id == id
}

/// The arena of stream records.
#[derive(Debug)]
pub struct Store {
    slots: Vec<Option<Entry>>,
}

impl View for Store {
    type V = Seq<Option<Entry>>;

    /// The slots of the arena in order: a record with its place in the
    /// active index, or nothing where a record was freed.
    closed spec fn view(&self) -> Seq<Option<Entry>> {
        self.slots@
    }
}

impl Store {
    /// An arena without records.
    pub fn new() -> (r: Store)
        ensures
            r@ == Seq::<Option<Entry>>::empty(),
    {
        Store { slots: Vec::new() }
    }

    /// Puts `stream` into a slot that was never used before and into the
    /// active index, and returns the key of that slot.
    pub fn insert(&mut self, stream: Stream) -> (key: Key)
        ensures
            key.0 == old(self)@.len(),
            final(self)@ == old(self)@.push(Some(Entry { stream, linked: true })),
    {
        let index: usize = self.slots.len();
        self.slots.push(Some(Entry { stream, linked: true }));
        Key(index)
    }

    /// Whether `key` still names a record.
    pub fn contains(&self, key: Key) -> (r: bool)
        ensures
            r == live(self@, key),
    {
        key.0 < self.slots.len() && self.slots[key.0].is_some()
    }

    /// The record under `key`.
    pub fn get(&self, key: Key) -> (r: Stream)
        requires
            live(self@, key),
        ensures
            r == stream_at(self@, key),
    {
        let entry: Entry = self.slots[key.0].unwrap();
        entry.stream
    }

    /// Whether the record under `key` is in the active index.
    pub fn is_linked(&self, key: Key) -> (r: bool)
        requires
            live(self@, key),
        ensures
            r == entry_at(self@, key).linked,
    {
        let entry: Entry = self.slots[key.0].unwrap();
        entry.linked
    }

    /// The number of the stream under `key`.
    pub fn id(&self, key: Key) -> (r: StreamId)
        requires
            live(self@, key),
        ensures
            r == stream_at(self@, key).id,
    {
        self.get(key).id()
    }

    /// Whether the stream under `key` is closed.
    pub fn is_closed(&self, key: Key) -> (r: bool)
        requires
            live(self@, key),
        ensures
            r == (stream_at(self@, key).state == State::Closed),
    {
        self.get(key).is_closed()
    }

    /// Whether the stream under `key` holds a concurrency slot.
    pub fn is_counted(&self, key: Key) -> (r: bool)
        requires
            live(self@, key),
        ensures
            r == stream_at(self@, key).counted,
    {
        self.get(key).is_counted()
    }

    /// Whether nothing refers to the record under `key` any more.
    pub fn is_released(&self, key: Key) -> (r: bool)
        requires
            live(self@, key),
        ensures
            r == stream_at(self@, key).released,
    {
        self.get(key).is_released()
    }

    /// Replaces the record under `key`; its place in the active index stays.
    pub fn set(&mut self, key: Key, stream: Stream)
        requires
            live(old(self)@, key),
        ensures
            final(self)@ == with_stream(old(self)@, key, stream),
    {
        let linked: bool = self.is_linked(key);
        self.slots.set(key.0, Some(Entry { stream, linked }));
    }

    /// Marks the stream under `key` as closed.
    pub fn close(&mut self, key: Key)
        requires
            live(old(self)@, key),
        ensures
            final(self)@ == with_stream(
                old(self)@,
                key,
                Stream { state: State::Closed, ..stream_at(old(self)@, key) },
            ),
    {
        let stream: Stream = self.get(key);
        self.set(key, Stream { state: State::Closed, ..stream });
    }

    /// Records that nothing refers to the record under `key` any more.
    pub fn release(&mut self, key: Key)
        requires
            live(old(self)@, key),
        ensures
            final(self)@ == with_stream(
                old(self)@,
                key,
                Stream { released: true, ..stream_at(old(self)@, key) },
            ),
    {
        let stream: Stream = self.get(key);
        self.set(key, Stream { released: true, ..stream });
    }

    /// Takes the record under `key` out of the active index without freeing
    /// it. Doing so again changes nothing.
    pub fn unlink(&mut self, key: Key)
        requires
            live(old(self)@, key),
        ensures
            final(self)@ == unlinked(old(self)@, key),
    {
        let stream: Stream = self.get(key);
        self.slots.set(key.0, Some(Entry { stream, linked: false }));
    }

    /// Frees the record under `key`. A record that is still in the active
    /// index leaves it in the same step. The key names nothing afterwards.
    pub fn remove(&mut self, key: Key)
        requires
            live(old(self)@, key),
        ensures
            final(self)@ == removed(old(self)@, key),
    {
        self.slots.set(key.0, None);
    }

    /// Looks `id` up in the active index: the first slot that holds a
    /// record with that number and is in the index, if there is one.
    pub fn find(&self, id: StreamId) -> (r: Option<Key>)
        ensures
            match r {
                Some(key) => {
                    &&& active_at(self@, key.0 as int, id)
                    &&& forall|j: int| 0 <= j < key.0 ==> !active_at(self@, j, id)
                },
                None => forall|j: int| 0 <= j < self@.len() ==> !active_at(self@, j, id),
            },
    {
        let mut i: usize = 0;
        while i < self.slots.len()
            invariant
                i <= self.slots.len(),
                forall|j: int| 0 <= j < i ==> !active_at(self@, j, id),
            decreases self.slots.len() - i,
        {
            match self.slots[i] {
                Some(e) => {
                    if e.linked && e.stream.id.0 == id.0 {
                        return Some(Key(i));
                    }
                },
                None => {},
            }
            i = i + 1;
        }
        None
    }
}

} // verus!
