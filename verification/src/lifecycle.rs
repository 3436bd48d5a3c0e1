//! The life of a stream between the counts and the store: what opening a
//! stream and the bookkeeping after a change of its state leave behind, and
//! what holds of both together all along. A count is the number of records
//! that say they hold a slot, and no stream gives its slot back twice.

use vstd::prelude::*;
use crate::counts::{CountsView, Direction};
use crate::frame::StreamId;
use crate::peer::Role;
use crate::store::{live, removed, stream_at, unlinked, with_stream};
use crate::store::{Entry, Key, State, Stream};

verus! {

/// The record that a stream starts with: open, holding a slot, still
/// referred to, and in the active index.
pub open spec fn opened(id: StreamId) -> Entry {
    Entry {
        stream: Stream { id, state: State::Open, counted: true, released: false },
        linked: true,
    }
}

/// Whether the bookkeeping that follows a change of state can be done for
/// the record under `key`: the record is there, and if its slot is to be
/// given back, the count of its side is not zero.
pub open spec fn can_finish_transition(
    counts: CountsView,
    slots: Seq<Option<Entry>>,
    key: Key,
    is_counted: bool,
) -> bool {
    let stream = stream_at(slots, key);
    &&& live(slots, key)
    &&& stream.state == State::Closed && is_counted ==> counts.num(counts.direction(stream.id)) > 0
}

/// The counts and the slots after the bookkeeping that follows a change of
/// state of the record under `key`, where `is_counted` says whether the
/// stream held a slot before the change.
///
/// A closed stream leaves the active index, and gives its slot back if it
/// held one before the change: the count of its side goes down by one and
/// the record no longer says that it holds a slot. A released record is
/// freed, whether or not it is closed.
pub open spec fn after_transition(
    counts: CountsView,
    slots: Seq<Option<Entry>>,
    key: Key,
    is_counted: bool,
) -> (CountsView, Seq<Option<Entry>>) {
    let stream = stream_at(slots, key);
    let closed = stream.state == State::Closed;
    let gives_back = closed && is_counted;
    let counts1 = if gives_back {
        counts.dec(counts.direction(stream.id))
    } else {
        counts
    };
    let slots1 = if closed {
        unlinked(slots, key)
    } else {
        slots
    };
    let slots2 = if gives_back {
        with_stream(slots1, key, Stream { counted: false, ..stream })
    } else {
        slots1
    };
    let slots3 = if stream.released {
        removed(slots2, key)
    } else {
        slots2
    };
    (counts1, slots3)
}

/// Whether a slot of the arena holds a record of a stream of that side
/// which says that it holds a concurrency slot.
pub open spec fn holds_slot(slot: Option<Entry>, role: Role, dir: Direction) -> bool {
    &&& slot matches Some(e)
    &&& e.stream.counted
    &&& (role.is_local_init_spec(e.stream.id) <==> dir == Direction::Send)
}

/// How many records of streams of that side say that they hold a
/// concurrency slot.
pub open spec fn occupied(slots: Seq<Option<Entry>>, role: Role, dir: Direction) -> nat
    decreases slots.len(),
{
    if slots.len() == 0 {
        0
    } else {
        occupied(slots.drop_last(), role, dir) + if holds_slot(slots.last(), role, dir) {
            1nat
        } else {
            0nat
        }
    }
}

/// Whether each count is the number of records of its side that say they
/// hold a slot.
pub open spec fn consistent(counts: CountsView, slots: Seq<Option<Entry>>) -> bool {
    &&& counts.num_send == occupied(slots, counts.role, Direction::Send)
    &&& counts.num_recv == occupied(slots, counts.role, Direction::Recv)
}

proof fn lemma_occupied_push(slots: Seq<Option<Entry>>, slot: Option<Entry>, role: Role, dir: Direction)
    ensures
        occupied(slots.push(slot), role, dir) == occupied(slots, role, dir) + if holds_slot(
            slot,
            role,
            dir,
        ) {
            1nat
        } else {
            0nat
        },
{
    assert(slots.push(slot).drop_last() =~= slots);
}

proof fn lemma_occupied_update(
    slots: Seq<Option<Entry>>,
    i: int,
    slot: Option<Entry>,
    role: Role,
    dir: Direction,
)
    requires
        0 <= i < slots.len(),
    ensures
        occupied(slots.update(i, slot), role, dir) + (if holds_slot(slots[i], role, dir) {
            1nat
        } else {
            0nat
        }) == occupied(slots, role, dir) + (if holds_slot(slot, role, dir) {
            1nat
        } else {
            0nat
        }),
    decreases slots.len(),
{
    let updated = slots.update(i, slot);
    if i == slots.len() - 1 {
        assert(updated.drop_last() =~= slots.drop_last());
    } else {
        lemma_occupied_update(slots.drop_last(), i, slot, role, dir);
        assert(updated.drop_last() =~= slots.drop_last().update(i, slot));
    }
}

/// A fresh connection is consistent: no record, and both counts at zero.
pub proof fn lemma_fresh_is_consistent(counts: CountsView)
    requires
        counts.num_send == 0,
        counts.num_recv == 0,
    ensures
        consistent(counts, Seq::<Option<Entry>>::empty()),
{
}

/// Where the counts and the store are consistent, a stream whose record
/// says that it holds a slot is counted: the count of its side is not zero.
pub proof fn lemma_counted_stream_is_counted(counts: CountsView, slots: Seq<Option<Entry>>, key: Key)
    requires
        consistent(counts, slots),
        live(slots, key),
        stream_at(slots, key).counted,
    ensures
        counts.num(counts.direction(stream_at(slots, key).id)) > 0,
{
    let dir = counts.direction(stream_at(slots, key).id);
    lemma_occupied_update(slots, key.0 as int, None, counts.role, dir);
}

/// Opening a stream keeps the counts and the store consistent.
pub proof fn lemma_open_keeps_consistent(counts: CountsView, slots: Seq<Option<Entry>>, id: StreamId)
    requires
        consistent(counts, slots),
    ensures
        consistent(counts.inc(counts.direction(id)), slots.push(Some(opened(id)))),
{
    lemma_occupied_push(slots, Some(opened(id)), counts.role, Direction::Send);
    lemma_occupied_push(slots, Some(opened(id)), counts.role, Direction::Recv);
}

/// The bookkeeping after a change of state keeps the counts and the store
/// consistent, and can always be done, where what was read at entry is what
/// the record still says and a released record is a closed one.
pub proof fn lemma_transition_keeps_consistent(counts: CountsView, slots: Seq<Option<Entry>>, key: Key)
    requires
        consistent(counts, slots),
        live(slots, key),
        stream_at(slots, key).released ==> stream_at(slots, key).state == State::Closed,
    ensures
        can_finish_transition(counts, slots, key, stream_at(slots, key).counted),
        consistent(
            after_transition(counts, slots, key, stream_at(slots, key).counted).0,
            after_transition(counts, slots, key, stream_at(slots, key).counted).1,
        ),
{
    let stream = stream_at(slots, key);
    let after = after_transition(counts, slots, key, stream.counted);
    let i = key.0 as int;
    if stream.counted {
        lemma_counted_stream_is_counted(counts, slots, key);
    }
    assert(after.1 =~= slots.update(i, after.1[i]));
    lemma_occupied_update(slots, i, after.1[i], counts.role, Direction::Send);
    lemma_occupied_update(slots, i, after.1[i], counts.role, Direction::Recv);
}

/// The bookkeeping never gives a slot back twice. Where a closed stream went
/// through it once, with what its record said read at entry, and the record
/// is still there, then going through it again, in whatever state that left,
/// changes neither the counts nor the store.
pub proof fn lemma_no_double_decrement(counts: CountsView, slots: Seq<Option<Entry>>, key: Key)
    requires
        live(slots, key),
        stream_at(slots, key).state == State::Closed,
    ensures
        ({
            let first = after_transition(counts, slots, key, stream_at(slots, key).counted);
            live(first.1, key) ==> {
                &&& !stream_at(first.1, key).counted
                &&& after_transition(first.0, first.1, key, stream_at(first.1, key).counted)
                    == first
            }
        }),
{
    let first = after_transition(counts, slots, key, stream_at(slots, key).counted);
    if live(first.1, key) {
        let second = after_transition(first.0, first.1, key, stream_at(first.1, key).counted);
        assert(second.1 =~= first.1);
    }
}

/// A stream gives its slot back at most once in its life: once its record
/// says that it holds none, the bookkeeping leaves the counts as they are,
/// whatever state the stream is in.
pub proof fn lemma_uncounted_stream_leaves_counts(counts: CountsView, slots: Seq<Option<Entry>>, key: Key)
    requires
        live(slots, key),
        !stream_at(slots, key).counted,
    ensures
        after_transition(counts, slots, key, stream_at(slots, key).counted).0 == counts,
{
}

} // verus!
