//! The two concurrency limits of a connection and the bookkeeping that every
//! change of a stream's state goes through.

use vstd::prelude::*;
use crate::error::UserError;
use crate::frame::{Settings, StreamId};
use crate::peer::Role;
use crate::lifecycle::{after_transition, can_finish_transition, consistent, opened};
use crate::lifecycle::{lemma_open_keeps_consistent, lemma_transition_keeps_consistent};
use crate::store::{live, stream_at};
use crate::store::{Key, State, Store, Stream};

verus! {

/// The limits that a connection is set up with. `None` stands for no limit.
#[derive(Clone, Copy, Debug, PartialEq, Eq, Structural)]
pub struct Config {
    /// The most streams that this endpoint may have created and open at once.
    pub local_max_initiated: Option<usize>,
    /// The most streams that the remote endpoint may have created and open
    /// at once.
    pub remote_max_initiated: Option<usize>,
}

/// The number that a limit is kept as: `usize::MAX` where there is none.
pub open spec fn limit_of(max: Option<usize>) -> nat {
    match max {
        Some(n) => n as nat,
        None => usize::MAX as nat,
    }
}

/// The side of the bookkeeping that a stream falls on: `Send` for the
/// streams that this endpoint created, `Recv` for those of the remote one.
#[derive(Clone, Copy, Debug, PartialEq, Eq, Structural)]
pub enum Direction {
    Send,
    Recv,
}

/// What a `Counts` holds, as numbers.
pub struct CountsView {
    pub role: Role,
    /// The limit on streams that this endpoint created.
    pub max_send: nat,
    /// How many streams that this endpoint created hold a slot.
    pub num_send: nat,
    /// The limit on streams that the remote endpoint created.
    pub max_recv: nat,
    /// How many streams that the remote endpoint created hold a slot.
    pub num_recv: nat,
}

impl CountsView {
    /// The side that the stream `id` falls on.
    pub open spec fn direction(self, id: StreamId) -> Direction {
        if self.role.is_local_init_spec(id) {
            Direction::Send
        } else {
            Direction::Recv
        }
    }

    /// How many streams of one side hold a slot.
    pub open spec fn num(self, dir: Direction) -> nat {
        match dir {
            Direction::Send => self.num_send,
            Direction::Recv => self.num_recv,
        }
    }

    /// The limit of one side.
    pub open spec fn max(self, dir: Direction) -> nat {
        match dir {
            Direction::Send => self.max_send,
            Direction::Recv => self.max_recv,
        }
    }

    /// Whether one more stream of that side may take a slot: the count is
    /// strictly below the limit.
    pub open spec fn can_inc(self, dir: Direction) -> bool {
        self.num(dir) < self.max(dir)
    }

    /// The counts after one more stream of that side took a slot.
    pub open spec fn inc(self, dir: Direction) -> CountsView {
        match dir {
            Direction::Send => CountsView { num_send: self.num_send + 1, ..self },
            Direction::Recv => CountsView { num_recv: self.num_recv + 1, ..self },
        }
    }

    /// The counts after one stream of that side gave its slot back.
    pub open spec fn dec(self, dir: Direction) -> CountsView
        recommends
            self.num(dir) > 0,
    {
        match dir {
            Direction::Send => CountsView { num_send: (self.num_send - 1) as nat, ..self },
            Direction::Recv => CountsView { num_recv: (self.num_recv - 1) as nat, ..self },
        }
    }

    /// The counts with the limit on this endpoint's streams replaced.
    pub open spec fn with_max_send(self, max: nat) -> CountsView {
        CountsView { max_send: max, ..self }
    }

    /// The counts after the remote endpoint's settings were applied: the
    /// limit on this endpoint's streams is replaced where the settings name
    /// one, and nothing else changes.
    pub open spec fn apply(self, settings: Settings) -> CountsView {
        match settings.max_concurrent_streams {
            Some(max) => self.with_max_send(max as nat),
            None => self,
        }
    }

    /// Whether neither count is above its limit.
    pub open spec fn within_limits(self) -> bool {
        self.num_send <= self.max_send && self.num_recv <= self.max_recv
    }
}

/// Whether each step of `dirs`, taken in order from `counts`, finds a slot
/// free on its side.
pub open spec fn admissible(counts: CountsView, dirs: Seq<Direction>) -> bool
    decreases dirs.len(),
{
    dirs.len() == 0 || (counts.can_inc(dirs[0]) && admissible(
        counts.inc(dirs[0]),
        dirs.skip(1),
    ))
}

/// The counts after a stream took a slot for each step of `dirs`, in order.
pub open spec fn after_all(counts: CountsView, dirs: Seq<Direction>) -> CountsView
    decreases dirs.len(),
{
    if dirs.len() == 0 {
        counts
    } else {
        after_all(counts.inc(dirs[0]), dirs.skip(1))
    }
}

/// However many streams take a slot one after the other, each only after
/// its side had one free, neither count is above its limit at any point on
/// the way: after the first `k` of them, for every `k`.
pub proof fn lemma_counts_stay_within_limits(counts: CountsView, dirs: Seq<Direction>, k: int)
    requires
        counts.within_limits(),
        admissible(counts, dirs),
        0 <= k <= dirs.len(),
    ensures
        admissible(counts, dirs.take(k)),
        after_all(counts, dirs.take(k)).within_limits(),
    decreases dirs.len(),
{
    if k > 0 {
        lemma_counts_stay_within_limits(counts.inc(dirs[0]), dirs.skip(1), k - 1);
        assert(dirs.take(k).skip(1) =~= dirs.skip(1).take(k - 1));
    }
}

/// Once the remote endpoint has named the limit `max`, one more stream of
/// this endpoint may take a slot exactly if fewer than `max` hold one,
/// whatever the limit was before.
pub proof fn lemma_remote_limit_decides(counts: CountsView, max: u32, before: nat)
    ensures
        counts.apply(Settings { max_concurrent_streams: Some(max) }).can_inc(Direction::Send)
            <==> counts.num_send < max,
        counts.with_max_send(before).apply(Settings { max_concurrent_streams: Some(max) })
            == counts.apply(Settings { max_concurrent_streams: Some(max) }),
{
}

/// The concurrency limits and counts of one connection.
#[derive(Debug)]
pub struct Counts {
    role: Role,
    /// Maximum number of streams that this endpoint created.
    max_send_streams: usize,
    /// Current number of streams that this endpoint created.
    num_send_streams: usize,
    /// Maximum number of streams that the remote endpoint created.
    max_recv_streams: usize,
    /// Current number of streams that the remote endpoint created.
    num_recv_streams: usize,
}

impl View for Counts {
    type V = CountsView;

    closed spec fn view(&self) -> CountsView {
        CountsView {
            role: self.role,
            max_send: self.max_send_streams as nat,
            num_send: self.num_send_streams as nat,
            max_recv: self.max_recv_streams as nat,
            num_recv: self.num_recv_streams as nat,
        }
    }
}

impl Counts {
    /// Create a new `Counts` using the provided configuration values. Both
    /// counts start at zero.
    pub fn new(role: Role, config: &Config) -> (r: Counts)
        ensures
            r@ == (CountsView {
                role,
                max_send: limit_of(config.local_max_initiated),
                num_send: 0,
                max_recv: limit_of(config.remote_max_initiated),
                num_recv: 0,
            }),
    {
        Counts {
            role,
            max_send_streams: config.local_max_initiated.unwrap_or(usize::MAX),
            num_send_streams: 0,
            max_recv_streams: config.remote_max_initiated.unwrap_or(usize::MAX),
            num_recv_streams: 0,
        }
    }

    /// The role of this endpoint.
    pub fn role(&self) -> (r: Role)
        ensures
            r == self@.role,
    {
        self.role
    }

    /// The limit on streams that this endpoint created.
    pub fn max_send_streams(&self) -> (r: usize)
        ensures
            r == self@.max_send,
    {
        self.max_send_streams
    }

    /// How many streams that this endpoint created hold a slot.
    pub fn num_send_streams(&self) -> (r: usize)
        ensures
            r == self@.num_send,
    {
        self.num_send_streams
    }

    /// The limit on streams that the remote endpoint created.
    pub fn max_recv_streams(&self) -> (r: usize)
        ensures
            r == self@.max_recv,
    {
        self.max_recv_streams
    }

    /// How many streams that the remote endpoint created hold a slot.
    pub fn num_recv_streams(&self) -> (r: usize)
        ensures
            r == self@.num_recv,
    {
        self.num_recv_streams
    }

    /// Returns true if the receive stream concurrency can be incremented.
    pub fn can_inc_num_recv_streams(&self) -> (r: bool)
        ensures
            r == self@.can_inc(Direction::Recv),
    {
        self.max_recv_streams > self.num_recv_streams
    }

    /// Increments the number of concurrent receive streams. The caller has
    /// just seen `can_inc_num_recv_streams` return true.
    pub fn inc_num_recv_streams(&mut self)
        requires
            old(self)@.can_inc(Direction::Recv),
        ensures
            final(self)@ == old(self)@.inc(Direction::Recv),
            old(self)@.within_limits() ==> final(self)@.within_limits(),
    {
        self.num_recv_streams += 1;
    }

    /// Returns true if the send stream concurrency can be incremented.
    pub fn can_inc_num_send_streams(&self) -> (r: bool)
        ensures
            r == self@.can_inc(Direction::Send),
    {
        self.max_send_streams > self.num_send_streams
    }

    /// Increments the number of concurrent send streams. The caller has
    /// just seen `can_inc_num_send_streams` return true.
    pub fn inc_num_send_streams(&mut self)
        requires
            old(self)@.can_inc(Direction::Send),
        ensures
            final(self)@ == old(self)@.inc(Direction::Send),
            old(self)@.within_limits() ==> final(self)@.within_limits(),
    {
        self.num_send_streams += 1;
    }

    /// Takes over the limit on this endpoint's streams from the remote
    /// endpoint's settings, where they name one. Streams that hold a slot
    /// keep it, also where the new limit is below their number.
    pub fn apply_remote_settings(&mut self, settings: &Settings)
        ensures
            final(self)@ == old(self)@.apply(*settings),
    {
        if let Some(val) = settings.max_concurrent_streams() {
            self.max_send_streams = val as usize;
        }
    }

    /// Opens the stream `id` if its side has a slot left: the stream takes
    /// the slot and gets a record, which is put into the store, and the key
    /// of the record is returned. Otherwise nothing changes and the stream is
    /// rejected.
    pub fn open_stream(&mut self, store: &mut Store, id: StreamId) -> (r: Result<Key, UserError>)
        ensures
            r is Ok <==> old(self)@.can_inc(old(self)@.direction(id)),
            match r {
                Ok(key) => {
                    &&& final(self)@ == old(self)@.inc(old(self)@.direction(id))
                    &&& key.0 == old(store)@.len()
                    &&& final(store)@ == old(store)@.push(Some(opened(id)))
                },
                Err(e) => {
                    &&& e == UserError::Rejected
                    &&& final(self)@ == old(self)@
                    &&& final(store)@ == old(store)@
                },
            },
            old(self)@.within_limits() ==> final(self)@.within_limits(),
            consistent(old(self)@, old(store)@) ==> consistent(final(self)@, final(store)@),
    {
        proof {
            if consistent(self@, store@) {
                lemma_open_keeps_consistent(self@, store@, id);
            }
        }
        if self.role.is_local_init(id) {
            if !self.can_inc_num_send_streams() {
                return Err(UserError::Rejected);
            }
            self.inc_num_send_streams();
        } else {
            if !self.can_inc_num_recv_streams() {
                return Err(UserError::Rejected);
            }
            self.inc_num_recv_streams();
        }
        let stream = Stream { id, state: State::Open, counted: true, released: false };
        Ok(store.insert(stream))
    }

    /// Run a block of code that could potentially transition a stream's
    /// state.
    ///
    /// Whether the stream holds a slot is read before `f` runs. Then `f` runs
    /// on the counts, the store and the key, and after it the bookkeeping of
    /// `transition_after` is done with what was read at entry.
    pub fn transition<F, U>(&mut self, store: &mut Store, key: Key, f: F) -> (ret: U) where
        F: FnOnce(&mut Counts, &mut Store, Key) -> U,

        requires
            live(old(store)@, key),
            forall|c: &mut Counts, s: &mut Store|
                *c == *old(self) && *s == *old(store) ==> call_requires(f, (c, s, key)),
            forall|c: &mut Counts, s: &mut Store, u: U|
                *c == *old(self) && *s == *old(store) && call_ensures(f, (c, s, key), u)
                    ==> can_finish_transition(
                    final(c)@,
                    final(s)@,
                    key,
                    stream_at(old(store)@, key).counted,
                ),
        ensures
            exists|c: &mut Counts, s: &mut Store|
                {
                    &&& *c == *old(self)
                    &&& *s == *old(store)
                    &&& #[trigger] call_ensures(f, (c, s, key), ret)
                    &&& (final(self)@, final(store)@) == after_transition(
                        final(c)@,
                        final(s)@,
                        key,
                        stream_at(old(store)@, key).counted,
                    )
                },
    {
        let is_counted: bool = store.is_counted(key);

        // Run the action
        let ret = f(self, store, key);

        self.transition_after(store, key, is_counted);

        ret
    }

    /// The bookkeeping that follows a change of a stream's state.
    ///
    /// If the stream is closed now, it leaves the active index, and if
    /// `is_counted` says that it held a slot, the slot is given back. Apart
    /// from that, if the record is released, it is freed.
    ///
    /// The counts and the store stay consistent where they were, where
    /// `is_counted` is what the record says, and where a released record is a
    /// closed one.
    pub fn transition_after(&mut self, store: &mut Store, key: Key, is_counted: bool)
        requires
            can_finish_transition(old(self)@, old(store)@, key, is_counted),
        ensures
            (final(self)@, final(store)@) == after_transition(
                old(self)@,
                old(store)@,
                key,
                is_counted,
            ),
            old(self)@.within_limits() ==> final(self)@.within_limits(),
            ({
                let stream = stream_at(old(store)@, key);
                &&& consistent(old(self)@, old(store)@)
                &&& is_counted == stream.counted
                &&& stream.released ==> stream.state == State::Closed
            }) ==> consistent(final(self)@, final(store)@),
    {
        proof {
            let stream = stream_at(store@, key);
            if consistent(self@, store@) && is_counted == stream.counted && (stream.released
                ==> stream.state == State::Closed) {
                lemma_transition_keeps_consistent(self@, store@, key);
            }
        }
        if store.is_closed(key) {
            store.unlink(key);

            if is_counted {
                // Decrement the number of active streams.
                let stream: Stream = store.get(key);
                self.dec_num_streams(stream.id);
                store.set(key, Stream { counted: false, ..stream });
            }
        }

        // Release the stream if it requires releasing
        if store.is_released(key) {
            store.remove(key);
        }
    }

    /// Gives back the slot of the stream `id`, on the side that the stream
    /// falls on.
    pub fn dec_num_streams(&mut self, id: StreamId)
        requires
            old(self)@.num(old(self)@.direction(id)) > 0,
        ensures
            final(self)@ == old(self)@.dec(old(self)@.direction(id)),
            old(self)@.within_limits() ==> final(self)@.within_limits(),
    {
        if self.role.is_local_init(id) {
            self.num_send_streams -= 1;
        } else {
            self.num_recv_streams -= 1;
        }
    }
}

} // verus!
