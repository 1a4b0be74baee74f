//! The per-registration readiness cache: which directions have been signalled
//! since they were last cleared, and who is parked on each direction.

use crate::direction::{Direction, DirectionSet};
use vstd::prelude::*;

verus! {

/// An identifier that the scheduler issued for a suspended task. The cache
/// stores it; whoever drives the cache invokes it when it is handed back.
#[derive(Clone, Copy, Debug, PartialEq, Eq, Structural)]
pub struct WakeHandle {
    pub id: u64,
}

/// What a non-blocking readiness query answers.
#[derive(Debug, PartialEq, Eq)]
pub enum Poll<T> {
    /// Nothing that was asked for is ready; the caller has been parked.
    Suspend,
    /// Something that was asked for is ready.
    Ready(T),
}

impl<T: View> View for Poll<T> {
    type V = Poll<T::V>;

    open spec fn view(&self) -> Poll<T::V> {
        match self {
            Poll::Suspend => Poll::Suspend,
            Poll::Ready(t) => Poll::Ready(t@),
        }
    }
}

/// The mathematical content of a cache.
pub struct CacheState {
    /// Directions signalled and not yet cleared.
    pub pending: Set<Direction>,
    /// The wake handle parked on each direction, at most one per direction.
    pub waiters: Map<Direction, WakeHandle>,
}

impl CacheState {
    /// The state of a fresh cache.
    pub open spec fn initial() -> CacheState {
        CacheState { pending: Set::empty(), waiters: Map::empty() }
    }

    /// Nobody is parked on a direction that is pending.
    pub open spec fn consistent(self) -> bool {
        self.waiters.dom().disjoint(self.pending)
    }

    /// The part of `directions` that is pending.
    pub open spec fn ready_for(self, directions: Set<Direction>) -> Set<Direction> {
        self.pending.intersect(directions)
    }

    /// What a readiness query for `directions` answers: the pending part of
    /// `directions` if there is one, suspension otherwise.
    pub open spec fn answer(self, directions: Set<Direction>) -> Poll<Set<Direction>> {
        if self.ready_for(directions) == Set::<Direction>::empty() {
            Poll::Suspend
        } else {
            Poll::Ready(self.ready_for(directions))
        }
    }

    /// `waker` takes the slot of every direction in `directions`; whoever held
    /// one of these slots before is forgotten.
    pub open spec fn park(self, directions: Set<Direction>, waker: WakeHandle) -> CacheState {
        CacheState {
            pending: self.pending,
            waiters: Map::new(
                |d: Direction| directions.contains(d) || self.waiters.dom().contains(d),
                |d: Direction|
                    if directions.contains(d) {
                        waker
                    } else {
                        self.waiters[d]
                    },
            ),
        }
    }

    /// The state after a readiness query for `directions` on behalf of `waker`.
    pub open spec fn after_poll(self, directions: Set<Direction>, waker: WakeHandle) -> CacheState {
        if self.ready_for(directions) == Set::<Direction>::empty() {
            self.park(directions, waker)
        } else {
            self
        }
    }

    /// The directions in `directions` stop being pending.
    pub open spec fn clear(self, directions: Set<Direction>) -> CacheState {
        CacheState { pending: self.pending.difference(directions), waiters: self.waiters }
    }

    /// The directions in `directions` become pending and their slots are
    /// emptied.
    pub open spec fn signal(self, directions: Set<Direction>) -> CacheState {
        CacheState {
            pending: self.pending.union(directions),
            waiters: self.waiters.remove_keys(directions),
        }
    }

    /// `waker` gives up every slot it holds. What is pending stays pending.
    pub open spec fn cancel(self, waker: WakeHandle) -> CacheState {
        CacheState {
            pending: self.pending,
            waiters: Map::new(
                |d: Direction| self.waiters.dom().contains(d) && self.waiters[d] != waker,
                |d: Direction| self.waiters[d],
            ),
        }
    }

    /// The handle that a signal for `directions` takes out of the slot of `d`,
    /// as a sequence of length zero or one.
    pub open spec fn woken_at(self, directions: Set<Direction>, d: Direction) -> Seq<WakeHandle> {
        if directions.contains(d) && self.waiters.dom().contains(d) {
            seq![self.waiters[d]]
        } else {
            Seq::empty()
        }
    }

    /// The handles that a signal for `directions` invokes: the reader's, then
    /// the writer's, each once.
    pub open spec fn woken(self, directions: Set<Direction>) -> Seq<WakeHandle> {
        self.woken_at(directions, Direction::Readable) + self.woken_at(
            directions,
            Direction::Writable,
        )
    }
}

/// The map that two waiter slots stand for.
pub open spec fn slots(
    reader: Option<WakeHandle>,
    writer: Option<WakeHandle>,
) -> Map<Direction, WakeHandle> {
    Map::new(
        |d: Direction|
            match d {
                Direction::Readable => reader is Some,
                Direction::Writable => writer is Some,
            },
        |d: Direction|
            match d {
                Direction::Readable => reader->0,
                Direction::Writable => writer->0,
            },
    )
}

proof fn lemma_slots(reader: Option<WakeHandle>, writer: Option<WakeHandle>)
    ensures
        slots(reader, writer).dom().contains(Direction::Readable) == (reader is Some),
        slots(reader, writer).dom().contains(Direction::Writable) == (writer is Some),
        reader is Some ==> slots(reader, writer)[Direction::Readable] == reader->0,
        writer is Some ==> slots(reader, writer)[Direction::Writable] == writer->0,
{
}

proof fn lemma_members(s: DirectionSet)
    ensures
        s@.contains(Direction::Readable) == s.readable,
        s@.contains(Direction::Writable) == s.writable,
{
}

/// Readiness of one registered handle, tracked per direction.
pub struct ReadinessCache {
    pending: DirectionSet,
    reader: Option<WakeHandle>,
    writer: Option<WakeHandle>,
}

impl View for ReadinessCache {
    type V = CacheState;

    closed spec fn view(&self) -> CacheState {
        CacheState { pending: self.pending@, waiters: slots(self.reader, self.writer) }
    }
}

impl ReadinessCache {
    #[verifier::type_invariant]
    spec fn inv(self) -> bool {
        &&& self.pending.readable ==> self.reader.is_none()
        &&& self.pending.writable ==> self.writer.is_none()
    }

    /// A cache in which nothing is pending and nobody is parked.
    pub fn new() -> (cache: ReadinessCache)
        ensures
            cache@ == CacheState::initial(),
    {
        let cache = ReadinessCache { pending: DirectionSet::empty(), reader: None, writer: None };
        proof {
            lemma_slots(cache.reader, cache.writer);
            assert(cache@.waiters =~= Map::<Direction, WakeHandle>::empty());
        }
        cache
    }

    /// The directions that are pending.
    pub fn pending(&self) -> (p: DirectionSet)
        ensures
            p@ == self@.pending,
            self@.consistent(),
    {
        proof {
            use_type_invariant(self);
            self.lemma_consistent();
        }
        self.pending
    }

    /// The wake handle parked on `d`, if any.
    pub fn waiter(&self, d: Direction) -> (w: Option<WakeHandle>)
        ensures
            w.is_some() == self@.waiters.dom().contains(d),
            w.is_some() ==> w.unwrap() == self@.waiters[d],
    {
        match d {
            Direction::Readable => self.reader,
            Direction::Writable => self.writer,
        }
    }

    proof fn lemma_consistent(self)
        requires
            self.inv(),
        ensures
            self@.consistent(),
    {
        assert forall|d: Direction|
            !(self@.waiters.dom().contains(d) && self@.pending.contains(d)) by {
            match d {
                Direction::Readable => {},
                Direction::Writable => {},
            }
        }
    }

    /// Asks whether any of `directions` is pending, on behalf of `waker`.
    ///
    /// If so, answers at once with the pending part of `directions` and leaves
    /// the cache as it was. Otherwise `waker` is parked on each of
    /// `directions`, replacing whoever was parked there.
    pub fn poll_ready(&mut self, directions: DirectionSet, waker: WakeHandle) -> (r: Poll<
        DirectionSet,
    >)
        ensures
            r@ == old(self)@.answer(directions@),
            final(self)@ == old(self)@.after_poll(directions@, waker),
            final(self)@.consistent(),
    {
        proof {
            use_type_invariant(&*self);
        }
        let snapshot = self.pending.intersection(directions);
        if !snapshot.is_empty() {
            proof {
                self.lemma_consistent();
            }
            return Poll::Ready(snapshot);
        }
        proof {
            assert(!(self.pending.readable && directions.readable)) by {
                if self.pending.readable && directions.readable {
                    assert(snapshot@.contains(Direction::Readable));
                }
            }
            assert(!(self.pending.writable && directions.writable)) by {
                if self.pending.writable && directions.writable {
                    assert(snapshot@.contains(Direction::Writable));
                }
            }
        }
        if directions.is_readable() {
            self.reader = Some(waker);
        }
        if directions.is_writable() {
            self.writer = Some(waker);
        }
        proof {
            assert(self@.waiters =~= old(self)@.park(directions@, waker).waiters);
            self.lemma_consistent();
        }
        Poll::Suspend
    }

    /// Marks each of `directions` as no longer pending. Directions that were
    /// not pending are unaffected, and so is everyone who is parked.
    pub fn clear(&mut self, directions: DirectionSet)
        ensures
            final(self)@ == old(self)@.clear(directions@),
            final(self)@.consistent(),
    {
        proof {
            use_type_invariant(&*self);
        }
        let pending = self.pending.difference(directions);
        proof {
            lemma_members(self.pending);
            lemma_members(pending);
        }
        self.pending = pending;
        proof {
            self.lemma_consistent();
        }
    }

    /// Withdraws `waker` from every direction it is parked on, as when the
    /// task behind it abandons its wait. What is pending stays pending, and
    /// other waiters stay parked.
    pub fn cancel(&mut self, waker: WakeHandle)
        ensures
            final(self)@ == old(self)@.cancel(waker),
            final(self)@.consistent(),
    {
        proof {
            use_type_invariant(&*self);
            lemma_slots(self.reader, self.writer);
        }
        if self.reader == Some(waker) {
            self.reader = None;
        }
        if self.writer == Some(waker) {
            self.writer = None;
        }
        proof {
            lemma_slots(self.reader, self.writer);
            assert(self@.waiters =~= old(self)@.cancel(waker).waiters);
            self.lemma_consistent();
        }
    }

    /// Records an edge event for `directions`: each becomes pending, and the
    /// handle parked on it, if any, is taken out of its slot and returned so
    /// that the caller invokes it.
    pub fn signal(&mut self, directions: DirectionSet) -> (woken: Vec<WakeHandle>)
        ensures
            final(self)@ == old(self)@.signal(directions@),
            woken@ == old(self)@.woken(directions@),
            final(self)@.consistent(),
    {
        proof {
            use_type_invariant(&*self);
        }
        let mut woken: Vec<WakeHandle> = Vec::new();
        let pending = self.pending.union(directions);
        let mut reader = self.reader;
        let mut writer = self.writer;
        if directions.is_readable() {
            if let Some(w) = reader {
                woken.push(w);
            }
            reader = None;
        }
        assert(woken@ =~= old(self)@.woken_at(directions@, Direction::Readable));
        if directions.is_writable() {
            if let Some(w) = writer {
                woken.push(w);
            }
            writer = None;
        }
        proof {
            lemma_members(directions);
            lemma_members(self.pending);
            lemma_members(pending);
        }
        self.reader = reader;
        self.writer = writer;
        self.pending = pending;
        proof {
            assert(woken@ =~= old(self)@.woken(directions@));
            assert(self@.waiters =~= old(self)@.signal(directions@).waiters);
            self.lemma_consistent();
        }
        woken
    }
}

} // verus!
