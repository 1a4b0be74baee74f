//! The registration of one handle with the event source: its token, the
//! interest it was registered with, and its readiness cache.

use crate::cache::{CacheState, Poll, ReadinessCache, WakeHandle};
use crate::direction::{Direction, DirectionSet, Interest};
use vstd::prelude::*;

verus! {

/// The identifier under which the event source knows a registered handle.
#[derive(Clone, Copy, Debug, PartialEq, Eq, Structural)]
pub struct Token {
    pub id: u64,
}

/// Why a handle could not be registered.
#[derive(Clone, Copy, Debug, PartialEq, Eq, Structural)]
pub enum SetupError {
    /// No event source is active in the calling context.
    NoReactor,
    /// The event source refused the handle.
    RegistrationFailed,
}

/// The mathematical content of a readiness snapshot.
pub struct EventView {
    pub token: Token,
    pub ready: Set<Direction>,
}

impl EventView {
    /// The snapshot narrowed to `directions`.
    pub open spec fn restrict(self, directions: Set<Direction>) -> EventView {
        EventView { token: self.token, ready: self.ready.intersect(directions) }
    }

    /// What is left of the snapshot once `directions` have been dealt with:
    /// nothing if no direction remains.
    pub open spec fn remainder(self, directions: Set<Direction>) -> Option<EventView> {
        if self.ready.difference(directions) == Set::<Direction>::empty() {
            None
        } else {
            Some(EventView { token: self.token, ready: self.ready.difference(directions) })
        }
    }
}

/// The directions that were pending for a registration at the moment a waiter
/// was granted readiness. It cannot be copied: whoever holds it decides once
/// whether the readiness it records is cleared.
#[derive(Debug, PartialEq, Eq)]
pub struct ReadyEvent {
    token: Token,
    ready: DirectionSet,
}

impl View for ReadyEvent {
    type V = EventView;

    closed spec fn view(&self) -> EventView {
        EventView { token: self.token, ready: self.ready@ }
    }
}

impl ReadyEvent {
    /// The registration that the snapshot was taken from.
    pub fn token(&self) -> (t: Token)
        ensures
            t == self@.token,
    {
        self.token
    }

    /// The directions that were observed ready.
    pub fn ready(&self) -> (r: DirectionSet)
        ensures
            r@ == self@.ready,
    {
        self.ready
    }
}

/// The mathematical content of a registration.
pub struct RegistrationState {
    pub token: Token,
    pub interest: Set<Direction>,
    pub cache: CacheState,
}

impl RegistrationState {
    /// A registration that has seen no event yet.
    pub open spec fn initial(token: Token, interest: Set<Direction>) -> RegistrationState {
        RegistrationState { token, interest, cache: CacheState::initial() }
    }

    /// What a wait for `interest` answers: a snapshot under this
    /// registration's token, or suspension.
    pub open spec fn answer(self, interest: Set<Direction>) -> Poll<EventView> {
        match self.cache.answer(interest) {
            Poll::Suspend => Poll::Suspend,
            Poll::Ready(ready) => Poll::Ready(EventView { token: self.token, ready }),
        }
    }

    /// The registration after a wait for `interest` on behalf of `waker`.
    pub open spec fn after_poll(self, interest: Set<Direction>, waker: WakeHandle) -> RegistrationState {
        RegistrationState { cache: self.cache.after_poll(interest, waker), ..self }
    }

    /// The registration after `event` was used to clear readiness. A snapshot
    /// of another registration clears nothing.
    pub open spec fn clear(self, event: EventView) -> RegistrationState {
        if event.token == self.token {
            RegistrationState { cache: self.cache.clear(event.ready), ..self }
        } else {
            self
        }
    }

    /// The registration after `waker` abandoned its wait.
    pub open spec fn cancel(self, waker: WakeHandle) -> RegistrationState {
        RegistrationState { cache: self.cache.cancel(waker), ..self }
    }

    /// The registration after an edge event for `directions`.
    pub open spec fn deliver(self, directions: Set<Direction>) -> RegistrationState {
        RegistrationState { cache: self.cache.signal(directions), ..self }
    }
}

/// One handle's relationship with the event source.
pub struct Registration {
    token: Token,
    interest: Interest,
    cache: ReadinessCache,
}

impl View for Registration {
    type V = RegistrationState;

    closed spec fn view(&self) -> RegistrationState {
        RegistrationState { token: self.token, interest: self.interest@, cache: self.cache@ }
    }
}

impl Registration {
    /// The registration that the event source confirmed under `token` for
    /// `interest`. Nothing is pending and nobody is parked.
    pub fn new(token: Token, interest: Interest) -> (registration: Registration)
        ensures
            registration@ == RegistrationState::initial(token, interest@),
    {
        Registration { token, interest, cache: ReadinessCache::new() }
    }

    /// The token that the event source issued.
    pub fn token(&self) -> (t: Token)
        ensures
            t == self@.token,
    {
        self.token
    }

    /// The interest that the handle was registered with.
    pub fn interest(&self) -> (i: Interest)
        ensures
            i@ == self@.interest,
    {
        self.interest
    }

    /// The directions that are pending.
    pub fn pending(&self) -> (p: DirectionSet)
        ensures
            p@ == self@.cache.pending,
            self@.cache.consistent(),
    {
        self.cache.pending()
    }

    /// The wake handle parked on `d`, if any.
    pub fn waiter(&self, d: Direction) -> (w: Option<WakeHandle>)
        ensures
            w.is_some() == self@.cache.waiters.dom().contains(d),
            w.is_some() ==> w.unwrap() == self@.cache.waiters[d],
    {
        self.cache.waiter(d)
    }

    /// One step of waiting for `interest` on behalf of `waker`.
    ///
    /// Answers with a snapshot of the pending part of `interest` when there
    /// is one; the snapshot may hold fewer directions than were asked for.
    /// Otherwise parks `waker` on every direction of `interest`, superseding
    /// whoever waited there, and answers `Suspend`.
    pub fn poll_readiness(&mut self, interest: Interest, waker: WakeHandle) -> (r: Poll<ReadyEvent>)
        ensures
            r@ == old(self)@.answer(interest@),
            final(self)@ == old(self)@.after_poll(interest@, waker),
            final(self)@.cache.consistent(),
    {
        match self.cache.poll_ready(interest.directions(), waker) {
            Poll::Suspend => Poll::Suspend,
            Poll::Ready(ready) => Poll::Ready(ReadyEvent { token: self.token, ready }),
        }
    }

    /// One step of waiting for read readiness; holds at most one waiter.
    pub fn poll_read_ready(&mut self, waker: WakeHandle) -> (r: Poll<ReadyEvent>)
        ensures
            r@ == old(self)@.answer(set![Direction::Readable]),
            final(self)@ == old(self)@.after_poll(set![Direction::Readable], waker),
            final(self)@.cache.consistent(),
    {
        self.poll_readiness(Interest::Readable, waker)
    }

    /// One step of waiting for write readiness; holds at most one waiter.
    pub fn poll_write_ready(&mut self, waker: WakeHandle) -> (r: Poll<ReadyEvent>)
        ensures
            r@ == old(self)@.answer(set![Direction::Writable]),
            final(self)@ == old(self)@.after_poll(set![Direction::Writable], waker),
            final(self)@.cache.consistent(),
    {
        self.poll_readiness(Interest::Writable, waker)
    }

    /// Clears every direction of `event`, which is used up.
    pub fn clear_readiness(&mut self, event: ReadyEvent)
        ensures
            final(self)@ == old(self)@.clear(event@),
            final(self)@.cache.consistent(),
    {
        let directions = if event.token == self.token {
            event.ready
        } else {
            DirectionSet::empty()
        };
        self.cache.clear(directions);
        assert(old(self)@.cache.pending.difference(Set::empty()) =~= old(self)@.cache.pending);
    }

    /// Clears the directions of `event` that are in `directions`, and hands
    /// back what is left of the snapshot for a later decision, if anything.
    pub fn clear_readiness_matching(&mut self, event: ReadyEvent, directions: DirectionSet) -> (rest:
        Option<ReadyEvent>)
        ensures
            final(self)@ == old(self)@.clear(event@.restrict(directions@)),
            rest.is_some() == event@.remainder(directions@).is_some(),
            rest.is_some() ==> rest.unwrap()@ == event@.remainder(directions@).unwrap(),
            final(self)@.cache.consistent(),
    {
        let matching = ReadyEvent { token: event.token, ready: event.ready.intersection(directions) };
        self.clear_readiness(matching);
        let left = event.ready.difference(directions);
        if left.is_empty() {
            None
        } else {
            Some(ReadyEvent { token: event.token, ready: left })
        }
    }

    /// Withdraws `waker` from every direction it is parked on. The
    /// registration stays in place and what is pending stays pending.
    pub fn cancel_wait(&mut self, waker: WakeHandle)
        ensures
            final(self)@ == old(self)@.cancel(waker),
            final(self)@.cache.consistent(),
    {
        self.cache.cancel(waker)
    }

    /// Records an edge event for `directions` and returns the wake handles
    /// that are to be invoked for it: the reader's, then the writer's.
    pub fn deliver_edge(&mut self, directions: DirectionSet) -> (woken: Vec<WakeHandle>)
        ensures
            final(self)@ == old(self)@.deliver(directions@),
            woken@ == old(self)@.cache.woken(directions@),
            final(self)@.cache.consistent(),
    {
        self.cache.signal(directions)
    }
}

} // verus!
