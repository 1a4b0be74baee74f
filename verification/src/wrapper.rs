//! The resource wrapper: a caller's resource together with its registration.

use crate::cache::{Poll, WakeHandle};
use crate::direction::{Direction, DirectionSet, Interest};
use crate::guard::{
    blocked, finished, GuardState, IoFailure, ReadinessGuard, ReadinessGuardMut,
};
use crate::registration::{EventView, ReadyEvent, Registration, RegistrationState, SetupError, Token};
use vstd::prelude::*;

verus! {

/// The identity of the operating-system handle behind a resource.
#[derive(Clone, Copy, Debug, PartialEq, Eq, Structural)]
pub struct RawHandle {
    pub id: u64,
}

/// What is handed back when a wrapper gives up its resource: the token to
/// deregister first, then the resource itself.
#[derive(Debug, PartialEq, Eq)]
pub struct Released<T> {
    pub deregister: Token,
    pub resource: T,
}

/// The mathematical content of a wrapper.
pub struct WrapperState<T> {
    /// The handle identity recorded at construction.
    pub handle: RawHandle,
    /// The resource, until it has been released.
    pub resource: Option<T>,
    pub registration: RegistrationState,
}

impl<T> WrapperState<T> {
    /// The wrapper that construction yields once the event source has
    /// confirmed the registration under `token`.
    pub open spec fn created(
        inner: T,
        handle: RawHandle,
        interest: Set<Direction>,
        token: Token,
    ) -> WrapperState<T> {
        WrapperState {
            handle,
            resource: Some(inner),
            registration: RegistrationState::initial(token, interest),
        }
    }

    /// The wrapper still owns its resource.
    pub open spec fn is_registered(self) -> bool {
        self.resource is Some
    }

    /// The wrapper after a wait for `interest` on behalf of `waker`.
    pub open spec fn after_poll(self, interest: Set<Direction>, waker: WakeHandle) -> WrapperState<T> {
        WrapperState { registration: self.registration.after_poll(interest, waker), ..self }
    }

    /// The wrapper after `waker` abandoned its wait.
    pub open spec fn cancel(self, waker: WakeHandle) -> WrapperState<T> {
        WrapperState { registration: self.registration.cancel(waker), ..self }
    }

    /// The wrapper after an edge event for `directions`.
    pub open spec fn deliver(self, directions: Set<Direction>) -> WrapperState<T> {
        WrapperState { registration: self.registration.deliver(directions), ..self }
    }

    /// The wrapper after `event` was used to clear readiness.
    pub open spec fn clear(self, event: EventView) -> WrapperState<T> {
        WrapperState { registration: self.registration.clear(event), ..self }
    }

    /// The wrapper after a guard in state `guard` cleared what it held.
    pub open spec fn cleared_by(self, guard: GuardState) -> WrapperState<T> {
        match guard.event {
            Some(event) => self.clear(event),
            None => self,
        }
    }

    /// The wrapper after an operation ran under a guard in state `guard`:
    /// what the guard held is cleared if the operation blocked, and nothing
    /// changes if it did not.
    pub open spec fn settled_by(self, guard: GuardState, blocked: bool) -> WrapperState<T> {
        if blocked {
            self.cleared_by(guard)
        } else {
            self
        }
    }

    /// The wrapper with `resource` in place of the one it holds.
    pub open spec fn with_resource(self, resource: T) -> WrapperState<T> {
        WrapperState { resource: Some(resource), ..self }
    }

    /// What giving up the resource hands back: the deregistration and the
    /// resource while the wrapper is registered, nothing afterwards.
    pub open spec fn released(self) -> Option<Released<T>> {
        match self.resource {
            Some(resource) => Some(Released { deregister: self.registration.token, resource }),
            None => None,
        }
    }

    /// The wrapper after it gave up its resource.
    pub open spec fn release(self) -> WrapperState<T> {
        WrapperState { resource: None, ..self }
    }

    /// The wrapper after an operation ran under a snapshot for `interest`: if
    /// it blocked, the snapshot is cleared and `waker` parked; if it did not,
    /// nothing changes.
    pub open spec fn after_run(
        self,
        interest: Set<Direction>,
        waker: WakeHandle,
        blocked: bool,
    ) -> WrapperState<T> {
        if blocked {
            self.clear(
                EventView {
                    token: self.registration.token,
                    ready: self.registration.cache.ready_for(interest),
                },
            ).after_poll(interest, waker)
        } else {
            self
        }
    }
}

/// A resource registered with the event source.
pub struct ResourceWrapper<T> {
    registration: Registration,
    handle: RawHandle,
    inner: Option<T>,
}

impl<T> View for ResourceWrapper<T> {
    type V = WrapperState<T>;

    closed spec fn view(&self) -> WrapperState<T> {
        WrapperState { handle: self.handle, resource: self.inner, registration: self.registration@ }
    }
}

impl<T> ResourceWrapper<T> {
    /// Wraps `inner`, whose handle is `handle`, for both directions.
    /// `registered` is what the event source answered to the registration.
    pub fn new(inner: T, handle: RawHandle, registered: Result<Token, SetupError>) -> (r: Result<
        ResourceWrapper<T>,
        SetupError,
    >)
        ensures
            (match registered {
                Ok(token) => r is Ok && r->Ok_0@ == WrapperState::created(
                    inner,
                    handle,
                    set![Direction::Readable, Direction::Writable],
                    token,
                ),
                Err(e) => r is Err && r->Err_0 == e,
            }),
    {
        Self::with_interest(inner, handle, Interest::Both, registered)
    }

    /// Wraps `inner`, whose handle is `handle`, for `interest`.
    /// `registered` is what the event source answered to the registration:
    /// construction succeeds exactly when registration did.
    pub fn with_interest(
        inner: T,
        handle: RawHandle,
        interest: Interest,
        registered: Result<Token, SetupError>,
    ) -> (r: Result<ResourceWrapper<T>, SetupError>)
        ensures
            (match registered {
                Ok(token) => r is Ok && r->Ok_0@ == WrapperState::created(
                    inner,
                    handle,
                    interest@,
                    token,
                ),
                Err(e) => r is Err && r->Err_0 == e,
            }),
    {
        match registered {
            Ok(token) => Ok(
                ResourceWrapper {
                    registration: Registration::new(token, interest),
                    handle,
                    inner: Some(inner),
                },
            ),
            Err(e) => Err(e),
        }
    }

    /// Whether the wrapper still owns its resource.
    pub fn is_registered(&self) -> (b: bool)
        ensures
            b == self@.is_registered(),
    {
        self.inner.is_some()
    }

    /// The handle identity recorded at construction.
    pub fn raw_handle(&self) -> (h: RawHandle)
        ensures
            h == self@.handle,
    {
        self.handle
    }

    /// The token that the event source issued.
    pub fn token(&self) -> (t: Token)
        ensures
            t == self@.registration.token,
    {
        self.registration.token()
    }

    /// The interest that the resource was registered with.
    pub fn interest(&self) -> (i: Interest)
        ensures
            i@ == self@.registration.interest,
    {
        self.registration.interest()
    }

    /// The directions that are pending.
    pub fn pending(&self) -> (p: DirectionSet)
        ensures
            p@ == self@.registration.cache.pending,
            self@.registration.cache.consistent(),
    {
        self.registration.pending()
    }

    /// The wake handle parked on `d`, if any.
    pub fn waiter(&self, d: Direction) -> (w: Option<WakeHandle>)
        ensures
            w.is_some() == self@.registration.cache.waiters.dom().contains(d),
            w.is_some() ==> w.unwrap() == self@.registration.cache.waiters[d],
    {
        self.registration.waiter(d)
    }

    /// The resource. Readiness is unaffected. The wrapper must not have
    /// given up its resource.
    pub fn get(&self) -> (r: &T)
        requires
            self@.is_registered(),
        ensures
            Some(*r) == self@.resource,
    {
        self.inner.as_ref().unwrap()
    }

    /// The resource, for changing it. Readiness is unaffected. The wrapper
    /// must not have given up its resource.
    pub fn get_mut(&mut self) -> (r: &mut T)
        requires
            old(self)@.is_registered(),
        ensures
            Some(*r) == old(self)@.resource,
            final(self)@ == old(self)@.with_resource(*final(r)),
    {
        self.inner.as_mut().unwrap()
    }

    /// Records an edge event for `directions` and returns the wake handles
    /// that are to be invoked for it.
    pub fn deliver_edge(&mut self, directions: DirectionSet) -> (woken: Vec<WakeHandle>)
        ensures
            final(self)@ == old(self)@.deliver(directions@),
            woken@ == old(self)@.registration.cache.woken(directions@),
    {
        self.registration.deliver_edge(directions)
    }

    /// One step of waiting until any of `interest` is ready, on behalf of
    /// `waker`.
    ///
    /// Answers with a guard over the pending part of `interest` when there is
    /// one, and leaves the cache as it was; the guard may hold fewer
    /// directions than were asked for. Otherwise parks `waker` on every
    /// direction of `interest` and answers `Suspend`.
    pub fn ready(&mut self, interest: Interest, waker: WakeHandle) -> (r: Poll<ReadinessGuard>)
        ensures
            r@ == GuardState::granted(old(self)@.registration.answer(interest@)),
            final(self)@ == old(self)@.after_poll(interest@, waker),
    {
        match self.registration.poll_readiness(interest, waker) {
            Poll::Suspend => Poll::Suspend,
            Poll::Ready(event) => Poll::Ready(ReadinessGuard::holding(event)),
        }
    }

    /// One step of waiting until the resource is readable.
    pub fn readable(&mut self, waker: WakeHandle) -> (r: Poll<ReadinessGuard>)
        ensures
            r@ == GuardState::granted(old(self)@.registration.answer(set![Direction::Readable])),
            final(self)@ == old(self)@.after_poll(set![Direction::Readable], waker),
    {
        self.ready(Interest::Readable, waker)
    }

    /// One step of waiting until the resource is writable.
    pub fn writable(&mut self, waker: WakeHandle) -> (r: Poll<ReadinessGuard>)
        ensures
            r@ == GuardState::granted(old(self)@.registration.answer(set![Direction::Writable])),
            final(self)@ == old(self)@.after_poll(set![Direction::Writable], waker),
    {
        self.ready(Interest::Writable, waker)
    }

    /// As [`ResourceWrapper::ready`], for a guard that grants exclusive access
    /// to the resource.
    pub fn ready_mut(&mut self, interest: Interest, waker: WakeHandle) -> (r: Poll<
        ReadinessGuardMut,
    >)
        ensures
            r@ == GuardState::granted(old(self)@.registration.answer(interest@)),
            final(self)@ == old(self)@.after_poll(interest@, waker),
    {
        match self.registration.poll_readiness(interest, waker) {
            Poll::Suspend => Poll::Suspend,
            Poll::Ready(event) => Poll::Ready(ReadinessGuardMut::holding(event)),
        }
    }

    /// As [`ResourceWrapper::readable`], for a guard that grants exclusive
    /// access to the resource.
    pub fn readable_mut(&mut self, waker: WakeHandle) -> (r: Poll<ReadinessGuardMut>)
        ensures
            r@ == GuardState::granted(old(self)@.registration.answer(set![Direction::Readable])),
            final(self)@ == old(self)@.after_poll(set![Direction::Readable], waker),
    {
        self.ready_mut(Interest::Readable, waker)
    }

    /// As [`ResourceWrapper::writable`], for a guard that grants exclusive
    /// access to the resource.
    pub fn writable_mut(&mut self, waker: WakeHandle) -> (r: Poll<ReadinessGuardMut>)
        ensures
            r@ == GuardState::granted(old(self)@.registration.answer(set![Direction::Writable])),
            final(self)@ == old(self)@.after_poll(set![Direction::Writable], waker),
    {
        self.ready_mut(Interest::Writable, waker)
    }

    /// One step of running `operation` as soon as any of `interest` is ready,
    /// on behalf of `waker`.
    ///
    /// While nothing of `interest` is pending, `waker` is parked and the
    /// operation is not run. Otherwise the operation runs once. If it reports
    /// would-block, the readiness it ran under is cleared, `waker` is parked
    /// for the next edge, and the answer is `Suspend`: the would-block is
    /// never handed on. Any other result is handed on as it is, and the cache
    /// stays as it was. The wrapper must not have given up its resource.
    pub fn run_with_readiness<R, E, F: FnOnce(&T) -> Result<R, IoFailure<E>>>(
        &mut self,
        interest: Interest,
        waker: WakeHandle,
        operation: F,
    ) -> (r: Poll<Result<R, E>>)
        requires
            old(self)@.is_registered(),
            operation.requires((&old(self)@.resource->0,)),
        ensures
            old(self)@.registration.answer(interest@) is Suspend ==> r is Suspend && final(self)@
                == old(self)@.after_poll(interest@, waker),
            old(self)@.registration.answer(interest@) is Ready ==> exists|
                outcome: Result<R, IoFailure<E>>,
            |
                {
                    &&& operation.ensures((&old(self)@.resource->0,), outcome)
                    &&& r == finished(outcome)
                    &&& final(self)@ == old(self)@.after_run(interest@, waker, blocked(outcome))
                },
    {
        match self.registration.poll_readiness(interest, waker) {
            Poll::Suspend => Poll::Suspend,
            Poll::Ready(event) => {
                let outcome = operation(self.get());
                self.conclude(event, interest, waker, outcome)
            },
        }
    }

    /// Ends a run whose operation, started under `event`, gave `outcome`.
    fn conclude<R, E>(
        &mut self,
        event: ReadyEvent,
        interest: Interest,
        waker: WakeHandle,
        outcome: Result<R, IoFailure<E>>,
    ) -> (r: Poll<Result<R, E>>)
        requires
            old(self)@.registration.answer(interest@) == Poll::Ready(event@),
        ensures
            r == finished(outcome),
            final(self)@ == old(self)@.after_run(interest@, waker, blocked(outcome)),
    {
        match outcome {
            Ok(value) => Poll::Ready(Ok(value)),
            Err(IoFailure::Other(e)) => Poll::Ready(Err(e)),
            Err(IoFailure::WouldBlock) => {
                self.registration.clear_readiness(event);
                assert(self@.registration.cache.ready_for(interest@) =~= Set::empty());
                let parked = self.registration.poll_readiness(interest, waker);
                assert(parked@ is Suspend);
                Poll::Suspend
            },
        }
    }

    /// As [`ResourceWrapper::run_with_readiness`], for an operation that may
    /// change the resource.
    pub fn run_with_readiness_mut<R, E, F: FnOnce(&mut T) -> Result<R, IoFailure<E>>>(
        &mut self,
        interest: Interest,
        waker: WakeHandle,
        operation: F,
    ) -> (r: Poll<Result<R, E>>)
        requires
            old(self)@.is_registered(),
            forall|resource: &mut T|
                *resource == old(self)@.resource->0 ==> #[trigger] operation.requires((resource,)),
        ensures
            old(self)@.registration.answer(interest@) is Suspend ==> r is Suspend && final(self)@
                == old(self)@.after_poll(interest@, waker),
            old(self)@.registration.answer(interest@) is Ready ==> exists|
                resource: &mut T,
                outcome: Result<R, IoFailure<E>>,
            |
                {
                    &&& *resource == old(self)@.resource->0
                    &&& #[trigger] operation.ensures((resource,), outcome)
                    &&& r == finished(outcome)
                    &&& final(self)@ == old(self)@.with_resource(*final(resource)).after_run(
                        interest@,
                        waker,
                        blocked(outcome),
                    )
                },
    {
        match self.registration.poll_readiness(interest, waker) {
            Poll::Suspend => Poll::Suspend,
            Poll::Ready(event) => {
                let outcome = operation(self.get_mut());
                self.conclude(event, interest, waker, outcome)
            },
        }
    }

    /// Gives up the resource, once: the first call hands back the token to
    /// deregister and the resource, every later call hands back nothing.
    /// Readiness is unaffected.
    pub fn take_inner(&mut self) -> (r: Option<Released<T>>)
        ensures
            r == old(self)@.released(),
            final(self)@ == old(self)@.release(),
    {
        match self.inner.take() {
            Some(resource) => Some(Released { deregister: self.registration.token(), resource }),
            None => None,
        }
    }

    /// Takes the wrapper apart: hands back the token to deregister and the
    /// resource. The wrapper must not have given up its resource before.
    pub fn into_inner(self) -> (r: Released<T>)
        requires
            self@.is_registered(),
        ensures
            Some(r) == self@.released(),
    {
        let mut wrapper = self;
        wrapper.take_inner().unwrap()
    }

    /// Withdraws `waker` from every direction it is parked on, as when the
    /// task behind it abandons its wait. The resource stays registered and
    /// what is pending stays pending.
    pub fn cancel_wait(&mut self, waker: WakeHandle)
        ensures
            final(self)@ == old(self)@.cancel(waker),
    {
        self.registration.cancel_wait(waker)
    }

    /// Clears every direction of `event` on behalf of a guard.
    pub(crate) fn clear_event(&mut self, event: ReadyEvent)
        ensures
            final(self)@ == old(self)@.clear(event@),
    {
        self.registration.clear_readiness(event)
    }

    /// Clears the directions of `event` that are in `directions` on behalf of
    /// a guard, and hands back what is left of the snapshot.
    pub(crate) fn clear_event_matching(&mut self, event: ReadyEvent, directions: DirectionSet) -> (rest:
        Option<ReadyEvent>)
        ensures
            final(self)@ == old(self)@.clear(event@.restrict(directions@)),
            rest.is_some() == event@.remainder(directions@).is_some(),
            rest.is_some() ==> rest.unwrap()@ == event@.remainder(directions@).unwrap(),
    {
        self.registration.clear_readiness_matching(event, directions)
    }
}

} // verus!
