//! Readiness guards: the holder of one observed readiness snapshot decides
//! through them whether the readiness it records is cleared or retained.

use crate::cache::Poll;
use crate::direction::{Direction, DirectionSet};
use crate::registration::{EventView, ReadyEvent};
use crate::wrapper::ResourceWrapper;
use vstd::prelude::*;

verus! {

/// How an I/O operation can fail.
#[derive(Debug, PartialEq, Eq)]
pub enum IoFailure<E> {
    /// The resource was observed not to be ready.
    WouldBlock,
    /// Any other error; it is passed through unchanged.
    Other(E),
}

/// The answer of `try_io` when the operation found the resource not ready.
#[derive(Clone, Copy, Debug, PartialEq, Eq, Structural)]
pub struct WouldBlockError;

/// Whether `outcome` reports that the resource was not ready.
pub open spec fn blocked<R, E>(outcome: Result<R, IoFailure<E>>) -> bool {
    outcome matches Err(IoFailure::WouldBlock)
}

/// What `try_io` hands on for `outcome`: the would-block signal, or the
/// operation's own result.
pub open spec fn verdict<R, E>(outcome: Result<R, IoFailure<E>>) -> Result<
    Result<R, E>,
    WouldBlockError,
> {
    match outcome {
        Ok(value) => Ok(Ok(value)),
        Err(IoFailure::Other(e)) => Ok(Err(e)),
        Err(IoFailure::WouldBlock) => Err(WouldBlockError),
    }
}

/// What a retrying run answers for `outcome`: suspension when the operation
/// blocked, the operation's own result otherwise.
pub open spec fn finished<R, E>(outcome: Result<R, IoFailure<E>>) -> Poll<Result<R, E>> {
    match outcome {
        Ok(value) => Poll::Ready(Ok(value)),
        Err(IoFailure::Other(e)) => Poll::Ready(Err(e)),
        Err(IoFailure::WouldBlock) => Poll::Suspend,
    }
}

/// The mathematical content of a guard: the snapshot it still holds, if any.
pub struct GuardState {
    pub event: Option<EventView>,
}

impl GuardState {
    /// A guard that holds nothing.
    pub open spec fn empty() -> GuardState {
        GuardState { event: None }
    }

    /// A guard that holds `event`.
    pub open spec fn holding(event: EventView) -> GuardState {
        GuardState { event: Some(event) }
    }

    /// What a wait hands to its caller for `answer`: a guard that holds the
    /// snapshot, or suspension.
    pub open spec fn granted(answer: Poll<EventView>) -> Poll<GuardState> {
        match answer {
            Poll::Suspend => Poll::Suspend,
            Poll::Ready(event) => Poll::Ready(GuardState::holding(event)),
        }
    }

    /// The directions that the guard holds.
    pub open spec fn ready(self) -> Set<Direction> {
        match self.event {
            Some(event) => event.ready,
            None => Set::empty(),
        }
    }

    /// The part of the guard that lies in `directions`.
    pub open spec fn narrowed(self, directions: Set<Direction>) -> GuardState {
        match self.event {
            Some(event) => GuardState::holding(event.restrict(directions)),
            None => GuardState::empty(),
        }
    }

    /// The guard once `directions` have been cleared through it.
    pub open spec fn without(self, directions: Set<Direction>) -> GuardState {
        match self.event {
            Some(event) => GuardState { event: event.remainder(directions) },
            None => GuardState::empty(),
        }
    }

    /// The guard after an operation ended with `blocked`.
    pub open spec fn after_attempt(self, blocked: bool) -> GuardState {
        if blocked {
            GuardState::empty()
        } else {
            self
        }
    }
}

/// A guard that grants shared access to the resource.
///
/// It does not borrow the wrapper it came from: every operation names the
/// wrapper it acts on, and a wrapper ignores a guard that is not its own.
/// Dropping a guard without a decision retains the readiness.
#[must_use]
#[derive(Debug, PartialEq, Eq)]
pub struct ReadinessGuard {
    event: Option<ReadyEvent>,
}

impl View for ReadinessGuard {
    type V = GuardState;

    closed spec fn view(&self) -> GuardState {
        GuardState {
            event: match self.event {
                Some(event) => Some(event@),
                None => None,
            },
        }
    }
}

impl ReadinessGuard {
    /// The guard over a snapshot that was just granted.
    pub(crate) fn holding(event: ReadyEvent) -> (guard: ReadinessGuard)
        ensures
            guard@ == GuardState::holding(event@),
    {
        ReadinessGuard { event: Some(event) }
    }

    /// The directions of the snapshot that have not been cleared through
    /// this guard; empty once everything was cleared.
    pub fn ready(&self) -> (r: DirectionSet)
        ensures
            r@ == self@.ready(),
    {
        match &self.event {
            Some(event) => event.ready(),
            None => DirectionSet::empty(),
        }
    }

    /// Clears every direction that the guard holds in the cache of
    /// `wrapper`. The guard holds nothing afterwards.
    pub fn clear_ready<T>(&mut self, wrapper: &mut ResourceWrapper<T>)
        ensures
            final(self)@ == GuardState::empty(),
            final(wrapper)@ == old(wrapper)@.cleared_by(old(self)@),
    {
        if let Some(event) = self.event.take() {
            wrapper.clear_event(event);
        }
    }

    /// Clears the directions that the guard holds and that are in
    /// `directions`. The guard keeps the others for a later decision.
    pub fn clear_ready_matching<T>(
        &mut self,
        wrapper: &mut ResourceWrapper<T>,
        directions: DirectionSet,
    )
        ensures
            final(self)@ == old(self)@.without(directions@),
            final(wrapper)@ == old(wrapper)@.cleared_by(old(self)@.narrowed(directions@)),
    {
        if let Some(event) = self.event.take() {
            self.event = wrapper.clear_event_matching(event, directions);
        }
    }

    /// States that the readiness is deliberately left asserted. Changes
    /// nothing.
    pub fn retain_ready(&mut self)
        ensures
            final(self)@ == old(self)@,
    {
    }

    /// Acts on the `outcome` of an operation that ran under this guard.
    ///
    /// A would-block outcome clears every direction that the guard holds and
    /// is answered with `WouldBlockError`. Any other outcome is handed on as
    /// it is, and neither the guard nor the cache changes.
    pub fn settle<T, R, E>(
        &mut self,
        wrapper: &mut ResourceWrapper<T>,
        outcome: Result<R, IoFailure<E>>,
    ) -> (r: Result<Result<R, E>, WouldBlockError>)
        ensures
            r == verdict(outcome),
            final(self)@ == old(self)@.after_attempt(blocked(outcome)),
            final(wrapper)@ == old(wrapper)@.settled_by(old(self)@, blocked(outcome)),
    {
        match outcome {
            Ok(value) => Ok(Ok(value)),
            Err(IoFailure::Other(e)) => Ok(Err(e)),
            Err(IoFailure::WouldBlock) => {
                self.clear_ready(wrapper);
                Err(WouldBlockError)
            },
        }
    }

    /// Runs `operation` on the resource of `wrapper` and settles its outcome:
    /// readiness is cleared exactly when the operation reports would-block.
    /// The wrapper must not have given up its resource.
    pub fn try_io<T, R, E, F: FnOnce(&T) -> Result<R, IoFailure<E>>>(
        &mut self,
        wrapper: &mut ResourceWrapper<T>,
        operation: F,
    ) -> (r: Result<Result<R, E>, WouldBlockError>)
        requires
            old(wrapper)@.is_registered(),
            operation.requires((&old(wrapper)@.resource->0,)),
        ensures
            exists|outcome: Result<R, IoFailure<E>>|
                {
                    &&& operation.ensures((&old(wrapper)@.resource->0,), outcome)
                    &&& r == verdict(outcome)
                    &&& final(self)@ == old(self)@.after_attempt(blocked(outcome))
                    &&& final(wrapper)@ == old(wrapper)@.settled_by(old(self)@, blocked(outcome))
                },
    {
        let outcome = operation(wrapper.get());
        let ghost seen = outcome;
        let r = self.settle(wrapper, outcome);
        assert(operation.ensures((&old(wrapper)@.resource->0,), seen));
        r
    }
}

/// A guard that grants exclusive access to the resource: the operation that
/// runs under it may change the resource. In every other respect it behaves
/// as [`ReadinessGuard`] does.
#[must_use]
#[derive(Debug, PartialEq, Eq)]
pub struct ReadinessGuardMut {
    shared: ReadinessGuard,
}

impl View for ReadinessGuardMut {
    type V = GuardState;

    closed spec fn view(&self) -> GuardState {
        self.shared@
    }
}

impl ReadinessGuardMut {
    /// The guard over a snapshot that was just granted.
    pub(crate) fn holding(event: ReadyEvent) -> (guard: ReadinessGuardMut)
        ensures
            guard@ == GuardState::holding(event@),
    {
        ReadinessGuardMut { shared: ReadinessGuard::holding(event) }
    }

    /// The directions of the snapshot that have not been cleared through
    /// this guard; empty once everything was cleared.
    pub fn ready(&self) -> (r: DirectionSet)
        ensures
            r@ == self@.ready(),
    {
        self.shared.ready()
    }

    /// Clears every direction that the guard holds in the cache of
    /// `wrapper`. The guard holds nothing afterwards.
    pub fn clear_ready<T>(&mut self, wrapper: &mut ResourceWrapper<T>)
        ensures
            final(self)@ == GuardState::empty(),
            final(wrapper)@ == old(wrapper)@.cleared_by(old(self)@),
    {
        self.shared.clear_ready(wrapper)
    }

    /// Clears the directions that the guard holds and that are in
    /// `directions`. The guard keeps the others for a later decision.
    pub fn clear_ready_matching<T>(
        &mut self,
        wrapper: &mut ResourceWrapper<T>,
        directions: DirectionSet,
    )
        ensures
            final(self)@ == old(self)@.without(directions@),
            final(wrapper)@ == old(wrapper)@.cleared_by(old(self)@.narrowed(directions@)),
    {
        self.shared.clear_ready_matching(wrapper, directions)
    }

    /// States that the readiness is deliberately left asserted. Changes
    /// nothing.
    pub fn retain_ready(&mut self)
        ensures
            final(self)@ == old(self)@,
    {
    }

    /// Acts on the `outcome` of an operation that ran under this guard, as
    /// [`ReadinessGuard::settle`] does.
    pub fn settle<T, R, E>(
        &mut self,
        wrapper: &mut ResourceWrapper<T>,
        outcome: Result<R, IoFailure<E>>,
    ) -> (r: Result<Result<R, E>, WouldBlockError>)
        ensures
            r == verdict(outcome),
            final(self)@ == old(self)@.after_attempt(blocked(outcome)),
            final(wrapper)@ == old(wrapper)@.settled_by(old(self)@, blocked(outcome)),
    {
        self.shared.settle(wrapper, outcome)
    }

    /// Runs `operation`, which may change the resource of `wrapper`, and
    /// settles its outcome: readiness is cleared exactly when the operation
    /// reports would-block. The wrapper must not have given up its resource.
    pub fn try_io<T, R, E, F: FnOnce(&mut T) -> Result<R, IoFailure<E>>>(
        &mut self,
        wrapper: &mut ResourceWrapper<T>,
        operation: F,
    ) -> (r: Result<Result<R, E>, WouldBlockError>)
        requires
            old(wrapper)@.is_registered(),
            forall|resource: &mut T|
                *resource == old(wrapper)@.resource->0 ==> #[trigger] operation.requires(
                    (resource,),
                ),
        ensures
            exists|resource: &mut T, outcome: Result<R, IoFailure<E>>|
                {
                    &&& *resource == old(wrapper)@.resource->0
                    &&& #[trigger] operation.ensures((resource,), outcome)
                    &&& r == verdict(outcome)
                    &&& final(self)@ == old(self)@.after_attempt(blocked(outcome))
                    &&& final(wrapper)@ == old(wrapper)@.with_resource(
                        *final(resource),
                    ).settled_by(old(self)@, blocked(outcome))
                },
    {
        let outcome = operation(wrapper.get_mut());
        self.shared.settle(wrapper, outcome)
    }
}

} // verus!
