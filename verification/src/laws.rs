//! Laws of the readiness protocol, proved over the models that the
//! contracts of the library are stated in.

use crate::cache::{CacheState, Poll, WakeHandle};
use crate::direction::{Direction, DirectionSet, Interest};
use crate::guard::GuardState;
use crate::registration::{EventView, RegistrationState, Token};
use crate::wrapper::{RawHandle, Released, WrapperState};
use vstd::prelude::*;

verus! {

/// A direction set is what it holds: two sets with the same members are the
/// same value.
pub proof fn law_direction_set_is_its_members(a: DirectionSet, b: DirectionSet)
    requires
        a@ == b@,
    ensures
        a == b,
{
    assert(a@.contains(Direction::Readable) == a.readable);
    assert(b@.contains(Direction::Readable) == b.readable);
    assert(a@.contains(Direction::Writable) == a.writable);
    assert(b@.contains(Direction::Writable) == b.writable);
}

/// An interest always names a direction, so a wait for it is never a wait
/// for nothing.
pub proof fn law_interest_is_never_empty(interest: Interest)
    ensures
        interest@ != Set::<Direction>::empty(),
        exists|d: Direction| interest@.contains(d),
{
    match interest {
        Interest::Readable => assert(interest@.contains(Direction::Readable)),
        Interest::Writable => assert(interest@.contains(Direction::Writable)),
        Interest::Both => assert(interest@.contains(Direction::Readable)),
    }
}

/// A wait that follows a signal for the same directions does not suspend:
/// it is answered with exactly the signalled directions, whatever the cache
/// held before, and it leaves the cache as the signal left it.
pub proof fn law_signal_then_wait_is_ready(
    cache: CacheState,
    directions: Set<Direction>,
    waker: WakeHandle,
)
    requires
        directions != Set::<Direction>::empty(),
    ensures
        cache.signal(directions).answer(directions) == Poll::Ready(directions),
        cache.signal(directions).after_poll(directions, waker) == cache.signal(directions),
{
    let after = cache.signal(directions);
    assert(after.ready_for(directions) =~= directions);
}

/// The same for a registration: the snapshot carries the registration's
/// token and exactly the signalled directions.
pub proof fn law_delivered_edge_is_observed(
    registration: RegistrationState,
    directions: Set<Direction>,
    waker: WakeHandle,
)
    requires
        directions != Set::<Direction>::empty(),
    ensures
        registration.deliver(directions).answer(directions) == Poll::Ready(
            EventView { token: registration.token, ready: directions },
        ),
        registration.deliver(directions).after_poll(directions, waker) == registration.deliver(
            directions,
        ),
{
    law_signal_then_wait_is_ready(registration.cache, directions, waker);
}

/// A wait is answered with directions that are pending and were asked for,
/// and never with an empty snapshot.
pub proof fn law_snapshot_is_pending_and_wanted(cache: CacheState, interest: Set<Direction>)
    ensures
        cache.answer(interest) matches Poll::Ready(ready) ==> {
            &&& ready != Set::<Direction>::empty()
            &&& ready.subset_of(cache.pending)
            &&& ready.subset_of(interest)
        },
        cache.answer(interest) is Suspend <==> cache.pending.disjoint(interest),
{
    if cache.pending.disjoint(interest) {
        assert(cache.ready_for(interest) =~= Set::<Direction>::empty());
    } else {
        let d = choose|d: Direction| cache.pending.contains(d) && interest.contains(d);
        assert(cache.ready_for(interest).contains(d));
    }
}

/// Clearing through a guard removes from it exactly the directions named:
/// after clearing `first` and then `second`, the guard holds what it held
/// without `first` and `second`, and it holds nothing once every direction
/// it held has been named.
pub proof fn law_guard_clears_in_turn(
    guard: GuardState,
    first: Set<Direction>,
    second: Set<Direction>,
)
    ensures
        guard.without(first).ready() == guard.ready().difference(first),
        guard.without(first).without(second).ready() == guard.ready().difference(
            first.union(second),
        ),
        guard.ready().subset_of(first.union(second)) ==> guard.without(first).without(second)
            == GuardState::empty(),
{
    assert(guard.without(first).ready() =~= guard.ready().difference(first));
    assert(guard.without(first).without(second).ready() =~= guard.ready().difference(
        first.union(second),
    ));
    if guard.ready().subset_of(first.union(second)) {
        assert(guard.ready().difference(first).difference(second) =~= Set::<Direction>::empty());
    }
}

/// Clearing through a guard removes from the cache exactly the directions
/// that the guard holds and that are named; a guard of another registration
/// removes nothing.
pub proof fn law_guard_clears_only_what_it_holds<T>(
    wrapper: WrapperState<T>,
    guard: GuardState,
    directions: Set<Direction>,
)
    ensures
        wrapper.cleared_by(guard.narrowed(directions)).registration.cache.pending == (if guard.event
            matches Some(event) && event.token == wrapper.registration.token {
            wrapper.registration.cache.pending.difference(guard.ready().intersect(directions))
        } else {
            wrapper.registration.cache.pending
        }),
        wrapper.cleared_by(guard.narrowed(directions)).registration.cache.waiters
            == wrapper.registration.cache.waiters,
        wrapper.cleared_by(guard.narrowed(directions)).resource == wrapper.resource,
{
}

/// Of two waiters that park on the same direction, only the second is
/// woken by the next signal for it, and it is woken once: a further signal
/// wakes nobody.
pub proof fn law_last_registrant_wins(
    cache: CacheState,
    d: Direction,
    first: WakeHandle,
    second: WakeHandle,
)
    requires
        !cache.pending.contains(d),
    ensures
        ({
            let parked = cache.after_poll(set![d], first).after_poll(set![d], second);
            &&& parked.waiters.dom().contains(d)
            &&& parked.waiters[d] == second
            &&& parked.woken(set![d]) == seq![second]
            &&& first != second ==> !parked.woken(set![d]).contains(first)
            &&& parked.signal(set![d]).woken(set![d]) == Seq::<WakeHandle>::empty()
        }),
{
    let only = set![d];
    assert(cache.ready_for(only) =~= Set::<Direction>::empty());
    let once = cache.after_poll(only, first);
    assert(once.ready_for(only) =~= Set::<Direction>::empty());
    let parked = once.after_poll(only, second);
    let other = match d {
        Direction::Readable => Direction::Writable,
        Direction::Writable => Direction::Readable,
    };
    assert(!only.contains(other));
    assert(parked.woken_at(only, other) =~= Seq::<WakeHandle>::empty());
    assert(parked.woken_at(only, d) =~= seq![second]);
    assert(parked.woken(only) =~= seq![second]);
    let after = parked.signal(only);
    assert(!after.waiters.dom().contains(d));
    assert(after.woken_at(only, other) =~= Seq::<WakeHandle>::empty());
    assert(after.woken(only) =~= Seq::<WakeHandle>::empty());
}

/// A signal wakes exactly the waiters that are parked on the signalled
/// directions, each once, and leaves the others parked.
pub proof fn law_signal_wakes_the_parked(cache: CacheState, directions: Set<Direction>, d: Direction)
    ensures
        cache.woken(directions).len() <= 2,
        directions.contains(d) && cache.waiters.dom().contains(d) ==> cache.woken(
            directions,
        ).contains(cache.waiters[d]),
        !directions.contains(d) ==> cache.signal(directions).waiters.dom().contains(d)
            == cache.waiters.dom().contains(d),
        !directions.contains(d) && cache.waiters.dom().contains(d) ==> cache.signal(
            directions,
        ).waiters[d] == cache.waiters[d],
        directions.contains(d) ==> !cache.signal(directions).waiters.dom().contains(d),
{
    let readers = cache.woken_at(directions, Direction::Readable);
    let writers = cache.woken_at(directions, Direction::Writable);
    if directions.contains(d) && cache.waiters.dom().contains(d) {
        match d {
            Direction::Readable => {
                assert(readers[0] == cache.waiters[d]);
                assert((readers + writers)[0] == cache.waiters[d]);
            },
            Direction::Writable => {
                assert(writers[0] == cache.waiters[d]);
                assert((readers + writers)[readers.len() as int] == cache.waiters[d]);
            },
        }
    }
}

/// A direction stops being pending only through a clear that names it: no
/// wait, signal or cancellation takes a pending direction away, and a clear
/// takes away no direction that it does not name.
pub proof fn law_pending_is_sticky(
    cache: CacheState,
    directions: Set<Direction>,
    waker: WakeHandle,
)
    ensures
        cache.after_poll(directions, waker).pending == cache.pending,
        cache.cancel(waker).pending == cache.pending,
        cache.pending.subset_of(cache.signal(directions).pending),
        cache.clear(directions).pending == cache.pending.difference(directions),
        cache.pending.difference(directions).subset_of(cache.clear(directions).pending),
{
}

/// What happens to one direction leaves the other alone: a wait, a clear or
/// a signal for `directions` changes neither the pending state nor the
/// waiter of a direction outside `directions`.
pub proof fn law_directions_are_independent(
    cache: CacheState,
    directions: Set<Direction>,
    waker: WakeHandle,
    d: Direction,
)
    requires
        !directions.contains(d),
    ensures
        cache.after_poll(directions, waker).pending.contains(d) == cache.pending.contains(d),
        cache.clear(directions).pending.contains(d) == cache.pending.contains(d),
        cache.signal(directions).pending.contains(d) == cache.pending.contains(d),
        cache.after_poll(directions, waker).waiters.dom().contains(d)
            == cache.waiters.dom().contains(d),
        cache.clear(directions).waiters == cache.waiters,
        cache.signal(directions).waiters.dom().contains(d) == cache.waiters.dom().contains(d),
        cache.waiters.dom().contains(d) ==> {
            &&& cache.after_poll(directions, waker).waiters[d] == cache.waiters[d]
            &&& cache.signal(directions).waiters[d] == cache.waiters[d]
        },
{
}

/// Nobody is ever parked on a pending direction: every transition of the
/// cache keeps this true, so an edge cannot pass a parked waiter by.
pub proof fn law_parked_waiters_are_not_ready(
    cache: CacheState,
    directions: Set<Direction>,
    waker: WakeHandle,
)
    requires
        cache.consistent(),
    ensures
        CacheState::initial().consistent(),
        cache.after_poll(directions, waker).consistent(),
        cache.clear(directions).consistent(),
        cache.signal(directions).consistent(),
        cache.cancel(waker).consistent(),
{
    let polled = cache.after_poll(directions, waker);
    assert forall|d: Direction| polled.waiters.dom().contains(d) implies !polled.pending.contains(
        d,
    ) by {
        if cache.ready_for(directions) == Set::<Direction>::empty() {
            if directions.contains(d) && cache.pending.contains(d) {
                assert(cache.ready_for(directions).contains(d));
            }
        }
    }
}

/// An operation that blocks under a guard clears what the guard holds, and
/// one that does not block leaves the cache as it was. After a wait for
/// `interest` was granted and the operation blocked, nothing of `interest` is
/// pending, so the next wait for `interest` suspends until a new edge is
/// delivered.
pub proof fn law_blocked_attempt_suspends_next_wait<T>(
    wrapper: WrapperState<T>,
    interest: Set<Direction>,
)
    requires
        wrapper.registration.answer(interest) is Ready,
    ensures
        ({
            let guard = GuardState::granted(wrapper.registration.answer(interest))->Ready_0;
            &&& guard.ready() == wrapper.registration.cache.ready_for(interest)
            &&& wrapper.settled_by(guard, false) == wrapper
            &&& wrapper.settled_by(guard, true).registration.cache.pending
                == wrapper.registration.cache.pending.difference(interest)
            &&& wrapper.settled_by(guard, true).registration.cache.waiters
                == wrapper.registration.cache.waiters
            &&& wrapper.settled_by(guard, true).registration.answer(interest) is Suspend
        }),
{
    let cache = wrapper.registration.cache;
    let guard = GuardState::granted(wrapper.registration.answer(interest))->Ready_0;
    let after = wrapper.settled_by(guard, true);
    assert(after.registration.cache.pending =~= cache.pending.difference(interest));
    assert(after.registration.cache.ready_for(interest) =~= Set::<Direction>::empty());
}

/// A retrying run never hands a would-block on. When the operation blocks,
/// the readiness it ran under is cleared and the caller is parked on every
/// direction of `interest`, so the run is resumed by the next edge and not
/// before; when it does not block, nothing changes.
pub proof fn law_blocked_run_waits_for_next_edge<T>(
    wrapper: WrapperState<T>,
    interest: Set<Direction>,
    waker: WakeHandle,
    d: Direction,
)
    requires
        wrapper.registration.answer(interest) is Ready,
        interest.contains(d),
    ensures
        wrapper.after_run(interest, waker, false) == wrapper,
        ({
            let after = wrapper.after_run(interest, waker, true);
            &&& after.registration.cache.pending == wrapper.registration.cache.pending.difference(
                interest,
            )
            &&& after.registration.answer(interest) is Suspend
            &&& after.registration.cache.waiters.dom().contains(d)
            &&& after.registration.cache.waiters[d] == waker
            &&& after.registration.cache.woken(set![d]).contains(waker)
            &&& after.resource == wrapper.resource
        }),
{
    let cache = wrapper.registration.cache;
    let event = EventView { token: wrapper.registration.token, ready: cache.ready_for(interest) };
    let cleared = wrapper.clear(event);
    assert(cleared.registration.cache.pending =~= cache.pending.difference(interest));
    assert(cleared.registration.cache.ready_for(interest) =~= Set::<Direction>::empty());
    let after = wrapper.after_run(interest, waker, true);
    assert(after.registration.cache.ready_for(interest) =~= Set::<Direction>::empty());
    let woken = after.registration.cache.woken(set![d]);
    let readers = after.registration.cache.woken_at(set![d], Direction::Readable);
    let writers = after.registration.cache.woken_at(set![d], Direction::Writable);
    match d {
        Direction::Readable => {
            assert(readers[0] == waker);
            assert(woken[0] == waker);
        },
        Direction::Writable => {
            assert(readers.len() == 0);
            assert(writers[0] == waker);
            assert(woken[0] == waker);
        },
    }
}

/// A wrapper gives up its resource once. While registered it hands back
/// the token it was registered under together with the resource; having
/// done so it hands back nothing, however often it is asked.
pub proof fn law_release_happens_once<T>(wrapper: WrapperState<T>)
    requires
        wrapper.is_registered(),
    ensures
        wrapper.released() == Some(
            Released { deregister: wrapper.registration.token, resource: wrapper.resource->0 },
        ),
        wrapper.release().released() is None,
        wrapper.release().release() == wrapper.release(),
        !wrapper.release().is_registered(),
{
}

/// Every registration that succeeded is given up again: the wrapper built
/// on a confirmed registration hands back exactly that token, whatever was
/// done with it in between.
pub proof fn law_no_token_is_leaked<T>(
    inner: T,
    handle: RawHandle,
    interest: Set<Direction>,
    token: Token,
    directions: Set<Direction>,
    waker: WakeHandle,
    event: EventView,
)
    ensures
        ({
            let wrapper = WrapperState::created(inner, handle, interest, token);
            &&& wrapper.is_registered()
            &&& wrapper.released() == Some(Released { deregister: token, resource: inner })
            &&& wrapper.after_poll(directions, waker).released() == wrapper.released()
            &&& wrapper.deliver(directions).released() == wrapper.released()
            &&& wrapper.clear(event).released() == wrapper.released()
            &&& wrapper.cancel(waker).released() == wrapper.released()
        }),
{
}

/// The identity of a wrapper never changes: no wait, edge, clear,
/// cancellation or release alters the handle it was built for or the token
/// it was registered under.
pub proof fn law_identity_is_stable<T>(
    wrapper: WrapperState<T>,
    directions: Set<Direction>,
    waker: WakeHandle,
    event: EventView,
    blocked: bool,
)
    ensures
        ({
            let id = (wrapper.handle, wrapper.registration.token, wrapper.registration.interest);
            let of = |w: WrapperState<T>| (w.handle, w.registration.token, w.registration.interest);
            &&& of(wrapper.after_poll(directions, waker)) == id
            &&& of(wrapper.deliver(directions)) == id
            &&& of(wrapper.clear(event)) == id
            &&& of(wrapper.cancel(waker)) == id
            &&& of(wrapper.after_run(directions, waker, blocked)) == id
            &&& of(wrapper.release()) == id
        }),
{
}

} // verus!
