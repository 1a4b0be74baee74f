use readiness::cache::{Poll, WakeHandle};
use readiness::direction::{Direction, DirectionSet, Interest};
use readiness::guard::{IoFailure, WouldBlockError};
use readiness::registration::Token;
use readiness::wrapper::{RawHandle, ResourceWrapper};

fn handle(id: u64) -> WakeHandle {
    WakeHandle { id }
}

fn wrap() -> ResourceWrapper<Vec<u8>> {
    let built = ResourceWrapper::with_interest(
        vec![10, 20],
        RawHandle { id: 5 },
        Interest::Both,
        Ok(Token { id: 1 }),
    );
    match built {
        Ok(wrapper) => wrapper,
        Err(e) => panic!("construction failed: {:?}", e),
    }
}

#[test]
fn read_edge_gives_read_snapshot_only() {
    let mut wrapper = wrap();
    assert_eq!(wrapper.deliver_edge(DirectionSet::readable()), Vec::<WakeHandle>::new());

    let mut guard = match wrapper.ready(Interest::Both, handle(1)) {
        Poll::Ready(guard) => guard,
        Poll::Suspend => panic!("readable was signalled"),
    };
    assert_eq!(guard.ready(), DirectionSet::readable());
    assert!(!guard.ready().is_writable());

    let read: Result<Result<u8, ()>, WouldBlockError> =
        guard.try_io(&mut wrapper, |r: &Vec<u8>| Ok(r[0]));
    assert_eq!(read, Ok(Ok(10)));

    // the cache is as it was: readable pending, writable never signalled
    assert_eq!(wrapper.pending(), DirectionSet::readable());
    assert!(matches!(wrapper.writable(handle(2)), Poll::Suspend));
}

#[test]
fn false_positive_write_edge_is_cleared_and_rearmed() {
    let mut wrapper = wrap();
    wrapper.deliver_edge(DirectionSet::writable());

    let mut guard = match wrapper.writable(handle(1)) {
        Poll::Ready(guard) => guard,
        Poll::Suspend => panic!("writable was signalled"),
    };
    let written: Result<Result<usize, ()>, WouldBlockError> =
        guard.try_io(&mut wrapper, |_r: &Vec<u8>| Err(IoFailure::WouldBlock));
    assert_eq!(written, Err(WouldBlockError));
    assert_eq!(wrapper.pending(), DirectionSet::empty());

    // the second wait suspends, and keeps suspending, until another edge
    assert!(matches!(wrapper.writable(handle(1)), Poll::Suspend));
    assert!(matches!(wrapper.writable(handle(1)), Poll::Suspend));
    assert_eq!(wrapper.waiter(Direction::Writable), Some(handle(1)));

    assert_eq!(wrapper.deliver_edge(DirectionSet::writable()), vec![handle(1)]);
    match wrapper.writable(handle(1)) {
        Poll::Ready(guard) => assert_eq!(guard.ready(), DirectionSet::writable()),
        Poll::Suspend => panic!("writable was signalled again"),
    }
}

#[test]
fn blocked_reader_does_not_stall_the_writer() {
    let mut wrapper = wrap();
    wrapper.deliver_edge(DirectionSet::both());

    let mut reader = match wrapper.ready(Interest::Both, handle(1)) {
        Poll::Ready(guard) => guard,
        Poll::Suspend => panic!("both were signalled"),
    };
    // the read blocked: only read readiness goes
    reader.clear_ready_matching(&mut wrapper, DirectionSet::readable());
    assert_eq!(reader.ready(), DirectionSet::writable());

    match wrapper.writable(handle(2)) {
        Poll::Ready(guard) => assert_eq!(guard.ready(), DirectionSet::writable()),
        Poll::Suspend => panic!("write readiness was lost"),
    }
}

#[test]
fn second_waiter_supersedes_the_first() {
    let mut wrapper = wrap();
    assert!(matches!(wrapper.readable(handle(1)), Poll::Suspend));
    assert!(matches!(wrapper.readable(handle(2)), Poll::Suspend));
    let woken = wrapper.deliver_edge(DirectionSet::readable());
    assert_eq!(woken, vec![handle(2)]);
    assert_eq!(wrapper.deliver_edge(DirectionSet::readable()), Vec::<WakeHandle>::new());
}

#[test]
fn release_after_use_deregisters_once() {
    let mut wrapper = wrap();
    wrapper.deliver_edge(DirectionSet::both());
    let mut guard = match wrapper.readable(handle(1)) {
        Poll::Ready(guard) => guard,
        Poll::Suspend => panic!("readable was signalled"),
    };
    guard.clear_ready(&mut wrapper);
    let released = wrapper.take_inner().expect("the wrapper was registered");
    assert_eq!(released.deregister, Token { id: 1 });
    assert_eq!(released.resource, vec![10, 20]);
    assert!(wrapper.take_inner().is_none());
}
