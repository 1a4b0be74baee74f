use readiness::cache::{Poll, WakeHandle};
use readiness::direction::{Direction, DirectionSet, Interest};
use readiness::registration::{ReadyEvent, Registration, Token};

fn handle(id: u64) -> WakeHandle {
    WakeHandle { id }
}

fn granted(answer: Poll<ReadyEvent>) -> ReadyEvent {
    match answer {
        Poll::Ready(event) => event,
        Poll::Suspend => panic!("the wait suspended"),
    }
}

#[test]
fn new_registration_is_idle() {
    let registration = Registration::new(Token { id: 11 }, Interest::Readable);
    assert_eq!(registration.token(), Token { id: 11 });
    assert_eq!(registration.interest(), Interest::Readable);
    assert_eq!(registration.pending(), DirectionSet::empty());
    assert_eq!(registration.waiter(Direction::Readable), None);
    assert_eq!(registration.waiter(Direction::Writable), None);
}

#[test]
fn snapshot_carries_token_and_directions() {
    let mut registration = Registration::new(Token { id: 11 }, Interest::Both);
    assert_eq!(registration.deliver_edge(DirectionSet::readable()), Vec::<WakeHandle>::new());
    let event = granted(registration.poll_readiness(Interest::Both, handle(1)));
    assert_eq!(event.token(), Token { id: 11 });
    assert_eq!(event.ready(), DirectionSet::readable());
}

#[test]
fn wait_suspends_until_an_edge_arrives() {
    let mut registration = Registration::new(Token { id: 1 }, Interest::Both);
    assert_eq!(registration.poll_readiness(Interest::Writable, handle(3)), Poll::Suspend);
    assert_eq!(registration.waiter(Direction::Writable), Some(handle(3)));
    assert_eq!(registration.deliver_edge(DirectionSet::writable()), vec![handle(3)]);
    let event = granted(registration.poll_readiness(Interest::Writable, handle(3)));
    assert_eq!(event.ready(), DirectionSet::writable());
}

#[test]
fn poll_read_ready_uses_the_reader_slot() {
    let mut registration = Registration::new(Token { id: 1 }, Interest::Both);
    assert_eq!(registration.poll_read_ready(handle(1)), Poll::Suspend);
    assert_eq!(registration.poll_read_ready(handle(2)), Poll::Suspend);
    assert_eq!(registration.waiter(Direction::Readable), Some(handle(2)));
    assert_eq!(registration.waiter(Direction::Writable), None);
    assert_eq!(registration.deliver_edge(DirectionSet::readable()), vec![handle(2)]);
    let event = granted(registration.poll_read_ready(handle(2)));
    assert_eq!(event.ready(), DirectionSet::readable());
}

#[test]
fn poll_write_ready_uses_the_writer_slot() {
    let mut registration = Registration::new(Token { id: 1 }, Interest::Both);
    assert_eq!(registration.poll_write_ready(handle(1)), Poll::Suspend);
    assert_eq!(registration.poll_write_ready(handle(2)), Poll::Suspend);
    assert_eq!(registration.waiter(Direction::Writable), Some(handle(2)));
    assert_eq!(registration.waiter(Direction::Readable), None);
    assert_eq!(registration.deliver_edge(DirectionSet::both()), vec![handle(2)]);
    let event = granted(registration.poll_write_ready(handle(2)));
    assert_eq!(event.ready(), DirectionSet::writable());
}

#[test]
fn reader_and_writer_slots_are_independent() {
    let mut registration = Registration::new(Token { id: 1 }, Interest::Both);
    assert_eq!(registration.poll_read_ready(handle(1)), Poll::Suspend);
    assert_eq!(registration.poll_write_ready(handle(2)), Poll::Suspend);
    assert_eq!(registration.deliver_edge(DirectionSet::writable()), vec![handle(2)]);
    assert_eq!(registration.waiter(Direction::Readable), Some(handle(1)));
}

#[test]
fn clear_readiness_clears_the_snapshot() {
    let mut registration = Registration::new(Token { id: 1 }, Interest::Both);
    registration.deliver_edge(DirectionSet::both());
    let event = granted(registration.poll_readiness(Interest::Readable, handle(1)));
    registration.clear_readiness(event);
    assert_eq!(registration.pending(), DirectionSet::writable());
}

#[test]
fn clear_readiness_matching_returns_what_is_left() {
    let mut registration = Registration::new(Token { id: 6 }, Interest::Both);
    registration.deliver_edge(DirectionSet::both());
    let event = granted(registration.poll_readiness(Interest::Both, handle(1)));
    let rest = registration.clear_readiness_matching(event, DirectionSet::readable());
    assert_eq!(registration.pending(), DirectionSet::writable());
    let rest = rest.expect("the writable part is left");
    assert_eq!(rest.token(), Token { id: 6 });
    assert_eq!(rest.ready(), DirectionSet::writable());
    let rest = registration.clear_readiness_matching(rest, DirectionSet::writable());
    assert!(rest.is_none());
    assert_eq!(registration.pending(), DirectionSet::empty());
}

#[test]
fn clear_readiness_matching_with_no_match_clears_nothing() {
    let mut registration = Registration::new(Token { id: 6 }, Interest::Both);
    registration.deliver_edge(DirectionSet::readable());
    let event = granted(registration.poll_readiness(Interest::Both, handle(1)));
    let rest = registration.clear_readiness_matching(event, DirectionSet::writable());
    assert_eq!(registration.pending(), DirectionSet::readable());
    assert_eq!(rest.expect("nothing was cleared").ready(), DirectionSet::readable());
}

#[test]
fn snapshot_of_another_registration_clears_nothing() {
    let mut mine = Registration::new(Token { id: 1 }, Interest::Both);
    let mut other = Registration::new(Token { id: 2 }, Interest::Both);
    mine.deliver_edge(DirectionSet::both());
    other.deliver_edge(DirectionSet::both());
    let foreign = granted(other.poll_readiness(Interest::Both, handle(1)));
    mine.clear_readiness(foreign);
    assert_eq!(mine.pending(), DirectionSet::both());
    let foreign = granted(other.poll_readiness(Interest::Both, handle(1)));
    let rest = mine.clear_readiness_matching(foreign, DirectionSet::readable());
    assert_eq!(mine.pending(), DirectionSet::both());
    assert_eq!(rest.expect("the writable part is left").ready(), DirectionSet::writable());
}

#[test]
fn cancel_wait_keeps_the_registration() {
    let mut registration = Registration::new(Token { id: 1 }, Interest::Both);
    registration.deliver_edge(DirectionSet::writable());
    assert_eq!(registration.poll_read_ready(handle(1)), Poll::Suspend);
    registration.cancel_wait(handle(1));
    assert_eq!(registration.waiter(Direction::Readable), None);
    assert_eq!(registration.pending(), DirectionSet::writable());
    assert_eq!(registration.token(), Token { id: 1 });
    assert_eq!(registration.deliver_edge(DirectionSet::readable()), Vec::<WakeHandle>::new());
}
