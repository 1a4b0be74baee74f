use readiness::direction::{Direction, DirectionSet, Interest};

#[test]
fn named_sets_hold_what_they_say() {
    assert!(!DirectionSet::empty().is_readable());
    assert!(!DirectionSet::empty().is_writable());
    assert!(DirectionSet::empty().is_empty());

    assert!(DirectionSet::readable().is_readable());
    assert!(!DirectionSet::readable().is_writable());
    assert!(!DirectionSet::readable().is_empty());

    assert!(!DirectionSet::writable().is_readable());
    assert!(DirectionSet::writable().is_writable());

    assert!(DirectionSet::both().is_readable());
    assert!(DirectionSet::both().is_writable());
}

#[test]
fn only_holds_one_direction() {
    assert_eq!(DirectionSet::only(Direction::Readable), DirectionSet::readable());
    assert_eq!(DirectionSet::only(Direction::Writable), DirectionSet::writable());
    assert!(DirectionSet::only(Direction::Writable).contains(Direction::Writable));
    assert!(!DirectionSet::only(Direction::Writable).contains(Direction::Readable));
}

#[test]
fn union_adds_directions() {
    let r = DirectionSet::readable();
    let w = DirectionSet::writable();
    assert_eq!(r.union(w), DirectionSet::both());
    assert_eq!(r.union(r), r);
    assert_eq!(r.union(DirectionSet::empty()), r);
    assert_eq!(DirectionSet::empty().union(DirectionSet::empty()), DirectionSet::empty());
}

#[test]
fn intersection_keeps_common_directions() {
    let r = DirectionSet::readable();
    let w = DirectionSet::writable();
    let both = DirectionSet::both();
    assert_eq!(r.intersection(w), DirectionSet::empty());
    assert_eq!(both.intersection(w), w);
    assert_eq!(both.intersection(both), both);
    assert_eq!(r.intersection(DirectionSet::empty()), DirectionSet::empty());
}

#[test]
fn difference_removes_directions() {
    let r = DirectionSet::readable();
    let w = DirectionSet::writable();
    let both = DirectionSet::both();
    assert_eq!(both.difference(r), w);
    assert_eq!(both.difference(w), r);
    assert_eq!(both.difference(both), DirectionSet::empty());
    assert_eq!(r.difference(w), r);
    assert_eq!(r.difference(DirectionSet::empty()), r);
}

#[test]
fn subset_and_overlap() {
    let r = DirectionSet::readable();
    let w = DirectionSet::writable();
    let both = DirectionSet::both();
    assert!(r.is_subset_of(both));
    assert!(!both.is_subset_of(r));
    assert!(DirectionSet::empty().is_subset_of(r));
    assert!(r.is_subset_of(r));
    assert!(!r.is_subset_of(w));

    assert!(r.intersects(both));
    assert!(!r.intersects(w));
    assert!(!r.intersects(DirectionSet::empty()));
    assert!(both.intersects(both));
}

#[test]
fn interest_names_its_directions() {
    assert_eq!(Interest::Readable.directions(), DirectionSet::readable());
    assert_eq!(Interest::Writable.directions(), DirectionSet::writable());
    assert_eq!(Interest::Both.directions(), DirectionSet::both());
    assert!(Interest::Readable.is_readable());
    assert!(!Interest::Readable.is_writable());
    assert!(!Interest::Writable.is_readable());
    assert!(Interest::Writable.is_writable());
    assert!(Interest::Both.is_readable());
    assert!(Interest::Both.is_writable());
}

#[test]
fn interest_is_never_empty() {
    assert_eq!(Interest::from_directions(DirectionSet::empty()), None);
    assert_eq!(Interest::from_directions(DirectionSet::readable()), Some(Interest::Readable));
    assert_eq!(Interest::from_directions(DirectionSet::writable()), Some(Interest::Writable));
    assert_eq!(Interest::from_directions(DirectionSet::both()), Some(Interest::Both));
}

#[test]
fn interest_union() {
    assert_eq!(Interest::Readable.union(Interest::Readable), Interest::Readable);
    assert_eq!(Interest::Writable.union(Interest::Writable), Interest::Writable);
    assert_eq!(Interest::Readable.union(Interest::Writable), Interest::Both);
    assert_eq!(Interest::Writable.union(Interest::Readable), Interest::Both);
    assert_eq!(Interest::Both.union(Interest::Readable), Interest::Both);
    assert_eq!(Interest::Writable.union(Interest::Both), Interest::Both);
}
