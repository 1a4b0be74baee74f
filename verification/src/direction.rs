//! The two directions in which a handle can be ready, and sets of them.

use vstd::prelude::*;

verus! {

/// One of the two independent readiness categories.
#[derive(Clone, Copy, Debug, PartialEq, Eq, Structural)]
pub enum Direction {
    Readable,
    Writable,
}

/// A subset of `{Readable, Writable}`.
///
/// Used both as an interest (what a caller waits for) and as a readiness
/// snapshot (what was observed).
#[derive(Clone, Copy, Debug, PartialEq, Eq, Structural)]
pub struct DirectionSet {
    pub readable: bool,
    pub writable: bool,
}

impl View for DirectionSet {
    type V = Set<Direction>;

    open spec fn view(&self) -> Set<Direction> {
        Set::new(
            |d: Direction|
                match d {
                    Direction::Readable => self.readable,
                    Direction::Writable => self.writable,
                },
        )
    }
}

impl DirectionSet {
    /// The set with no direction.
    pub fn empty() -> (s: DirectionSet)
        ensures
            s@ == Set::<Direction>::empty(),
    {
        let s = DirectionSet { readable: false, writable: false };
        assert(s@ =~= Set::<Direction>::empty());
        s
    }

    /// The set `{Readable}`.
    pub fn readable() -> (s: DirectionSet)
        ensures
            s@ == set![Direction::Readable],
    {
        let s = DirectionSet { readable: true, writable: false };
        assert(s@ =~= set![Direction::Readable]);
        s
    }

    /// The set `{Writable}`.
    pub fn writable() -> (s: DirectionSet)
        ensures
            s@ == set![Direction::Writable],
    {
        let s = DirectionSet { readable: false, writable: true };
        assert(s@ =~= set![Direction::Writable]);
        s
    }

    /// The set `{Readable, Writable}`.
    pub fn both() -> (s: DirectionSet)
        ensures
            s@ == set![Direction::Readable, Direction::Writable],
            forall|d: Direction| s@.contains(d),
    {
        let s = DirectionSet { readable: true, writable: true };
        assert(s@ =~= set![Direction::Readable, Direction::Writable]);
        s
    }

    /// The set that holds exactly `d`.
    pub fn only(d: Direction) -> (s: DirectionSet)
        ensures
            s@ == set![d],
    {
        let s = match d {
            Direction::Readable => DirectionSet { readable: true, writable: false },
            Direction::Writable => DirectionSet { readable: false, writable: true },
        };
        assert(s@ =~= set![d]);
        s
    }

    /// Whether `d` is in the set.
    pub fn contains(&self, d: Direction) -> (b: bool)
        ensures
            b == self@.contains(d),
    {
        match d {
            Direction::Readable => self.readable,
            Direction::Writable => self.writable,
        }
    }

    /// Whether `Readable` is in the set.
    pub fn is_readable(&self) -> (b: bool)
        ensures
            b == self@.contains(Direction::Readable),
    {
        self.readable
    }

    /// Whether `Writable` is in the set.
    pub fn is_writable(&self) -> (b: bool)
        ensures
            b == self@.contains(Direction::Writable),
    {
        self.writable
    }

    /// Whether the set holds no direction.
    pub fn is_empty(&self) -> (b: bool)
        ensures
            b == (self@ == Set::<Direction>::empty()),
    {
        let b = !self.readable && !self.writable;
        proof {
            if b {
                assert(self@ =~= Set::<Direction>::empty());
            } else if self.readable {
                assert(self@.contains(Direction::Readable));
            } else {
                assert(self@.contains(Direction::Writable));
            }
        }
        b
    }

    /// The directions that are in `self` or in `other`.
    pub fn union(&self, other: DirectionSet) -> (s: DirectionSet)
        ensures
            s@ == self@.union(other@),
    {
        let s = DirectionSet {
            readable: self.readable || other.readable,
            writable: self.writable || other.writable,
        };
        assert(s@ =~= self@.union(other@));
        s
    }

    /// The directions that are in both `self` and `other`.
    pub fn intersection(&self, other: DirectionSet) -> (s: DirectionSet)
        ensures
            s@ == self@.intersect(other@),
    {
        let s = DirectionSet {
            readable: self.readable && other.readable,
            writable: self.writable && other.writable,
        };
        assert(s@ =~= self@.intersect(other@));
        s
    }

    /// The directions that are in `self` and not in `other`.
    pub fn difference(&self, other: DirectionSet) -> (s: DirectionSet)
        ensures
            s@ == self@.difference(other@),
    {
        let s = DirectionSet {
            readable: self.readable && !other.readable,
            writable: self.writable && !other.writable,
        };
        assert(s@ =~= self@.difference(other@));
        s
    }

    /// Whether every direction of `self` is in `other`.
    pub fn is_subset_of(&self, other: DirectionSet) -> (b: bool)
        ensures
            b == self@.subset_of(other@),
    {
        let b = (!self.readable || other.readable) && (!self.writable || other.writable);
        proof {
            if !b {
                if self.readable && !other.readable {
                    assert(self@.contains(Direction::Readable));
                    assert(!other@.contains(Direction::Readable));
                } else {
                    assert(self@.contains(Direction::Writable));
                    assert(!other@.contains(Direction::Writable));
                }
            } else {
                assert forall|d: Direction| self@.contains(d) implies other@.contains(d) by {}
            }
        }
        b
    }

    /// Whether `self` and `other` share a direction.
    pub fn intersects(&self, other: DirectionSet) -> (b: bool)
        ensures
            b == !self@.disjoint(other@),
    {
        let b = (self.readable && other.readable) || (self.writable && other.writable);
        proof {
            if self.readable && other.readable {
                assert(self@.contains(Direction::Readable) && other@.contains(Direction::Readable));
            } else if self.writable && other.writable {
                assert(self@.contains(Direction::Writable) && other@.contains(Direction::Writable));
            }
        }
        b
    }
}

/// What a caller can register or wait for: reading, writing, or both. Unlike
/// a [`DirectionSet`], an interest always names at least one direction.
#[derive(Clone, Copy, Debug, PartialEq, Eq, Structural)]
pub enum Interest {
    Readable,
    Writable,
    Both,
}

impl View for Interest {
    type V = Set<Direction>;

    open spec fn view(&self) -> Set<Direction> {
        match self {
            Interest::Readable => set![Direction::Readable],
            Interest::Writable => set![Direction::Writable],
            Interest::Both => set![Direction::Readable, Direction::Writable],
        }
    }
}

impl Interest {
    /// The directions that the interest names; never empty.
    pub fn directions(self) -> (s: DirectionSet)
        ensures
            s@ == self@,
            s@ != Set::<Direction>::empty(),
    {
        let s = match self {
            Interest::Readable => DirectionSet::readable(),
            Interest::Writable => DirectionSet::writable(),
            Interest::Both => DirectionSet::both(),
        };
        proof {
            match self {
                Interest::Readable => assert(s@.contains(Direction::Readable)),
                Interest::Writable => assert(s@.contains(Direction::Writable)),
                Interest::Both => assert(s@.contains(Direction::Readable)),
            }
        }
        s
    }

    /// The interest that names exactly the directions of `directions`, if
    /// there is any direction in it.
    pub fn from_directions(directions: DirectionSet) -> (i: Option<Interest>)
        ensures
            i is None <==> directions@ == Set::<Direction>::empty(),
            i matches Some(interest) ==> interest@ == directions@,
    {
        let i = if directions.readable && directions.writable {
            Some(Interest::Both)
        } else if directions.readable {
            Some(Interest::Readable)
        } else if directions.writable {
            Some(Interest::Writable)
        } else {
            None
        };
        proof {
            match i {
                Some(interest) => {
                    assert(interest@ =~= directions@);
                    if directions.readable {
                        assert(directions@.contains(Direction::Readable));
                    } else {
                        assert(directions@.contains(Direction::Writable));
                    }
                },
                None => {
                    assert(directions@ =~= Set::<Direction>::empty());
                },
            }
        }
        i
    }

    /// Whether the interest names `Readable`.
    pub fn is_readable(self) -> (b: bool)
        ensures
            b == self@.contains(Direction::Readable),
    {
        match self {
            Interest::Readable => true,
            Interest::Writable => false,
            Interest::Both => true,
        }
    }

    /// Whether the interest names `Writable`.
    pub fn is_writable(self) -> (b: bool)
        ensures
            b == self@.contains(Direction::Writable),
    {
        match self {
            Interest::Readable => false,
            Interest::Writable => true,
            Interest::Both => true,
        }
    }

    /// The interest in everything that `self` or `other` names.
    pub fn union(self, other: Interest) -> (i: Interest)
        ensures
            i@ == self@.union(other@),
    {
        let i = match (self, other) {
            (Interest::Readable, Interest::Readable) => Interest::Readable,
            (Interest::Writable, Interest::Writable) => Interest::Writable,
            _ => Interest::Both,
        };
        assert(i@ =~= self@.union(other@));
        i
    }
}

} // verus!
