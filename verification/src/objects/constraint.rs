use vstd::prelude::*;
use crate::objects::point::Point;

verus! {

/// Which ends one relaxation of a constraint moves.
#[derive(Clone, Copy, Debug, PartialEq, Eq, Structural)]
pub struct Relaxation {
    pub move_first: bool,
    pub move_second: bool,
}

/// One relaxation of a constraint between `first` and `second`. Ends that lie on
/// one spot give no direction to correct along, so nothing moves. Otherwise each
/// end that can move takes its share of the correction. Two ends without mass
/// cannot move, so a total mass of zero moves nothing and divides nothing.
pub open spec fn relaxation(first: Point, second: Point, coincident: bool) -> Relaxation {
    Relaxation { move_first: !coincident && first.movable(), move_second: !coincident && second.movable() }
}

/// A distance constraint between two points, each named by its place in the
/// collection that the simulation keeps. The constraint owns neither point.
#[derive(Clone, Copy, Debug, PartialEq, Eq, Structural)]
pub struct Constraint {
    pub point1: usize,
    pub point2: usize,
}

impl Constraint {
    /// Whether the constraint joins two different points of a collection of
    /// `len` points.
    pub open spec fn fits(self, len: nat) -> bool {
        self.point1 < len && self.point2 < len && self.point1 != self.point2
    }

    /// The constraint between the same two points of a collection in which
    /// they stand `base` places further on.
    pub open spec fn shifted(self, base: nat) -> Constraint {
        Constraint { point1: (self.point1 + base) as usize, point2: (self.point2 + base) as usize }
    }

    pub fn new(point1: usize, point2: usize) -> (constraint: Constraint)
        ensures
            constraint == (Constraint { point1, point2 }),
    {
        Constraint { point1, point2 }
    }

    /// Decides which ends one relaxation moves; `coincident` says that the caller
    /// measured a distance of exactly zero between them.
    pub fn solve(first: &Point, second: &Point, coincident: bool) -> (moves: Relaxation)
        ensures
            moves == relaxation(*first, *second, coincident),
    {
        Relaxation {
            move_first: !coincident && first.is_movable(),
            move_second: !coincident && second.is_movable(),
        }
    }

    /// Borrows both ends from the shared collection at once, the first end
    /// first. A constraint that does not fit the collection borrows nothing.
    pub fn ends_mut<'a, T>(&self, points: &'a mut Vec<T>) -> (ends: Option<(&'a mut T, &'a mut T)>)
        ensures
            ends.is_some() == self.fits(old(points)@.len()),
            match ends {
                Some((first, second)) => {
                    &&& *first == old(points)@[self.point1 as int]
                    &&& *second == old(points)@[self.point2 as int]
                    &&& final(points)@ == old(points)@.update(self.point1 as int, *final(first)).update(
                        self.point2 as int,
                        *final(second),
                    )
                },
                None => final(points)@ == old(points)@,
            },
    {
        let len: usize = points.len();
        if self.point1 >= len || self.point2 >= len || self.point1 == self.point2 {
            return None;
        }
        if self.point1 < self.point2 {
            let (left, right) = points.as_mut_slice().split_at_mut(self.point2);
            Some((&mut left[self.point1], &mut right[0]))
        } else {
            let (left, right) = points.as_mut_slice().split_at_mut(self.point1);
            Some((&mut right[0], &mut left[self.point2]))
        }
    }
}

} // verus!
