use vstd::prelude::*;
use crate::basics::collision::Contact;
use crate::basics::collision::Response;

verus! {

/// What the engine has to know of a particle to decide what may happen to it.
/// Its position, velocity, force, mass and radius are numbers and stay with the
/// caller.
#[derive(Clone, Copy, Debug, PartialEq, Eq, Structural)]
pub struct Point {
    /// A fixed point is an anchor: nothing moves it or changes its velocity.
    pub fixed: bool,
    /// Whether the mass is positive. A point without mass is treated as fixed,
    /// so that nothing ever divides by its mass.
    pub massive: bool,
}

impl Point {
    /// Whether forces, constraints and collisions may change this point.
    pub open spec fn movable(self) -> bool {
        !self.fixed && self.massive
    }

    /// A point that is not fixed.
    pub fn new(massive: bool) -> (point: Point)
        ensures
            point == (Point { fixed: false, massive }),
    {
        Point { fixed: false, massive }
    }

    pub fn is_movable(&self) -> (movable: bool)
        ensures
            movable == self.movable(),
    {
        !self.fixed && self.massive
    }

    /// Decides whether a tick integrates this point: whether the caller adds the
    /// accumulated force to the velocity, the velocity to the position, and
    /// clears the force. A point that cannot move is left as it is, force and all.
    pub fn update(&self) -> (integrate: bool)
        ensures
            integrate == self.movable(),
    {
        self.is_movable()
    }

    /// Decides what resolving a contact between this point and `other` changes.
    pub fn resolve_collision(&self, other: &Point, contact: Contact) -> (response: Response)
        ensures
            response == resolution(*self, *other, contact),
    {
        let first: bool = self.is_movable();
        let second: bool = other.is_movable();
        match contact {
            Contact::Closing => Response {
                impulse_first: first,
                impulse_second: second,
                shift_first: first,
                shift_second: second,
            },
            Contact::Receding => Response {
                impulse_first: false,
                impulse_second: false,
                shift_first: first,
                shift_second: second,
            },
            _ => Response { impulse_first: false, impulse_second: false, shift_first: false, shift_second: false },
        }
    }
}

/// The resolution of a contact between two points. Bodies that are clear of
/// each other, or whose centres coincide, are left alone. Overlapping bodies are
/// pushed apart whichever way they move; only a closing contact also exchanges
/// an impulse. Whatever happens, it happens only to a point that can move.
pub open spec fn resolution(first: Point, second: Point, contact: Contact) -> Response {
    Response {
        impulse_first: contact == Contact::Closing && first.movable(),
        impulse_second: contact == Contact::Closing && second.movable(),
        shift_first: contact.overlapping() && first.movable(),
        shift_second: contact.overlapping() && second.movable(),
    }
}

} // verus!
