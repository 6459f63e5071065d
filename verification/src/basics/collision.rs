use vstd::prelude::*;
use crate::objects::point::Point;

verus! {

/// How two round bodies stand to each other, as the caller measured it. The
/// normal of a contact points from the first body to the second, and the
/// bodies are moving toward each other if the velocity of the second relative
/// to the first, taken along the normal, is negative.
#[derive(Clone, Copy, Debug, PartialEq, Eq, Structural)]
pub enum Contact {
    /// The centres are at least the sum of the radii apart.
    Clear,
    /// The bodies overlap and their centres coincide, so no direction
    /// separates them.
    Coincident,
    /// The bodies overlap and are not moving toward each other.
    Receding,
    /// The bodies overlap and are moving toward each other.
    Closing,
}

/// What the resolution of one contact changes.
#[derive(Clone, Copy, Debug, PartialEq, Eq, Structural)]
pub struct Response {
    /// The first body's velocity takes the impulse.
    pub impulse_first: bool,
    /// The second body's velocity takes the opposite impulse.
    pub impulse_second: bool,
    /// The first body's position is pushed back along the normal.
    pub shift_first: bool,
    /// The second body's position is pushed forward along the normal.
    pub shift_second: bool,
}

impl Contact {
    /// The contact that three measurements amount to: `within_reach` says that
    /// the distance between the centres is below the sum of the radii,
    /// `coincident` that it is exactly zero, `approaching` that the bodies are
    /// moving toward each other. Reach is tested first: bodies out of reach are
    /// clear of each other whatever else was measured.
    pub open spec fn of(within_reach: bool, coincident: bool, approaching: bool) -> Contact {
        if !within_reach {
            Contact::Clear
        } else if coincident {
            Contact::Coincident
        } else if approaching {
            Contact::Closing
        } else {
            Contact::Receding
        }
    }

    /// Whether the bodies overlap along a direction that can be told.
    pub open spec fn overlapping(self) -> bool {
        self == Contact::Receding || self == Contact::Closing
    }

    /// Sums three measurements up as a contact.
    pub fn classify(within_reach: bool, coincident: bool, approaching: bool) -> (contact: Contact)
        ensures
            contact == Contact::of(within_reach, coincident, approaching),
    {
        if !within_reach {
            Contact::Clear
        } else if coincident {
            Contact::Coincident
        } else if approaching {
            Contact::Closing
        } else {
            Contact::Receding
        }
    }
}

impl Response {
    /// The response that changes nothing.
    pub open spec fn nothing() -> Response {
        Response { impulse_first: false, impulse_second: false, shift_first: false, shift_second: false }
    }

    /// Whether the response leaves the first body as it was.
    pub open spec fn spares_first(self) -> bool {
        !self.touches_first()
    }

    /// Whether the response leaves the second body as it was.
    pub open spec fn spares_second(self) -> bool {
        !self.touches_second()
    }

    /// Whether the response changes the first body.
    pub open spec fn touches_first(self) -> bool {
        self.impulse_first || self.shift_first
    }

    /// Whether the response changes the second body.
    pub open spec fn touches_second(self) -> bool {
        self.impulse_second || self.shift_second
    }

    /// Whether the response leaves both velocities as they were.
    pub open spec fn keeps_velocities(self) -> bool {
        !self.impulse_first && !self.impulse_second
    }
}

/// The response of the collision behaviour owned by `me` to a contact with
/// `other`: only a closing contact is answered, with an impulse and a
/// separation for each body that can move.
pub open spec fn collision_response(me: Point, other: Point, contact: Contact) -> Response {
    if contact == Contact::Closing {
        Response {
            impulse_first: me.movable(),
            impulse_second: other.movable(),
            shift_first: me.movable(),
            shift_second: other.movable(),
        }
    } else {
        Response::nothing()
    }
}

/// Decides what the collision behaviour owned by `me` does about `other`.
pub fn on_collide(me: &Point, other: &Point, contact: Contact) -> (response: Response)
    ensures
        response == collision_response(*me, *other, contact),
{
    match contact {
        Contact::Closing => {
            let first: bool = me.is_movable();
            let second: bool = other.is_movable();
            Response { impulse_first: first, impulse_second: second, shift_first: first, shift_second: second }
        },
        _ => Response { impulse_first: false, impulse_second: false, shift_first: false, shift_second: false },
    }
}

/// The response of the collision behaviour to a contact between two boxes. A
/// box is never fixed, so a closing contact changes both.
pub open spec fn quad_collision_response(contact: Contact) -> Response {
    if contact == Contact::Closing {
        Response { impulse_first: true, impulse_second: true, shift_first: true, shift_second: true }
    } else {
        Response::nothing()
    }
}

/// Decides what the collision behaviour of a box does about another box.
pub fn on_collide_quads(contact: Contact) -> (response: Response)
    ensures
        response == quad_collision_response(contact),
{
    match contact {
        Contact::Closing => Response { impulse_first: true, impulse_second: true, shift_first: true, shift_second: true },
        _ => Response { impulse_first: false, impulse_second: false, shift_first: false, shift_second: false },
    }
}

/// Whether a point slides along the slope it rests on: its velocity is then
/// turned into the direction of the slope and damped. `on_slope` says that the
/// caller found the point close enough to the slope.
pub open spec fn slides(point: Point, on_slope: bool) -> bool {
    on_slope && point.movable()
}

/// Decides whether a point slides along the slope it rests on.
pub fn apply_slope_physics(point: &Point, on_slope: bool) -> (slide: bool)
    ensures
        slide == slides(*point, on_slope),
{
    on_slope && point.is_movable()
}

} // verus!
