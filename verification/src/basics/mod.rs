use vstd::prelude::*;
use crate::objects::point::Point;

pub mod collision;
pub mod components;

verus! {

/// A behaviour that can be attached to an object of type `T`.
pub trait Component<T> {
    /// Runs once per simulation tick on the object that owns the behaviour.
    fn update(&mut self, object: &mut T);

    /// Runs when the owner `me` is found in contact with `other`.
    fn on_collide(&mut self, me: &mut T, other: &mut T);
}

/// Something that can put itself on the screen.
pub trait Drawable {
    fn draw(&self);
}

/// The kinds of behaviour that the engine itself provides.
#[derive(Clone, Copy, Debug, PartialEq, Eq, Structural)]
pub enum ComponentKind {
    /// Adds a constant to the vertical velocity on every tick.
    Gravity,
    /// Scales the velocity by a coefficient on every tick.
    Friction,
    /// Adds a vector to the velocity on every tick. A force that is not
    /// permanent is meant for one tick only.
    Force { permanent: bool },
    /// Answers contacts with an impulse and a separation.
    Collision,
}

impl ComponentKind {
    /// Whether two behaviours are of one type, whatever they are set to.
    pub open spec fn same_type(self, other: ComponentKind) -> bool {
        match (self, other) {
            (ComponentKind::Gravity, ComponentKind::Gravity) => true,
            (ComponentKind::Friction, ComponentKind::Friction) => true,
            (ComponentKind::Force { .. }, ComponentKind::Force { .. }) => true,
            (ComponentKind::Collision, ComponentKind::Collision) => true,
            _ => false,
        }
    }

    /// Whether the behaviour is a force that was meant for one tick.
    pub open spec fn decays(self) -> bool {
        self == (ComponentKind::Force { permanent: false })
    }

    /// Whether a tick of this behaviour changes the velocity of a point that
    /// owns it: gravity, friction and forces act on every tick, on a point that
    /// can move; the collision behaviour waits for a contact.
    pub open spec fn acts_on(self, owner: Point) -> bool {
        !(self == ComponentKind::Collision) && owner.movable()
    }

    /// Whether a tick of this behaviour changes the velocity of a box that owns
    /// it. A box is never fixed.
    pub open spec fn acts_on_quad(self) -> bool {
        !(self == ComponentKind::Collision)
    }

    pub fn is_type(&self, other: &ComponentKind) -> (same: bool)
        ensures
            same == self.same_type(*other),
    {
        match (self, other) {
            (ComponentKind::Gravity, ComponentKind::Gravity) => true,
            (ComponentKind::Friction, ComponentKind::Friction) => true,
            (ComponentKind::Force { .. }, ComponentKind::Force { .. }) => true,
            (ComponentKind::Collision, ComponentKind::Collision) => true,
            _ => false,
        }
    }

    pub fn is_decaying(&self) -> (decays: bool)
        ensures
            decays == self.decays(),
    {
        match self {
            ComponentKind::Force { permanent } => !*permanent,
            _ => false,
        }
    }

    /// Decides whether a tick of this behaviour changes its owner's velocity.
    pub fn update(&self, owner: &Point) -> (acts: bool)
        ensures
            acts == self.acts_on(*owner),
    {
        match self {
            ComponentKind::Collision => false,
            _ => owner.is_movable(),
        }
    }

    /// Decides whether a tick of this behaviour changes the velocity of a box
    /// that owns it.
    pub fn update_quad(&self) -> (acts: bool)
        ensures
            acts == self.acts_on_quad(),
    {
        match self {
            ComponentKind::Collision => false,
            _ => true,
        }
    }
}

} // verus!
