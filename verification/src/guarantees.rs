use vstd::prelude::*;
use crate::basics::collision::collision_response;
use crate::basics::collision::slides;
use crate::basics::collision::Contact;
use crate::basics::collision::Response;
use crate::basics::ComponentKind;
use crate::objects::constraint::relaxation;
use crate::objects::constraint::Relaxation;
use crate::objects::point::resolution;
use crate::objects::point::Point;
use crate::scene::anchors_kept;
use crate::scene::velocities_kept;
use crate::scene::Entry;
use crate::simulation::handling;

verus! {

/// A fixed point is never changed, and neither is a point without mass,
/// which is held like a fixed one so that nothing divides by its mass. A tick
/// does not integrate such a point and none of the engine's behaviours acts
/// on it; no relaxation moves it; no resolution of a contact, by the points
/// themselves or by the collision behaviour, gives it an impulse or shifts it,
/// whichever side of the pair it stands on; it does not slide on a slope; and
/// the demonstration scene does not push it. This holds whatever the other
/// point is and whatever was measured.
pub proof fn lemma_fixed_point_is_never_changed(
    point: Point,
    other: Point,
    contact: Contact,
    coincident: bool,
    on_slope: bool,
    near: bool,
    deep: bool,
    kind: ComponentKind,
)
    requires
        point.fixed || !point.massive,
    ensures
        !point.movable(),
        !kind.acts_on(point),
        !relaxation(point, other, coincident).move_first,
        !relaxation(other, point, coincident).move_second,
        resolution(point, other, contact).spares_first(),
        resolution(other, point, contact).spares_second(),
        collision_response(point, other, contact).spares_first(),
        collision_response(other, point, contact).spares_second(),
        !slides(point, on_slope),
        !handling(point, other, near, deep, coincident).push_first,
        !handling(other, point, near, deep, coincident).push_second,
{
}

/// Bodies that are not moving toward each other keep their velocities: the
/// resolution of their contact gives no impulse, whatever else was measured.
/// Where they overlap, it still pushes apart those that can move.
pub proof fn lemma_receding_contact_keeps_velocities(
    first: Point,
    second: Point,
    within_reach: bool,
    coincident: bool,
)
    ensures
        resolution(first, second, Contact::of(within_reach, coincident, false)).keeps_velocities(),
        collision_response(first, second, Contact::of(within_reach, coincident, false)).keeps_velocities(),
        within_reach && !coincident ==> {
            &&& resolution(first, second, Contact::of(within_reach, coincident, false)).shift_first == first.movable()
            &&& resolution(first, second, Contact::of(within_reach, coincident, false)).shift_second
                == second.movable()
        },
{
}

/// What cannot move stays as it is through any run of steps: if every step
/// keeps the points that cannot move, so do two steps one after the other, and
/// so does no step at all. Every step that a scene takes for the physics (a
/// tick of integration, a relaxation, the resolution of a contact) keeps them,
/// so a fixed point comes out of any number of frames as it went in.
pub proof fn lemma_anchors_are_kept_throughout<V, B>(
    start: Seq<Entry<V, B>>,
    middle: Seq<Entry<V, B>>,
    end: Seq<Entry<V, B>>,
)
    requires
        anchors_kept(start, middle),
        anchors_kept(middle, end),
    ensures
        anchors_kept(start, start),
        anchors_kept(start, end),
{
    assert forall|p: int| 0 <= p < start.len() implies (#[trigger] end[p]).point == start[p].point by {
        assert(middle[p].point == start[p].point);
    }
    assert forall|p: int| 0 <= p < start.len() && !start[p].point.movable() implies #[trigger] end[p] == start[p] by {
        assert(middle[p] == start[p]);
    }
}

/// Velocities stay as they are through any run of steps that each keep them.
/// A relaxation keeps them, and so does the resolution of any contact but a
/// closing one; so bodies that are not moving toward each other come out of
/// any number of relaxations and resolutions with the velocities they had.
pub proof fn lemma_velocities_are_kept_throughout<V, B>(
    start: Seq<Entry<V, B>>,
    middle: Seq<Entry<V, B>>,
    end: Seq<Entry<V, B>>,
)
    requires
        velocities_kept(start, middle),
        velocities_kept(middle, end),
    ensures
        velocities_kept(start, start),
        velocities_kept(start, end),
{
    assert forall|p: int| 0 <= p < start.len() implies (#[trigger] end[p]).velocity == start[p].velocity by {
        assert(middle[p].velocity == start[p].velocity);
    }
}

/// Where the centres of two bodies coincide no direction can be told, and
/// nothing is changed: no relaxation moves an end, and no resolution of a
/// contact gives an impulse or shifts a body.
pub proof fn lemma_coincident_points_are_left_alone(first: Point, second: Point, approaching: bool)
    ensures
        relaxation(first, second, true) == (Relaxation { move_first: false, move_second: false }),
        resolution(first, second, Contact::of(true, true, approaching)) == Response::nothing(),
        collision_response(first, second, Contact::of(true, true, approaching)) == Response::nothing(),
{
}

/// Bodies that are clear of each other are not in contact, and nothing is
/// changed.
pub proof fn lemma_clear_bodies_are_left_alone(first: Point, second: Point, coincident: bool, approaching: bool)
    ensures
        resolution(first, second, Contact::of(false, coincident, approaching)) == Response::nothing(),
        collision_response(first, second, Contact::of(false, coincident, approaching)) == Response::nothing(),
{
}

} // verus!
