use vstd::prelude::*;
use crate::basics::collision::Contact;
use crate::basics::collision::Response;
use crate::objects::constraint::relaxation;
use crate::objects::constraint::Constraint;
use crate::objects::point::resolution;
use crate::objects::point::Point;
use crate::simulation::handle_pair;
use crate::simulation::handling;
use crate::simulation::Handling;

verus! {

/// A point as a scene keeps it: what decides whether it may be moved, where
/// it is, how it moves, and its body, which is whatever else the caller keeps
/// of it. Position and velocity are vectors of the caller's.
pub struct Entry<V, B> {
    pub point: Point,
    pub position: V,
    pub velocity: V,
    pub body: B,
}

/// A constraint as a scene keeps it: the two ends, and what the caller knows
/// of it besides.
pub struct Link<L> {
    pub ends: Constraint,
    pub data: L,
}

impl<L> Link<L> {
    /// The same constraint between points that stand `base` places further on.
    pub open spec fn shifted(self, base: nat) -> Link<L> {
        Link { ends: self.ends.shifted(base), data: self.data }
    }
}

/// What a step has written to one point: each part is what the borrower left
/// of it, or nothing, where the part was not handed out.
pub struct Written<V, B> {
    pub position: Option<V>,
    pub velocity: Option<V>,
    pub body: Option<B>,
}

/// The points after a step wrote to the point at `place`: every part that was
/// handed out is what the borrower left of it, every other part is as it was.
/// Whether the point may be moved stays as it was.
pub open spec fn after_write<V, B>(points: Seq<Entry<V, B>>, place: int, written: Written<V, B>) -> Seq<
    Entry<V, B>,
> {
    points.update(
        place,
        Entry {
            point: points[place].point,
            position: match written.position {
                Some(position) => position,
                None => points[place].position,
            },
            velocity: match written.velocity {
                Some(velocity) => velocity,
                None => points[place].velocity,
            },
            body: match written.body {
                Some(body) => body,
                None => points[place].body,
            },
        },
    )
}

/// The points after a step wrote to the points at two places: to the
/// velocity and the position of the first, then to those of the second.
pub open spec fn after_writes<V, B>(
    points: Seq<Entry<V, B>>,
    first: int,
    second: int,
    written: (Option<V>, Option<V>, Option<V>, Option<V>),
) -> Seq<Entry<V, B>> {
    after_write(
        after_write(points, first, Written { velocity: written.0, position: written.1, body: None }),
        second,
        Written { velocity: written.2, position: written.3, body: None },
    )
}

/// Whether every point that cannot move is in `after` as it was in `before`,
/// and every point may be moved in `after` if and only if it might before.
pub open spec fn anchors_kept<V, B>(before: Seq<Entry<V, B>>, after: Seq<Entry<V, B>>) -> bool {
    &&& after.len() == before.len()
    &&& forall|p: int| 0 <= p < before.len() ==> (#[trigger] after[p]).point == before[p].point
    &&& forall|p: int| 0 <= p < before.len() && !before[p].point.movable() ==> #[trigger] after[p] == before[p]
}

/// Whether every point has in `after` the velocity that it had in `before`.
pub open spec fn velocities_kept<V, B>(before: Seq<Entry<V, B>>, after: Seq<Entry<V, B>>) -> bool {
    &&& after.len() == before.len()
    &&& forall|p: int| 0 <= p < before.len() ==> (#[trigger] after[p]).velocity == before[p].velocity
}

/// Whether every one of `links` joins two different points of a collection of
/// `len` points.
pub open spec fn all_fit<L>(links: Seq<Link<L>>, len: nat) -> bool {
    forall|k: int| 0 <= k < links.len() ==> (#[trigger] links[k]).ends.fits(len)
}

/// The points and constraints of one simulation. The scene owns both, and
/// every constraint in it joins two different points of it: a constraint that
/// would not is never let in, and points only ever come in behind those that
/// are there, so that a place, once given, stays good.
///
/// The scene also keeps watch over who writes what. For each step of the
/// physics it hands out just the parts of just the points that the step may
/// change: nothing of a point that cannot move, no velocity where no impulse
/// is due.
pub struct Scene<V, B, L> {
    points: Vec<Entry<V, B>>,
    links: Vec<Link<L>>,
}

impl<V, B, L> Scene<V, B, L> {
    /// The points, in the order in which they came in.
    pub closed spec fn points(self) -> Seq<Entry<V, B>> {
        self.points@
    }

    /// The constraints, in the order in which they came in.
    pub closed spec fn links(self) -> Seq<Link<L>> {
        self.links@
    }

    /// What holds of every scene: each constraint joins two different points
    /// of it.
    pub open spec fn sound(self) -> bool {
        all_fit(self.links(), self.points().len())
    }

    /// Whether `first` and `second` are the places of two different points.
    pub open spec fn is_pair(self, first: usize, second: usize) -> bool {
        (Constraint { point1: first, point2: second }).fits(self.points().len())
    }

    /// An empty scene.
    pub fn new() -> (scene: Scene<V, B, L>)
        ensures
            scene.sound(),
            scene.points() == Seq::<Entry<V, B>>::empty(),
            scene.links() == Seq::<Link<L>>::empty(),
    {
        Scene { points: Vec::new(), links: Vec::new() }
    }

    pub fn point_count(&self) -> (count: usize)
        ensures
            count == self.points().len(),
    {
        self.points.len()
    }

    pub fn constraint_count(&self) -> (count: usize)
        ensures
            count == self.links().len(),
    {
        self.links.len()
    }

    /// Takes a point in and says at which place it stands.
    pub fn add_point(&mut self, entry: Entry<V, B>) -> (place: usize)
        requires
            old(self).sound(),
        ensures
            final(self).sound(),
            place == old(self).points().len(),
            final(self).points() == old(self).points().push(entry),
            final(self).links() == old(self).links(),
    {
        let place: usize = self.points.len();
        self.points.push(entry);
        place
    }

    /// Takes a constraint in, if it joins two different points of the scene,
    /// and says at which place it stands. One that does not is handed back.
    pub fn add_constraint(&mut self, ends: Constraint, data: L) -> (outcome: Result<usize, L>)
        requires
            old(self).sound(),
        ensures
            final(self).sound(),
            final(self).points() == old(self).points(),
            match outcome {
                Ok(place) => {
                    &&& ends.fits(old(self).points().len())
                    &&& place == old(self).links().len()
                    &&& final(self).links() == old(self).links().push(Link { ends, data })
                },
                Err(back) => {
                    &&& !ends.fits(old(self).points().len())
                    &&& back == data
                    &&& final(self).links() == old(self).links()
                },
            },
    {
        let len: usize = self.points.len();
        if ends.point1 < len && ends.point2 < len && ends.point1 != ends.point2 {
            let place: usize = self.links.len();
            self.links.push(Link { ends, data });
            Ok(place)
        } else {
            Err(data)
        }
    }

    /// Takes a whole shape in: its points, and its constraints, whose ends
    /// are places among the shape's own points. The points come in behind
    /// those that are there, and each constraint is moved on by as many places,
    /// so that it joins in the scene the points that it joined in the shape.
    /// The result is the place of the shape's first point. A shape with a
    /// constraint that does not join two different points of it, or with more
    /// points than the scene can still count, is handed back as it came.
    pub fn add_shape(&mut self, points: Vec<Entry<V, B>>, links: Vec<Link<L>>) -> (outcome: Result<
        usize,
        (Vec<Entry<V, B>>, Vec<Link<L>>),
    >)
        requires
            old(self).sound(),
        ensures
            final(self).sound(),
            outcome.is_ok() == (all_fit(links@, points@.len()) && old(self).points().len() + points@.len()
                <= usize::MAX),
            match outcome {
                Ok(base) => {
                    &&& base == old(self).points().len()
                    &&& final(self).points() == old(self).points() + points@
                    &&& final(self).links() == old(self).links() + links@.map_values(
                        |l: Link<L>| l.shifted(base as nat),
                    )
                },
                Err(back) => {
                    &&& back.0 == points
                    &&& back.1 == links
                    &&& final(self).points() == old(self).points()
                    &&& final(self).links() == old(self).links()
                },
            },
    {
        let base: usize = self.points.len();
        let count: usize = points.len();
        if count > usize::MAX - base {
            return Err((points, links));
        }
        let mut k: usize = 0;
        while k < links.len()
            invariant
                *self == *old(self),
                self.sound(),
                count == points@.len(),
                forall|j: int| 0 <= j < k ==> (#[trigger] links@[j]).ends.fits(count as nat),
            decreases links@.len() - k,
        {
            let ends: Constraint = links[k].ends;
            if !(ends.point1 < count && ends.point2 < count && ends.point1 != ends.point2) {
                return Err((points, links));
            }
            k += 1;
        }
        let ghost came = points@;
        let mut points = points;
        self.points.append(&mut points);
        assert(self.points@ == old(self).points@ + came);
        let ghost before = self.links@;
        let ghost shift = |l: Link<L>| l.shifted(base as nat);
        proof {
            assert(links@.take(0).map_values(shift) =~= Seq::<Link<L>>::empty());
            assert(before + Seq::<Link<L>>::empty() =~= before);
        }
        for link in it: links
            invariant
                it.seq() == links@,
                base + count <= usize::MAX,
                self.points@.len() == base + count,
                self.points@ == old(self).points@ + came,
                before == old(self).links@,
                all_fit(before, base as nat),
                all_fit(links@, count as nat),
                shift == |l: Link<L>| l.shifted(base as nat),
                self.links@ == before + links@.take(it.index()).map_values(shift),
        {
            assert(link == links@[it.index()]);
            assert(link.ends.fits(count as nat));
            let ends: Constraint = Constraint::new(link.ends.point1 + base, link.ends.point2 + base);
            self.links.push(Link { ends, data: link.data });
            proof {
                assert(Link { ends, data: link.data } == shift(link));
                assert(links@.take(it.index() + 1).map_values(shift) =~= links@.take(it.index()).map_values(
                    shift,
                ).push(shift(link)));
                assert(self.links@ =~= before + links@.take(it.index() + 1).map_values(shift));
            }
        }
        proof {
            assert(links@.take(links@.len() as int) =~= links@);
            assert(links@.map_values(shift) =~= links@.map_values(|l: Link<L>| l.shifted(base as nat)));
            assert forall|j: int| 0 <= j < self.links@.len() implies (#[trigger] self.links@[j]).ends.fits(
                self.points@.len(),
            ) by {
                if j >= before.len() {
                    assert(self.links@[j] == shift(links@[j - before.len()]));
                    assert(links@[j - before.len()].ends.fits(count as nat));
                } else {
                    assert(self.links@[j] == before[j]);
                }
            }
        }
        Ok(base)
    }

    /// The point at `place`, if there is one.
    pub fn point(&self, place: usize) -> (entry: Option<&Entry<V, B>>)
        ensures
            entry == if place < self.points().len() {
                Some(&self.points()[place as int])
            } else {
                None
            },
    {
        if place < self.points.len() {
            Some(&self.points[place])
        } else {
            None
        }
    }

    /// The point at `place`, to be changed at will, if there is one. This is
    /// for what is no step of the physics: a behaviour that runs on its owner, a
    /// point that is fixed in place or let go, a colour to be set.
    pub fn point_mut(&mut self, place: usize) -> (entry: Option<&mut Entry<V, B>>)
        requires
            old(self).sound(),
        ensures
            final(self).sound(),
            final(self).links() == old(self).links(),
            entry.is_some() == (place < old(self).points().len()),
            match entry {
                Some(e) => {
                    &&& *e == old(self).points()[place as int]
                    &&& final(self).points() == old(self).points().update(place as int, *final(e))
                },
                None => final(self).points() == old(self).points(),
            },
    {
        if place < self.points.len() {
            Some(&mut self.points[place])
        } else {
            None
        }
    }

    /// The constraint at place `k`, if there is one.
    pub fn link(&self, k: usize) -> (link: Option<&Link<L>>)
        ensures
            link == if k < self.links().len() {
                Some(&self.links()[k as int])
            } else {
                None
            },
    {
        if k < self.links.len() {
            Some(&self.links[k])
        } else {
            None
        }
    }

    /// The constraint at place `k` with both its ends, the first end first, to
    /// be measured. Every constraint of the scene has two ends; only a place
    /// that holds no constraint gives nothing.
    pub fn ends(&self, k: usize) -> (parts: Option<(&Link<L>, &Entry<V, B>, &Entry<V, B>)>)
        requires
            self.sound(),
        ensures
            parts.is_some() == (k < self.links().len()),
            parts matches Some((link, first, second)) ==> {
                &&& *link == self.links()[k as int]
                &&& link.ends.fits(self.points().len())
                &&& *first == self.points()[link.ends.point1 as int]
                &&& *second == self.points()[link.ends.point2 as int]
            },
    {
        if k >= self.links.len() {
            return None;
        }
        let link = &self.links[k];
        assert(link.ends.fits(self.points@.len()));
        Some((link, &self.points[link.ends.point1], &self.points[link.ends.point2]))
    }

    /// The points at two places, to be measured against each other. Two places
    /// that are the same, or hold no point, give nothing.
    pub fn pair(&self, first: usize, second: usize) -> (pair: Option<(&Entry<V, B>, &Entry<V, B>)>)
        ensures
            pair.is_some() == self.is_pair(first, second),
            pair matches Some((a, b)) ==> *a == self.points()[first as int] && *b == self.points()[second as int],
    {
        let len: usize = self.points.len();
        if first < len && second < len && first != second {
            Some((&self.points[first], &self.points[second]))
        } else {
            None
        }
    }

    /// Hands out the point at `place` to be integrated, if a tick integrates
    /// it: if there is such a point and it can move. What is handed out is its
    /// position, its velocity and its body, in this order.
    pub fn update(&mut self, place: usize) -> (parts: Option<(&mut V, &mut V, &mut B)>)
        requires
            old(self).sound(),
        ensures
            final(self).sound(),
            final(self).links() == old(self).links(),
            anchors_kept(old(self).points(), final(self).points()),
            parts.is_some() == (place < old(self).points().len() && old(self).points()[place as int].point.movable()),
            match parts {
                Some((position, velocity, body)) => {
                    &&& *position == old(self).points()[place as int].position
                    &&& *velocity == old(self).points()[place as int].velocity
                    &&& *body == old(self).points()[place as int].body
                    &&& final(self).points() == after_write(
                        old(self).points(),
                        place as int,
                        Written {
                            position: Some(*final(position)),
                            velocity: Some(*final(velocity)),
                            body: Some(*final(body)),
                        },
                    )
                },
                None => final(self).points() == old(self).points(),
            },
    {
        if place < self.points.len() {
            let entry = &mut self.points[place];
            if entry.point.update() {
                Some((&mut entry.position, &mut entry.velocity, &mut entry.body))
            } else {
                None
            }
        } else {
            None
        }
    }

    /// Hands out, of the points at two places, the velocity where an impulse
    /// is due and the position where a shift is due, as the response says and
    /// as far as the point can move: the velocity and the position of the first
    /// point, then those of the second.
    fn grant(&mut self, first: usize, second: usize, response: Response) -> (parts: (
        Option<&mut V>,
        Option<&mut V>,
        Option<&mut V>,
        Option<&mut V>,
    ))
        requires
            old(self).sound(),
        ensures
            final(self).sound(),
            final(self).links() == old(self).links(),
            anchors_kept(old(self).points(), final(self).points()),
            response.keeps_velocities() ==> velocities_kept(old(self).points(), final(self).points()),
            !old(self).is_pair(first, second) ==> parts.0.is_none() && parts.1.is_none() && parts.2.is_none()
                && parts.3.is_none() && final(self).points() == old(self).points(),
            old(self).is_pair(first, second) ==> {
                let one = old(self).points()[first as int];
                let other = old(self).points()[second as int];
                &&& parts.0.is_some() == (response.impulse_first && one.point.movable())
                &&& parts.1.is_some() == (response.shift_first && one.point.movable())
                &&& parts.2.is_some() == (response.impulse_second && other.point.movable())
                &&& parts.3.is_some() == (response.shift_second && other.point.movable())
                &&& parts.0 matches Some(v) ==> *v == one.velocity
                &&& parts.1 matches Some(x) ==> *x == one.position
                &&& parts.2 matches Some(v) ==> *v == other.velocity
                &&& parts.3 matches Some(x) ==> *x == other.position
                &&& final(self).points() == after_writes(
                    old(self).points(),
                    first as int,
                    second as int,
                    (
                        match parts.0 {
                            Some(v) => Some(*final(v)),
                            None => None,
                        },
                        match parts.1 {
                            Some(x) => Some(*final(x)),
                            None => None,
                        },
                        match parts.2 {
                            Some(v) => Some(*final(v)),
                            None => None,
                        },
                        match parts.3 {
                            Some(x) => Some(*final(x)),
                            None => None,
                        },
                    ),
                )
            },
    {
        match Constraint::new(first, second).ends_mut(&mut self.points) {
            Some((a, b)) => {
                let first_moves: bool = a.point.is_movable();
                let second_moves: bool = b.point.is_movable();
                let velocity_first: Option<&mut V> = if response.impulse_first && first_moves {
                    Some(&mut a.velocity)
                } else {
                    None
                };
                let position_first: Option<&mut V> = if response.shift_first && first_moves {
                    Some(&mut a.position)
                } else {
                    None
                };
                let velocity_second: Option<&mut V> = if response.impulse_second && second_moves {
                    Some(&mut b.velocity)
                } else {
                    None
                };
                let position_second: Option<&mut V> = if response.shift_second && second_moves {
                    Some(&mut b.position)
                } else {
                    None
                };
                (velocity_first, position_first, velocity_second, position_second)
            },
            None => (None, None, None, None),
        }
    }

    /// Relaxes the constraint at place `k` once: hands out the positions of
    /// the ends that the relaxation moves, the first end first. `coincident`
    /// says that the caller measured a distance of exactly zero between the
    /// ends. A place that holds no constraint hands out nothing. No velocity is
    /// changed.
    pub fn solve(&mut self, k: usize, coincident: bool) -> (positions: (Option<&mut V>, Option<&mut V>))
        requires
            old(self).sound(),
        ensures
            final(self).sound(),
            final(self).links() == old(self).links(),
            anchors_kept(old(self).points(), final(self).points()),
            velocities_kept(old(self).points(), final(self).points()),
            k >= old(self).links().len() ==> positions.0.is_none() && positions.1.is_none() && final(self).points()
                == old(self).points(),
            k < old(self).links().len() ==> {
                let ends = old(self).links()[k as int].ends;
                let first = old(self).points()[ends.point1 as int];
                let second = old(self).points()[ends.point2 as int];
                let moves = relaxation(first.point, second.point, coincident);
                &&& ends.fits(old(self).points().len())
                &&& positions.0.is_some() == moves.move_first
                &&& positions.1.is_some() == moves.move_second
                &&& positions.0 matches Some(x) ==> *x == first.position
                &&& positions.1 matches Some(x) ==> *x == second.position
                &&& final(self).points() == after_writes(
                    old(self).points(),
                    ends.point1 as int,
                    ends.point2 as int,
                    (
                    None::<V>,
                    match positions.0 {
                        Some(part) => Some(*final(part)),
                        None => None,
                    },
                    None::<V>,
                    match positions.1 {
                        Some(part) => Some(*final(part)),
                        None => None,
                    },
                ),
                )
            },
    {
        if k >= self.links.len() {
            return (None, None);
        }
        let ends: Constraint = self.links[k].ends;
        assert(ends.fits(self.points@.len()));
        let shift: Response = Response {
            impulse_first: false,
            impulse_second: false,
            shift_first: !coincident,
            shift_second: !coincident,
        };
        let (_, first, _, second) = self.grant(ends.point1, ends.point2, shift);
        (first, second)
    }

    /// Resolves a contact between the points at two places: says what the
    /// resolution changes and hands out just that, the velocity and the
    /// position of the point at `first`, then those of the point at `second`.
    /// Two places that are the same, or hold no point, change nothing.
    pub fn resolve_collision(&mut self, first: usize, second: usize, contact: Contact) -> (outcome: (
        Response,
        Option<&mut V>,
        Option<&mut V>,
        Option<&mut V>,
        Option<&mut V>,
    ))
        requires
            old(self).sound(),
        ensures
            final(self).sound(),
            final(self).links() == old(self).links(),
            anchors_kept(old(self).points(), final(self).points()),
            contact != Contact::Closing ==> velocities_kept(old(self).points(), final(self).points()),
            outcome.0 == if old(self).is_pair(first, second) {
                resolution(old(self).points()[first as int].point, old(self).points()[second as int].point, contact)
            } else {
                Response::nothing()
            },
            outcome.1.is_some() == outcome.0.impulse_first,
            outcome.2.is_some() == outcome.0.shift_first,
            outcome.3.is_some() == outcome.0.impulse_second,
            outcome.4.is_some() == outcome.0.shift_second,
            outcome.1 matches Some(v) ==> *v == old(self).points()[first as int].velocity,
            outcome.2 matches Some(x) ==> *x == old(self).points()[first as int].position,
            outcome.3 matches Some(v) ==> *v == old(self).points()[second as int].velocity,
            outcome.4 matches Some(x) ==> *x == old(self).points()[second as int].position,
            final(self).points() == if old(self).is_pair(first, second) {
                after_writes(
                    old(self).points(),
                    first as int,
                    second as int,
                    (
                    match outcome.1 {
                        Some(part) => Some(*final(part)),
                        None => None,
                    },
                    match outcome.2 {
                        Some(part) => Some(*final(part)),
                        None => None,
                    },
                    match outcome.3 {
                        Some(part) => Some(*final(part)),
                        None => None,
                    },
                    match outcome.4 {
                        Some(part) => Some(*final(part)),
                        None => None,
                    },
                ),
                )
            } else {
                old(self).points()
            },
    {
        let response: Response = match self.pair(first, second) {
            Some((a, b)) => a.point.resolve_collision(&b.point, contact),
            None => Response { impulse_first: false, impulse_second: false, shift_first: false, shift_second: false },
        };
        let (velocity_first, position_first, velocity_second, position_second) = self.grant(first, second, response);
        (response, velocity_first, position_first, velocity_second, position_second)
    }

    /// Handles the pair of points at two places as the demonstration scene
    /// does before it resolves their contact: says whether the pair is to be
    /// resolved, and hands out the points that are first pushed apart and
    /// slowed down, the velocity and the position of the point at `first`, then
    /// those of the point at `second`. Two places that are the same, or hold no
    /// point, are no pair: nothing is resolved and nothing pushed.
    pub fn handle_pair(&mut self, first: usize, second: usize, near: bool, deep: bool, coincident: bool) -> (outcome: (
        Handling,
        Option<&mut V>,
        Option<&mut V>,
        Option<&mut V>,
        Option<&mut V>,
    ))
        requires
            old(self).sound(),
        ensures
            final(self).sound(),
            final(self).links() == old(self).links(),
            anchors_kept(old(self).points(), final(self).points()),
            outcome.0 == if old(self).is_pair(first, second) {
                handling(
                    old(self).points()[first as int].point,
                    old(self).points()[second as int].point,
                    near,
                    deep,
                    coincident,
                )
            } else {
                Handling { resolve: false, push_first: false, push_second: false }
            },
            outcome.1.is_some() == outcome.0.push_first,
            outcome.2.is_some() == outcome.0.push_first,
            outcome.3.is_some() == outcome.0.push_second,
            outcome.4.is_some() == outcome.0.push_second,
            outcome.1 matches Some(v) ==> *v == old(self).points()[first as int].velocity,
            outcome.2 matches Some(x) ==> *x == old(self).points()[first as int].position,
            outcome.3 matches Some(v) ==> *v == old(self).points()[second as int].velocity,
            outcome.4 matches Some(x) ==> *x == old(self).points()[second as int].position,
            final(self).points() == if old(self).is_pair(first, second) {
                after_writes(
                    old(self).points(),
                    first as int,
                    second as int,
                    (
                    match outcome.1 {
                        Some(part) => Some(*final(part)),
                        None => None,
                    },
                    match outcome.2 {
                        Some(part) => Some(*final(part)),
                        None => None,
                    },
                    match outcome.3 {
                        Some(part) => Some(*final(part)),
                        None => None,
                    },
                    match outcome.4 {
                        Some(part) => Some(*final(part)),
                        None => None,
                    },
                ),
                )
            } else {
                old(self).points()
            },
    {
        let plan: Handling = match self.pair(first, second) {
            Some((a, b)) => handle_pair(&a.point, &b.point, near, deep, coincident),
            None => Handling { resolve: false, push_first: false, push_second: false },
        };
        let push: Response = Response {
            impulse_first: plan.push_first,
            impulse_second: plan.push_second,
            shift_first: plan.push_first,
            shift_second: plan.push_second,
        };
        let (velocity_first, position_first, velocity_second, position_second) = self.grant(first, second, push);
        (plan, velocity_first, position_first, velocity_second, position_second)
    }
}

} // verus!
