use vstd::prelude::*;
use crate::objects::point::Point;

verus! {

/// What the demonstration scene does about one pair of points in the
/// collision stage.
#[derive(Clone, Copy, Debug, PartialEq, Eq, Structural)]
pub struct Handling {
    /// The pair counts as a collision of this frame and is handed on to be
    /// resolved.
    pub resolve: bool,
    /// The first point is pushed away from the second and slowed down.
    pub push_first: bool,
    /// The second point is pushed away from the first and slowed down.
    pub push_second: bool,
}

/// How the demonstration scene handles a pair. `near` says that the centres
/// are closer than the sum of the radii and a margin, `deep` that they are
/// closer than the sum of the radii less a margin, `coincident` that they are
/// on one spot. A near pair is resolved. A deep pair is first pushed apart, as
/// far as a direction can be told and the points can move.
pub open spec fn handling(first: Point, second: Point, near: bool, deep: bool, coincident: bool) -> Handling {
    Handling {
        resolve: near,
        push_first: near && deep && !coincident && first.movable(),
        push_second: near && deep && !coincident && second.movable(),
    }
}

/// Decides how the demonstration scene handles a pair.
pub fn handle_pair(first: &Point, second: &Point, near: bool, deep: bool, coincident: bool) -> (plan: Handling)
    ensures
        plan == handling(*first, *second, near, deep, coincident),
{
    let push: bool = near && deep && !coincident;
    Handling { resolve: near, push_first: push && first.is_movable(), push_second: push && second.is_movable() }
}

/// How many times the demonstration scene relaxes every constraint in a frame.
pub const RELAXATION_PASSES: usize = 8;

/// The stages of one frame. Each stage is finished for every point,
/// constraint or pair before the next begins.
#[derive(Clone, Copy, Debug, PartialEq, Eq, Structural)]
pub enum Phase {
    /// Forces that were meant for one tick are cleared and the forces that the
    /// input asks for are attached.
    Forces,
    /// Every point runs its behaviours.
    Behaviours,
    /// Every point is integrated.
    Integrate,
    /// Every constraint is relaxed once; the number counts the passes that
    /// came before this one in the frame.
    Relax(usize),
    /// Every pair of points is tested for contact and resolved.
    Collide,
    /// The scene is drawn and the frame presented.
    Render,
}

impl Phase {
    /// The stage that follows this one in a simulation that relaxes its
    /// constraints `passes` times a frame. After the last stage of a frame
    /// comes the first stage of the next.
    pub open spec fn after(self, passes: nat) -> Phase {
        match self {
            Phase::Forces => Phase::Behaviours,
            Phase::Behaviours => Phase::Integrate,
            Phase::Integrate => if passes > 0 {
                Phase::Relax(0)
            } else {
                Phase::Collide
            },
            Phase::Relax(done) => if done + 1 < passes {
                Phase::Relax((done + 1) as usize)
            } else {
                Phase::Collide
            },
            Phase::Collide => Phase::Render,
            Phase::Render => Phase::Forces,
        }
    }

    /// The stage with which every frame begins.
    pub fn first() -> (phase: Phase)
        ensures
            phase == Phase::Forces,
    {
        Phase::Forces
    }

    /// Moves on to the following stage.
    pub fn next(self, passes: usize) -> (phase: Phase)
        ensures
            phase == self.after(passes as nat),
    {
        match self {
            Phase::Forces => Phase::Behaviours,
            Phase::Behaviours => Phase::Integrate,
            Phase::Integrate => if passes > 0 {
                Phase::Relax(0)
            } else {
                Phase::Collide
            },
            Phase::Relax(done) => if done < passes && done + 1 < passes {
                Phase::Relax(done + 1)
            } else {
                Phase::Collide
            },
            Phase::Collide => Phase::Render,
            Phase::Render => Phase::Forces,
        }
    }
}

/// The stages of one whole frame, in order.
pub open spec fn frame(passes: nat) -> Seq<Phase> {
    seq![Phase::Forces, Phase::Behaviours, Phase::Integrate] + Seq::new(passes, |k: int| Phase::Relax(k as usize))
        + seq![Phase::Collide, Phase::Render]
}

/// Going from stage to stage walks through the frame in order: forces,
/// behaviours, integration, exactly `passes` relaxations, collisions,
/// rendering; then the next frame begins.
pub proof fn lemma_frame_order(passes: nat, k: int)
    requires
        passes <= usize::MAX,
        0 <= k < passes + 5,
    ensures
        frame(passes).len() == passes + 5,
        frame(passes)[0] == Phase::Forces,
        k + 1 < passes + 5 ==> frame(passes)[k].after(passes) == frame(passes)[k + 1],
        k + 1 == passes + 5 ==> frame(passes)[k].after(passes) == Phase::Forces,
{
}

/// Whether `pair` names two different points of a collection of `points`
/// points, the lower place first.
pub open spec fn is_pair(points: usize, pair: (usize, usize)) -> bool {
    pair.0 < pair.1 < points
}

/// The order in which pairs are visited: by the first point, then by the
/// second.
pub open spec fn precedes(a: (usize, usize), b: (usize, usize)) -> bool {
    a.0 < b.0 || (a.0 == b.0 && a.1 < b.1)
}

/// The pair that is visited after `pair`, if any.
pub open spec fn successor(points: usize, pair: (usize, usize)) -> Option<(usize, usize)> {
    if !is_pair(points, pair) {
        None
    } else if pair.1 + 1 < points {
        Some((pair.0, (pair.1 + 1) as usize))
    } else if pair.0 + 2 < points {
        Some(((pair.0 + 1) as usize, (pair.0 + 2) as usize))
    } else {
        None
    }
}

/// The pair that a frame tests first: the first two points, where there are
/// two.
pub fn first_pair(points: usize) -> (first: Option<(usize, usize)>)
    ensures
        first == if points >= 2 {
            Some((0usize, 1usize))
        } else {
            None
        },
{
    if points >= 2 {
        Some((0, 1))
    } else {
        None
    }
}

/// The pair that a frame tests after `pair`. Nothing follows the last pair, nor
/// a pair that is none of the collection.
pub fn next_pair(points: usize, pair: (usize, usize)) -> (next: Option<(usize, usize)>)
    ensures
        next == successor(points, pair),
{
    if !(pair.0 < pair.1 && pair.1 < points) {
        None
    } else if pair.1 + 1 < points {
        Some((pair.0, pair.1 + 1))
    } else if pair.0 + 2 < points {
        Some((pair.0 + 1, pair.0 + 2))
    } else {
        None
    }
}

/// The first pair is a pair, and no pair comes before it. Where there is no
/// first pair, there is no pair at all.
pub proof fn lemma_first_pair(points: usize, other: (usize, usize))
    requires
        is_pair(points, other),
    ensures
        points >= 2,
        is_pair(points, (0usize, 1usize)),
        !precedes(other, (0usize, 1usize)),
{
}

/// The walk from pair to pair leaves no pair out and comes to none twice: what
/// follows a pair is the very next pair in the order of visiting, and where
/// nothing follows, no pair is left.
pub proof fn lemma_successor_is_next(points: usize, pair: (usize, usize), other: (usize, usize))
    requires
        is_pair(points, pair),
        is_pair(points, other),
    ensures
        match successor(points, pair) {
            Some(next) => {
                &&& is_pair(points, next)
                &&& precedes(pair, next)
                &&& !(precedes(pair, other) && precedes(other, next))
            },
            None => !precedes(pair, other),
        },
{
}

/// The number of pairs whose first point stands before place `row`, in a
/// collection of `points` points: the point at place `i` is the first of as
/// many pairs as there are points behind it.
pub open spec fn pairs_before_row(points: usize, row: nat) -> nat
    decreases row,
{
    if row == 0 {
        0
    } else {
        (pairs_before_row(points, (row - 1) as nat) + (points - row)) as nat
    }
}

/// The number of pairs that are visited before `pair`.
pub open spec fn rank(points: usize, pair: (usize, usize)) -> nat {
    (pairs_before_row(points, pair.0 as nat) + (pair.1 - pair.0 - 1)) as nat
}

/// The number of pairs of `points` points.
pub open spec fn pair_count(points: usize) -> nat {
    pairs_before_row(points, points as nat)
}

/// Twice the number of pairs before a row, in closed form.
pub proof fn lemma_pairs_before_row(points: usize, row: nat)
    requires
        row <= points,
    ensures
        2 * pairs_before_row(points, row) == row * (2 * points - row - 1),
        row < points ==> pairs_before_row(points, row + 1) == pairs_before_row(points, row) + (points - row - 1),
    decreases row,
{
    if row > 0 {
        lemma_pairs_before_row(points, (row - 1) as nat);
        assert(row * (2 * points - row - 1) == (row - 1) * (2 * points - (row - 1) - 1) + 2 * (points - row))
            by (nonlinear_arith);
    } else {
        assert(0 * (2 * points - 0 - 1) == 0) by (nonlinear_arith);
    }
    if row < points {
        assert(pairs_before_row(points, row + 1) == pairs_before_row(points, ((row + 1) - 1) as nat) + (points - (
        row + 1)));
    }
}

/// The number of pairs grows with the row.
pub proof fn lemma_pairs_before_row_grows(points: usize, low: nat, high: nat)
    requires
        low <= high <= points,
    ensures
        pairs_before_row(points, low) <= pairs_before_row(points, high),
    decreases high - low,
{
    if low < high {
        lemma_pairs_before_row_grows(points, low, (high - 1) as nat);
    }
}

/// A frame tests every pair of points exactly once: `n` points make
/// `n * (n - 1) / 2` pairs; the walk begins with the pair that has none before
/// it; each step comes to the pair that has one more before it; and the walk
/// ends with the pair that has all others before it, and only there.
pub proof fn lemma_walk_counts_the_pairs(points: usize, pair: (usize, usize))
    requires
        is_pair(points, pair),
    ensures
        2 * pair_count(points) == points * (points - 1),
        rank(points, (0usize, 1usize)) == 0,
        rank(points, pair) < pair_count(points),
        successor(points, pair) matches Some(next) ==> rank(points, next) == rank(points, pair) + 1,
        successor(points, pair) is None <==> rank(points, pair) + 1 == pair_count(points),
{
    lemma_pairs_before_row(points, points as nat);
    assert(points * (2 * points - points - 1) == points * (points - 1)) by (nonlinear_arith);
    lemma_pairs_before_row(points, pair.0 as nat);
    lemma_pairs_before_row_grows(points, (pair.0 + 1) as nat, points as nat);
    lemma_pairs_before_row(points, (points - 1) as nat);
    assert(pairs_before_row(points, points as nat) == pairs_before_row(points, (points - 1) as nat));
    if pair.1 + 1 < points {
    } else if pair.0 + 2 < points {
        lemma_pairs_before_row(points, (pair.0 + 1) as nat);
        lemma_pairs_before_row_grows(points, (pair.0 + 2) as nat, points as nat);
    } else {
        lemma_pairs_before_row(points, (points - 2) as nat);
    }
}

} // verus!
