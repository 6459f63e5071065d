use vstd::prelude::*;
use crate::basics::ComponentKind;
use crate::objects::constraint::Constraint;

verus! {

/// The make-up of a shape: how many points it has, what each of them carries
/// and which pairs of them are constrained. Where the points lie, and how long
/// each constraint is at rest, the caller works out from the shape's centre and
/// size.
pub struct Shape {
    /// The number of points; they are numbered from zero in the order in which
    /// they are laid out.
    pub points: usize,
    /// Whether every point of the shape is fixed in place.
    pub fixed: bool,
    /// The behaviours that each point carries, in the order of attachment.
    pub components: Vec<ComponentKind>,
    /// The constraints, in the order of creation.
    pub constraints: Vec<Constraint>,
}

impl Shape {
    /// Whether every constraint joins two different points of the shape.
    pub open spec fn holds_together(self) -> bool {
        forall|k: int| 0 <= k < self.constraints@.len() ==> (#[trigger] self.constraints@[k]).fits(self.points as nat)
    }
}

/// The place after `i` on a ring of `n` places.
pub open spec fn following(i: int, n: int) -> int {
    (i + 1) % n
}

/// The place opposite `i` on a ring of `n` places.
pub open spec fn opposite(i: int, n: int) -> int {
    (i + n / 2) % n
}

/// The constraints along the perimeter of `n` points: each point to the next,
/// the last back to the first.
pub open spec fn perimeter_of(n: nat) -> Seq<Constraint> {
    Seq::new(n, |i: int| Constraint { point1: i as usize, point2: following(i, n as int) as usize })
}

/// The cross-braces of `n` points: each point to the one opposite.
pub open spec fn braces_of(n: nat) -> Seq<Constraint> {
    Seq::new(n, |i: int| Constraint { point1: i as usize, point2: opposite(i, n as int) as usize })
}

/// The constraints of an open chain of `n` points: each point to the next.
pub open spec fn chain_of(n: nat) -> Seq<Constraint> {
    if n == 0 {
        Seq::empty()
    } else {
        Seq::new((n - 1) as nat, |i: int| Constraint { point1: i as usize, point2: (i + 1) as usize })
    }
}

/// The behaviours of a body that falls, slows down and collides.
pub open spec fn full_physics() -> Seq<ComponentKind> {
    seq![ComponentKind::Gravity, ComponentKind::Friction, ComponentKind::Collision]
}

/// Builds the perimeter constraints of `n` points.
pub fn perimeter(n: usize) -> (constraints: Vec<Constraint>)
    ensures
        constraints@ == perimeter_of(n as nat),
        n != 1 ==> forall|k: int| 0 <= k < n ==> (#[trigger] constraints@[k]).fits(n as nat),
{
    let mut constraints: Vec<Constraint> = Vec::new();
    let mut i: usize = 0;
    while i < n
        invariant
            i <= n,
            constraints@.len() == i,
            forall|k: int| 0 <= k < i ==> #[trigger] constraints@[k] == perimeter_of(n as nat)[k],
        decreases n - i,
    {
        let next: usize = if i == n - 1 { 0 } else { i + 1 };
        assert(next == following(i as int, n as int)) by {
            lemma_following(i as int, n as int);
        }
        constraints.push(Constraint::new(i, next));
        i += 1;
    }
    assert(constraints@ =~= perimeter_of(n as nat));
    assert forall|k: int| 0 <= k < n && n != 1 implies (#[trigger] constraints@[k]).fits(n as nat) by {
        lemma_following(k, n as int);
    }
    constraints
}

/// Builds the cross-braces of `n` points.
pub fn cross_braces(n: usize) -> (constraints: Vec<Constraint>)
    ensures
        constraints@ == braces_of(n as nat),
        n != 1 ==> forall|k: int| 0 <= k < n ==> (#[trigger] constraints@[k]).fits(n as nat),
{
    let mut constraints: Vec<Constraint> = Vec::new();
    let half: usize = n / 2;
    let mut i: usize = 0;
    while i < n
        invariant
            i <= n,
            half == n / 2,
            constraints@.len() == i,
            forall|k: int| 0 <= k < i ==> #[trigger] constraints@[k] == braces_of(n as nat)[k],
        decreases n - i,
    {
        let across: usize = if i < n - half { i + half } else { i - (n - half) };
        assert(across == opposite(i as int, n as int)) by {
            lemma_opposite(i as int, n as int);
        }
        constraints.push(Constraint::new(i, across));
        i += 1;
    }
    assert(constraints@ =~= braces_of(n as nat));
    assert forall|k: int| 0 <= k < n && n != 1 implies (#[trigger] constraints@[k]).fits(n as nat) by {
        lemma_opposite(k, n as int);
    }
    constraints
}

/// Builds the constraints of an open chain of `n` points.
pub fn chain(n: usize) -> (constraints: Vec<Constraint>)
    ensures
        constraints@ == chain_of(n as nat),
        forall|k: int| 0 <= k < constraints@.len() ==> (#[trigger] constraints@[k]).fits(n as nat),
{
    let mut constraints: Vec<Constraint> = Vec::new();
    if n == 0 {
        assert(constraints@ =~= chain_of(n as nat));
        return constraints;
    }
    let mut i: usize = 0;
    while i < n - 1
        invariant
            n >= 1,
            i <= n - 1,
            constraints@.len() == i,
            forall|k: int| 0 <= k < i ==> #[trigger] constraints@[k] == chain_of(n as nat)[k],
        decreases n - i,
    {
        constraints.push(Constraint::new(i, i + 1));
        i += 1;
    }
    assert(constraints@ =~= chain_of(n as nat));
    constraints
}

/// The constraints of a square: its four sides, then its two diagonals.
pub open spec fn square_of() -> Seq<Constraint> {
    perimeter_of(4) + seq![Constraint { point1: 0, point2: 2 }, Constraint { point1: 1, point2: 3 }]
}

/// The constraints of a closed curve of `n` points: its perimeter, then a
/// brace from each point to the one opposite.
pub open spec fn circle_of(n: nat) -> Seq<Constraint> {
    perimeter_of(n) + braces_of(n)
}

/// The constraints of a regular polygon as the demonstration scene builds it:
/// the perimeter, braced from four sides on.
pub open spec fn polygon_of(sides: nat) -> Seq<Constraint> {
    if sides > 3 {
        perimeter_of(sides) + braces_of(sides)
    } else {
        perimeter_of(sides)
    }
}

fn full_physics_components() -> (components: Vec<ComponentKind>)
    ensures
        components@ == full_physics(),
{
    let mut components: Vec<ComponentKind> = Vec::new();
    components.push(ComponentKind::Gravity);
    components.push(ComponentKind::Friction);
    components.push(ComponentKind::Collision);
    assert(components@ =~= full_physics());
    components
}

/// A triangle: three points, joined along the perimeter.
pub fn create_triangle(fixed: bool) -> (shape: Shape)
    ensures
        shape.points == 3,
        shape.fixed == fixed,
        shape.components@ == full_physics(),
        shape.constraints@ == perimeter_of(3),
        shape.holds_together(),
{
    Shape { points: 3, fixed, components: full_physics_components(), constraints: perimeter(3) }
}

/// A square: four points, joined along the perimeter and across both
/// diagonals.
pub fn create_square(fixed: bool) -> (shape: Shape)
    ensures
        shape.points == 4,
        shape.fixed == fixed,
        shape.components@ == full_physics(),
        shape.constraints@ == square_of(),
        shape.holds_together(),
{
    let mut constraints: Vec<Constraint> = perimeter(4);
    constraints.push(Constraint::new(0, 2));
    constraints.push(Constraint::new(1, 3));
    assert(constraints@ =~= square_of());
    Shape { points: 4, fixed, components: full_physics_components(), constraints }
}

/// A closed curve of `num_points` points, joined along the perimeter and braced
/// from each point to the one opposite. A single point has nothing to be
/// joined to: its constraints join it to itself and fit no collection.
pub fn create_circle(num_points: usize, fixed: bool) -> (shape: Shape)
    ensures
        shape.points == num_points,
        shape.fixed == fixed,
        shape.components@ == full_physics(),
        shape.constraints@ == circle_of(num_points as nat),
        num_points != 1 ==> shape.holds_together(),
{
    let mut constraints: Vec<Constraint> = perimeter(num_points);
    let mut braces: Vec<Constraint> = cross_braces(num_points);
    constraints.append(&mut braces);
    Shape { points: num_points, fixed, components: full_physics_components(), constraints }
}

/// An open line of `num_points` points, each joined to the next. A line that
/// is fixed in place carries no behaviours.
pub fn create_line(num_points: usize, fixed: bool) -> (shape: Shape)
    ensures
        shape.points == num_points,
        shape.fixed == fixed,
        shape.components@ == if fixed {
            Seq::<ComponentKind>::empty()
        } else {
            full_physics()
        },
        shape.constraints@ == chain_of(num_points as nat),
        shape.holds_together(),
{
    let components: Vec<ComponentKind> = if fixed {
        Vec::new()
    } else {
        full_physics_components()
    };
    Shape { points: num_points, fixed, components, constraints: chain(num_points) }
}

/// The behaviours of a body that falls and slows down.
pub open spec fn falling() -> Seq<ComponentKind> {
    seq![ComponentKind::Gravity, ComponentKind::Friction]
}

/// A regular polygon of the demonstration scene: `sides` points, joined along
/// the perimeter and, from four sides on, braced from each point to the one
/// opposite. Its points fall and slow down.
pub fn create_polygon(sides: usize) -> (shape: Shape)
    ensures
        shape.points == sides,
        !shape.fixed,
        shape.components@ == falling(),
        shape.constraints@ == polygon_of(sides as nat),
        sides != 1 ==> shape.holds_together(),
{
    let mut constraints: Vec<Constraint> = perimeter(sides);
    if sides > 3 {
        let mut braces: Vec<Constraint> = cross_braces(sides);
        constraints.append(&mut braces);
    }
    let mut components: Vec<ComponentKind> = Vec::new();
    components.push(ComponentKind::Gravity);
    components.push(ComponentKind::Friction);
    assert(components@ =~= falling());
    Shape { points: sides, fixed: false, components, constraints }
}

/// A slope of the demonstration scene: a fixed chain of `steps` stretches, so
/// of one point more than that. Its points only slow down what slides on them.
pub fn create_slope(steps: usize) -> (shape: Shape)
    requires
        steps < usize::MAX,
    ensures
        shape.points == steps + 1,
        shape.fixed,
        shape.components@ == seq![ComponentKind::Friction],
        shape.constraints@ == chain_of((steps + 1) as nat),
        shape.holds_together(),
{
    let mut components: Vec<ComponentKind> = Vec::new();
    components.push(ComponentKind::Friction);
    assert(components@ =~= seq![ComponentKind::Friction]);
    Shape { points: steps + 1, fixed: true, components, constraints: chain(steps + 1) }
}

/// In a closed curve every point is joined to the point after it and to the
/// point opposite: the constraint at place `i` joins the point `i` to the
/// next, and the constraint `n` places further on joins it to the one
/// opposite.
pub proof fn lemma_circle_joins_neighbours_and_opposites(n: nat, i: int)
    requires
        0 <= i < n <= usize::MAX,
    ensures
        circle_of(n).len() == 2 * n,
        circle_of(n)[i] == (Constraint { point1: i as usize, point2: following(i, n as int) as usize }),
        circle_of(n)[n + i] == (Constraint { point1: i as usize, point2: opposite(i, n as int) as usize }),
        0 <= following(i, n as int) < n,
        0 <= opposite(i, n as int) < n,
{
    lemma_following(i, n as int);
    lemma_opposite(i, n as int);
}

/// On a ring of `n` places, the place after the last is the first, and for two
/// places or more the place after `i` is another place.
pub proof fn lemma_following(i: int, n: int)
    requires
        0 <= i < n,
    ensures
        0 <= following(i, n) < n,
        following(i, n) == if i == n - 1 { 0 } else { i + 1 },
        n >= 2 ==> following(i, n) != i,
{
    if i == n - 1 {
        assert((i + 1) % n == 0) by {
            vstd::arithmetic::div_mod::lemma_mod_self_0(n);
        }
    } else {
        assert((i + 1) % n == i + 1) by {
            vstd::arithmetic::div_mod::lemma_small_mod((i + 1) as nat, n as nat);
        }
    }
}

/// On a ring of `n` places, the place opposite `i` is reached by going half way
/// round, and for two places or more it is another place.
pub proof fn lemma_opposite(i: int, n: int)
    requires
        0 <= i < n,
    ensures
        0 <= opposite(i, n) < n,
        opposite(i, n) == if i < n - n / 2 { i + n / 2 } else { i - (n - n / 2) },
        n >= 2 ==> opposite(i, n) != i,
{
    let h = n / 2;
    if i < n - h {
        assert((i + h) % n == i + h) by {
            vstd::arithmetic::div_mod::lemma_small_mod((i + h) as nat, n as nat);
        }
    } else {
        assert((i + h) % n == i + h - n) by {
            vstd::arithmetic::div_mod::lemma_mod_add_multiples_vanish(i + h - n, n);
            vstd::arithmetic::div_mod::lemma_small_mod((i + h - n) as nat, n as nat);
        }
    }
}

} // verus!
