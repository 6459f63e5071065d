use ruty::basics::collision::Contact;
use ruty::objects::constraint::Constraint;
use ruty::objects::point::Point;
use ruty::objects::shapes::create_square;
use ruty::scene::{Entry, Link, Scene};
use ruty::simulation::{first_pair, next_pair, Phase, RELAXATION_PASSES};

const RESTITUTION: f32 = 0.8;
const CORRECTION_PERCENT: f32 = 0.2;

type Vector = (f32, f32);

#[derive(Clone, Copy, Debug, PartialEq)]
struct Body {
    force: Vector,
    mass: f32,
    radius: f32,
}

type Particle = Entry<Vector, Body>;
type World = Scene<Vector, Body, Spring>;

/// The numbers of one particle: position, velocity and body.
#[derive(Clone, Copy, Debug, PartialEq)]
struct Numbers {
    position: Vector,
    velocity: Vector,
    force: Vector,
    mass: f32,
    radius: f32,
}

fn numbers(particle: &Particle) -> Numbers {
    Numbers {
        position: particle.position,
        velocity: particle.velocity,
        force: particle.body.force,
        mass: particle.body.mass,
        radius: particle.body.radius,
    }
}

#[derive(Clone, Copy, Debug)]
struct Spring {
    rest_length: f32,
    stiffness: f32,
}

fn particle(x: f32, y: f32, mass: f32, radius: f32) -> Particle {
    Entry {
        point: Point::new(mass > 0.0),
        position: (x, y),
        velocity: (0.0, 0.0),
        body: Body { force: (0.0, 0.0), mass, radius },
    }
}

fn distance(a: &Numbers, b: &Numbers) -> f32 {
    let dx = b.position.0 - a.position.0;
    let dy = b.position.1 - a.position.1;
    (dx * dx + dy * dy).sqrt()
}

fn overlap(a: &Numbers, b: &Numbers) -> f32 {
    a.radius + b.radius - distance(a, b)
}

fn inverse_mass(mass: f32) -> f32 {
    if mass > 0.0 {
        1.0 / mass
    } else {
        0.0
    }
}

/// What was measured of one contact: the normal from the first body to the
/// second, the impulse, the shift, and each body's share of the impulse.
struct Measured {
    contact: Contact,
    normal: Vector,
    impulse: f32,
    shift: f32,
    shares: (f32, f32),
}

fn measure(a: &Particle, b: &Particle) -> Measured {
    let dx = b.position.0 - a.position.0;
    let dy = b.position.1 - a.position.1;
    let d = (dx * dx + dy * dy).sqrt();
    let within_reach = d < a.body.radius + b.body.radius;
    let coincident = d == 0.0;
    let shares = (inverse_mass(a.body.mass), inverse_mass(b.body.mass));
    if !within_reach || coincident {
        return Measured {
            contact: Contact::classify(within_reach, coincident, false),
            normal: (0.0, 0.0),
            impulse: 0.0,
            shift: 0.0,
            shares,
        };
    }
    let normal = (dx / d, dy / d);
    let along = (b.velocity.0 - a.velocity.0) * normal.0 + (b.velocity.1 - a.velocity.1) * normal.1;
    let impulse = -(1.0 + RESTITUTION) * along / (shares.0 + shares.1);
    let shift = (a.body.radius + b.body.radius - d) / d * CORRECTION_PERCENT;
    Measured { contact: Contact::classify(true, false, along < 0.0), normal, impulse, shift, shares }
}

fn push(vector: Option<&mut Vector>, direction: Vector, amount: f32) {
    if let Some(vector) = vector {
        vector.0 += direction.0 * amount;
        vector.1 += direction.1 * amount;
    }
}

fn resolve(scene: &mut World, i: usize, j: usize) {
    let measured = match scene.pair(i, j) {
        Some((a, b)) => measure(a, b),
        None => return,
    };
    let (_, velocity_first, position_first, velocity_second, position_second) =
        scene.resolve_collision(i, j, measured.contact);
    push(velocity_first, measured.normal, -measured.impulse * measured.shares.0);
    push(position_first, measured.normal, -measured.shift);
    push(velocity_second, measured.normal, measured.impulse * measured.shares.1);
    push(position_second, measured.normal, measured.shift);
}

fn relax(scene: &mut World, k: usize) {
    let (correction, ratio1, ratio2, coincident) = match scene.ends(k) {
        Some((link, first, second)) => {
            let dx = second.position.0 - first.position.0;
            let dy = second.position.1 - first.position.1;
            let d = (dx * dx + dy * dy).sqrt();
            if d == 0.0 {
                ((0.0, 0.0), 0.0, 0.0, true)
            } else {
                let diff = (d - link.data.rest_length) / d;
                let total = first.body.mass.max(0.0) + second.body.mass.max(0.0);
                let correction = (dx * diff * link.data.stiffness, dy * diff * link.data.stiffness);
                if total > 0.0 {
                    (correction, second.body.mass.max(0.0) / total, first.body.mass.max(0.0) / total, false)
                } else {
                    (correction, 0.0, 0.0, false)
                }
            }
        }
        None => return,
    };
    let (first, second) = scene.solve(k, coincident);
    push(first, correction, ratio1);
    push(second, correction, -ratio2);
}

fn integrate(scene: &mut World, place: usize, dt: f32) {
    if let Some((position, velocity, body)) = scene.update(place) {
        velocity.0 += body.force.0 / body.mass * dt;
        velocity.1 += body.force.1 / body.mass * dt;
        position.0 += velocity.0 * dt;
        position.1 += velocity.1 * dt;
        body.force = (0.0, 0.0);
    }
}

fn body(scene: &World, place: usize) -> Numbers {
    numbers(scene.point(place).unwrap())
}

fn two_points(a: Particle, b: Particle, spring: Option<Spring>) -> World {
    let mut scene = Scene::new();
    scene.add_point(a);
    scene.add_point(b);
    if let Some(spring) = spring {
        assert!(scene.add_constraint(Constraint::new(0, 1), spring).is_ok());
    }
    scene
}

fn close(a: f32, b: f32, tolerance: f32) -> bool {
    (a - b).abs() <= tolerance
}

#[test]
fn relaxation_brings_the_distance_toward_the_rest_length() {
    for stiffness in [0.1f32, 0.5, 0.95, 1.0] {
        let mut scene = two_points(
            particle(0.0, 0.0, 1.0, 5.0),
            particle(100.0, 0.0, 1.0, 5.0),
            Some(Spring { rest_length: 50.0, stiffness }),
        );
        let mut error = (distance(&body(&scene, 0), &body(&scene, 1)) - 50.0).abs();
        for _ in 0..40 {
            relax(&mut scene, 0);
            let now = (distance(&body(&scene, 0), &body(&scene, 1)) - 50.0).abs();
            assert!(now <= error, "stiffness {}: {} after {}", stiffness, now, error);
            error = now;
        }
        if stiffness >= 0.95 {
            assert!(error < 1e-3);
        }
    }
}

#[test]
fn one_relaxation_closes_the_stated_share_of_the_gap() {
    let mut scene = two_points(
        particle(0.0, 0.0, 1.0, 5.0),
        particle(100.0, 0.0, 1.0, 5.0),
        Some(Spring { rest_length: 50.0, stiffness: 0.5 }),
    );
    relax(&mut scene, 0);
    assert!(close(body(&scene, 0).position.0, 12.5, 1e-4));
    assert!(close(body(&scene, 1).position.0, 87.5, 1e-4));
    assert_eq!(body(&scene, 0).position.1, 0.0);
}

#[test]
fn compressed_constraint_pushes_its_ends_apart() {
    let mut scene = two_points(
        particle(0.0, 0.0, 1.0, 5.0),
        particle(0.0, 10.0, 1.0, 5.0),
        Some(Spring { rest_length: 20.0, stiffness: 1.0 }),
    );
    relax(&mut scene, 0);
    assert!(close(body(&scene, 0).position.1, -5.0, 1e-4));
    assert!(close(body(&scene, 1).position.1, 15.0, 1e-4));
}

#[test]
fn lighter_end_moves_further_in_the_ratio_of_the_masses() {
    let mut scene = two_points(
        particle(0.0, 0.0, 1.0, 5.0),
        particle(100.0, 0.0, 3.0, 5.0),
        Some(Spring { rest_length: 60.0, stiffness: 1.0 }),
    );
    relax(&mut scene, 0);
    let light = body(&scene, 0).position.0 - 0.0;
    let heavy = 100.0 - body(&scene, 1).position.0;
    assert!(close(light, 30.0, 1e-4));
    assert!(close(heavy, 10.0, 1e-4));
    assert!(close(light / heavy, 3.0, 1e-4));
}

#[test]
fn coincident_ends_are_left_where_they_are() {
    let mut scene = two_points(
        particle(7.0, 7.0, 1.0, 5.0),
        particle(7.0, 7.0, 1.0, 5.0),
        Some(Spring { rest_length: 10.0, stiffness: 1.0 }),
    );
    relax(&mut scene, 0);
    assert_eq!(body(&scene, 0).position, (7.0, 7.0));
    assert_eq!(body(&scene, 1).position, (7.0, 7.0));
}

#[test]
fn ends_without_mass_are_left_where_they_are() {
    let mut scene = two_points(
        particle(0.0, 0.0, 0.0, 5.0),
        particle(100.0, 0.0, 0.0, 5.0),
        Some(Spring { rest_length: 10.0, stiffness: 1.0 }),
    );
    relax(&mut scene, 0);
    assert_eq!(body(&scene, 0).position, (0.0, 0.0));
    assert_eq!(body(&scene, 1).position, (100.0, 0.0));
}

#[test]
fn fixed_point_keeps_position_and_velocity() {
    let mut anchor = particle(0.0, 0.0, 1.0, 10.0);
    anchor.point.fixed = true;
    anchor.velocity = (1.0, 2.0);
    anchor.body.force = (100.0, -50.0);
    let mut mover = particle(15.0, 0.0, 1.0, 10.0);
    mover.velocity = (-5.0, 0.0);
    let before = numbers(&anchor);
    let mut scene = two_points(anchor, mover, Some(Spring { rest_length: 40.0, stiffness: 0.9 }));
    for _ in 0..10 {
        integrate(&mut scene, 0, 1.0 / 60.0);
        integrate(&mut scene, 1, 1.0 / 60.0);
        relax(&mut scene, 0);
        resolve(&mut scene, 0, 1);
        resolve(&mut scene, 1, 0);
    }
    assert_eq!(body(&scene, 0), before);
    assert_ne!(body(&scene, 1).position, (15.0, 0.0));
}

#[test]
fn integration_follows_force_then_velocity_and_clears_the_force() {
    let mut mover = particle(1.0, 2.0, 2.0, 5.0);
    mover.velocity = (3.0, 0.0);
    mover.body.force = (4.0, -8.0);
    let mut scene = two_points(mover, particle(100.0, 100.0, 1.0, 1.0), None);
    integrate(&mut scene, 0, 0.5);
    let after = body(&scene, 0);
    assert_eq!(after.velocity, (4.0, -2.0));
    assert_eq!(after.position, (3.0, 1.0));
    assert_eq!(after.force, (0.0, 0.0));
}

#[test]
fn head_on_collision_of_equal_masses_reverses_and_scales_the_velocities() {
    let mut left = particle(0.0, 0.0, 2.0, 10.0);
    left.velocity = (3.0, 0.0);
    let mut right = particle(12.0, 0.0, 2.0, 10.0);
    right.velocity = (-3.0, 0.0);
    let mut scene = two_points(left, right, None);
    let momentum_before = 2.0 * 3.0 + 2.0 * -3.0;
    resolve(&mut scene, 0, 1);
    let (a, b) = (body(&scene, 0), body(&scene, 1));
    assert!(close(a.velocity.0, -3.0 * RESTITUTION, 1e-5));
    assert!(close(b.velocity.0, 3.0 * RESTITUTION, 1e-5));
    assert!(close(a.velocity.0, -b.velocity.0, 1e-6));
    assert!(close(a.mass * a.velocity.0 + b.mass * b.velocity.0, momentum_before, 1e-5));
    assert_eq!((a.velocity.1, b.velocity.1), (0.0, 0.0));
}

#[test]
fn repeated_resolution_never_lets_the_overlap_grow() {
    let mut scene = two_points(particle(0.0, 0.0, 1.0, 10.0), particle(3.0, 4.0, 2.0, 8.0), None);
    let mut last = overlap(&body(&scene, 0), &body(&scene, 1));
    assert!(close(last, 13.0, 1e-5));
    for _ in 0..50 {
        resolve(&mut scene, 0, 1);
        let now = overlap(&body(&scene, 0), &body(&scene, 1));
        assert!(now <= last);
        last = now;
    }
    assert!(last < 13.0);
}

#[test]
fn separating_bodies_keep_their_velocities() {
    let mut left = particle(0.0, 0.0, 1.0, 10.0);
    left.velocity = (-2.0, 1.0);
    let mut right = particle(15.0, 0.0, 1.0, 10.0);
    right.velocity = (3.0, -1.0);
    let mut scene = two_points(left, right, None);
    resolve(&mut scene, 0, 1);
    assert_eq!(body(&scene, 0).velocity, (-2.0, 1.0));
    assert_eq!(body(&scene, 1).velocity, (3.0, -1.0));
    assert!(overlap(&body(&scene, 0), &body(&scene, 1)) < 5.0);
}

#[test]
fn bodies_out_of_reach_are_not_resolved() {
    let mut left = particle(0.0, 0.0, 1.0, 10.0);
    left.velocity = (5.0, 0.0);
    let mut right = particle(20.0, 0.0, 1.0, 10.0);
    right.velocity = (-5.0, 0.0);
    let (left_before, right_before) = (numbers(&left), numbers(&right));
    let mut scene = two_points(left, right, None);
    resolve(&mut scene, 0, 1);
    assert_eq!(body(&scene, 0), left_before);
    assert_eq!(body(&scene, 1), right_before);
}

#[test]
fn two_points_closing_at_five_bounce_back_at_four() {
    let mut left = particle(0.0, 0.0, 1.0, 10.0);
    left.velocity = (5.0, 0.0);
    let mut right = particle(15.0, 0.0, 1.0, 10.0);
    right.velocity = (-5.0, 0.0);
    let mut scene = two_points(left, right, None);
    let before = overlap(&body(&scene, 0), &body(&scene, 1));
    assert!(close(before, 5.0, 1e-6));
    resolve(&mut scene, 0, 1);
    let (a, b) = (body(&scene, 0), body(&scene, 1));
    assert!(overlap(&a, &b) <= before);
    assert!(a.position.0 < 0.0 && b.position.0 > 15.0);
    assert!(close(a.position.0, -(5.0 / 15.0) * 0.2, 1e-5));
    assert!(close(b.position.0, 15.0 + (5.0 / 15.0) * 0.2, 1e-5));
    assert!(close(a.velocity.0, -4.0, 1e-5));
    assert!(close(b.velocity.0, 4.0, 1e-5));
    assert_eq!((a.velocity.1, b.velocity.1), (0.0, 0.0));
}

#[test]
fn square_keeps_its_edges_through_eight_relaxation_passes() {
    let shape = create_square(false);
    let radius = 30.0f32;
    let mut points = Vec::new();
    for i in 0..shape.points {
        let angle = i as f32 * std::f32::consts::FRAC_PI_2;
        let mut entry = particle(200.0 + radius * angle.cos(), 100.0 + radius * angle.sin(), 1.0, 15.0);
        entry.point.fixed = shape.fixed;
        points.push(entry);
    }
    let links: Vec<Link<Spring>> = shape
        .constraints
        .iter()
        .map(|c| Link {
            ends: *c,
            data: Spring { rest_length: distance(&numbers(&points[c.point1]), &numbers(&points[c.point2])), stiffness: 0.95 },
        })
        .collect();
    let mut scene: World = Scene::new();
    scene.add_point(particle(0.0, 0.0, 1.0, 1.0));
    let base = match scene.add_shape(points, links) {
        Ok(base) => base,
        Err(_) => panic!("a square holds together"),
    };
    assert_eq!(base, 1);

    let mut phase = Phase::first();
    let mut passes = 0;
    loop {
        if let Phase::Relax(_) = phase {
            passes += 1;
            for k in 0..scene.constraint_count() {
                relax(&mut scene, k);
            }
        }
        phase = phase.next(RELAXATION_PASSES);
        if phase == Phase::first() {
            break;
        }
    }
    assert_eq!(passes, 8);
    for k in 0..4 {
        let (link, first, second) = scene.ends(k).unwrap();
        let d = distance(&numbers(first), &numbers(second));
        assert!((d - link.data.rest_length).abs() <= 0.01 * link.data.rest_length);
        assert!(close(link.data.rest_length, radius * 2.0f32.sqrt(), 1e-3));
    }
}

#[test]
fn stretched_square_comes_back_to_its_edges() {
    let shape = create_square(false);
    let radius = 30.0f32;
    let mut points = Vec::new();
    for i in 0..shape.points {
        let angle = i as f32 * std::f32::consts::FRAC_PI_2;
        points.push(particle(radius * angle.cos(), radius * angle.sin(), 1.0, 15.0));
    }
    let links: Vec<Link<Spring>> = shape
        .constraints
        .iter()
        .map(|c| Link {
            ends: *c,
            data: Spring { rest_length: distance(&numbers(&points[c.point1]), &numbers(&points[c.point2])), stiffness: 0.95 },
        })
        .collect();
    let mut scene: World = Scene::new();
    assert!(scene.add_shape(points, links).is_ok());
    scene.point_mut(0).unwrap().position.0 += 6.0;
    scene.point_mut(2).unwrap().position.1 -= 4.0;
    for _ in 0..60 {
        for k in 0..scene.constraint_count() {
            relax(&mut scene, k);
        }
    }
    for k in 0..scene.constraint_count() {
        let (link, first, second) = scene.ends(k).unwrap();
        let d = distance(&numbers(first), &numbers(second));
        assert!((d - link.data.rest_length).abs() <= 0.01 * link.data.rest_length);
    }
}

#[test]
fn one_frame_resolves_every_overlapping_pair() {
    let mut scene: World = Scene::new();
    for i in 0..4 {
        scene.add_point(particle(i as f32 * 15.0, 0.0, 1.0, 10.0));
    }
    scene.point_mut(3).unwrap().point.fixed = true;
    let mut tested = Vec::new();
    let mut pair = first_pair(scene.point_count());
    while let Some((i, j)) = pair {
        tested.push((i, j));
        resolve(&mut scene, i, j);
        pair = next_pair(scene.point_count(), (i, j));
    }
    assert_eq!(tested, vec![(0, 1), (0, 2), (0, 3), (1, 2), (1, 3), (2, 3)]);
    assert!(body(&scene, 0).position.0 < 0.0);
    assert_eq!(body(&scene, 3).position, (45.0, 0.0));
    assert!(body(&scene, 2).position.0 < 30.0);
}
