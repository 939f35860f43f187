use physics::{Circle, Rat, Vec2};
use physics::sim::{resolve_pass, update_circles, total_energy, Outcome};

fn body(px: Rat, py: Rat, vx: Rat, vy: Rat, mass: Rat, radius: Rat) -> Circle {
    Circle::new(Vec2::new(px, py), Vec2::new(vx, vy), mass, radius)
}

#[test]
fn equal_mass_head_on_swaps_velocities() {
    // Two bodies of mass 1, radius 1/2, at (-2/5, 0) and (2/5, 0), moving
    // at (5, 0) and (-5, 0): one pass swaps the velocities exactly.
    let mut circles = vec![
        body(Rat::new(-2, 5), Rat::new(0, 1), Rat::new(5, 1), Rat::new(0, 1), Rat::new(1, 1), Rat::new(1, 2)),
        body(Rat::new(2, 5), Rat::new(0, 1), Rat::new(-5, 1), Rat::new(0, 1), Rat::new(1, 1), Rat::new(1, 2)),
    ];
    let bounds = Vec2::new(Rat::new(100, 1), Rat::new(100, 1));
    let (changed, overflow) = resolve_pass(&mut circles, &bounds);
    assert!(changed);
    assert!(!overflow);
    assert_eq!(circles[0].velocity.x.eqv(&Rat::new(-5, 1)), Some(true));
    assert_eq!(circles[0].velocity.y.eqv(&Rat::new(0, 1)), Some(true));
    assert_eq!(circles[1].velocity.x.eqv(&Rat::new(5, 1)), Some(true));
    assert_eq!(circles[1].velocity.y.eqv(&Rat::new(0, 1)), Some(true));

    // Now they separate: a second pass performs zero corrections.
    let (changed2, overflow2) = resolve_pass(&mut circles, &bounds);
    assert!(!changed2);
    assert!(!overflow2);
    assert_eq!(circles[0].velocity.x.eqv(&Rat::new(-5, 1)), Some(true));
}

#[test]
fn wall_bounce_after_integration() {
    // A single body at (0, 47/5) with radius 1/2 and velocity (0, 3),
    // bounds y = 10: integrating by 1/5 puts it into the wall, and the
    // resolution negates the vertical velocity exactly.
    let mut circles = vec![
        body(Rat::new(0, 1), Rat::new(47, 5), Rat::new(0, 1), Rat::new(3, 1), Rat::new(1, 1), Rat::new(1, 2)),
    ];
    let bounds = Vec2::new(Rat::new(10, 1), Rat::new(10, 1));
    let r = update_circles(&mut circles, &bounds, &Rat::zero(), &Rat::new(1, 5), 8);
    assert_eq!(r, Outcome::Converged);
    assert_eq!(circles[0].position.y.eqv(&Rat::new(10, 1)), Some(true));
    assert_eq!(circles[0].velocity.y.eqv(&Rat::new(-3, 1)), Some(true));
    assert_eq!(circles[0].velocity.x.eqv(&Rat::new(0, 1)), Some(true));
}

#[test]
fn zero_bodies_trivial() {
    // An empty store: the step converges as a no-op and the energy is 0.
    let mut circles: Vec<Circle> = vec![];
    let bounds = Vec2::new(Rat::new(10, 1), Rat::new(10, 1));
    let r = update_circles(&mut circles, &bounds, &Rat::new(10, 1), &Rat::new(1, 60), 4);
    assert_eq!(r, Outcome::Converged);
    assert!(circles.is_empty());
    let e = total_energy(&circles, &bounds, &Rat::new(10, 1)).unwrap();
    assert_eq!(e.eqv(&Rat::zero()), Some(true));
}

#[test]
fn boundary_reflection_keeps_tangential_component() {
    // Moving up into the top wall: the vertical component is negated, the
    // horizontal one untouched, the position left alone.
    let mut circles = vec![
        body(Rat::new(0, 1), Rat::new(99, 10), Rat::new(7, 1), Rat::new(1, 1), Rat::new(1, 1), Rat::new(1, 2)),
    ];
    let bounds = Vec2::new(Rat::new(100, 1), Rat::new(10, 1));
    let (changed, overflow) = resolve_pass(&mut circles, &bounds);
    assert!(changed);
    assert!(!overflow);
    assert_eq!(circles[0].velocity.x.eqv(&Rat::new(7, 1)), Some(true));
    assert_eq!(circles[0].velocity.y.eqv(&Rat::new(-1, 1)), Some(true));
    assert_eq!(circles[0].position.y.eqv(&Rat::new(99, 10)), Some(true));
}

#[test]
fn separating_overlap_gets_no_impulse() {
    // Overlapping but moving apart: the non-approach exemption leaves the
    // pair untouched.
    let mut circles = vec![
        body(Rat::new(0, 1), Rat::new(0, 1), Rat::new(-1, 1), Rat::new(0, 1), Rat::new(1, 1), Rat::new(1, 2)),
        body(Rat::new(1, 2), Rat::new(0, 1), Rat::new(1, 1), Rat::new(0, 1), Rat::new(1, 1), Rat::new(1, 2)),
    ];
    let bounds = Vec2::new(Rat::new(100, 1), Rat::new(100, 1));
    let (changed, overflow) = resolve_pass(&mut circles, &bounds);
    assert!(!changed);
    assert!(!overflow);
    assert_eq!(circles[0].velocity.x.eqv(&Rat::new(-1, 1)), Some(true));
    assert_eq!(circles[1].velocity.x.eqv(&Rat::new(1, 1)), Some(true));
}

#[test]
fn unequal_mass_collision_conserves_momentum_and_energy() {
    // Masses 1 and 3, touching at distance 1 along the x axis, closing:
    // after the impulse, total momentum and total kinetic energy are
    // exactly what they were.
    let bounds = Vec2::new(Rat::new(1000, 1), Rat::new(1000, 1));
    let zero = Rat::zero();
    let mut circles = vec![
        body(Rat::new(0, 1), Rat::new(0, 1), Rat::new(2, 1), Rat::new(1, 1), Rat::new(1, 1), Rat::new(1, 2)),
        body(Rat::new(1, 1), Rat::new(0, 1), Rat::new(-1, 1), Rat::new(0, 1), Rat::new(3, 1), Rat::new(1, 2)),
    ];
    let px_before = momentum_x(&circles);
    let py_before = momentum_y(&circles);
    let e_before = total_energy(&circles, &bounds, &zero).unwrap();

    let (changed, overflow) = resolve_pass(&mut circles, &bounds);
    assert!(changed);
    assert!(!overflow);
    // The exact textbook outcome of the 1-D unequal-mass exchange.
    assert_eq!(circles[0].velocity.x.eqv(&Rat::new(-5, 2)), Some(true));
    assert_eq!(circles[0].velocity.y.eqv(&Rat::new(1, 1)), Some(true));
    assert_eq!(circles[1].velocity.x.eqv(&Rat::new(1, 2)), Some(true));
    assert_eq!(circles[1].velocity.y.eqv(&Rat::new(0, 1)), Some(true));

    let px_after = momentum_x(&circles);
    let py_after = momentum_y(&circles);
    let e_after = total_energy(&circles, &bounds, &zero).unwrap();
    assert_eq!(px_before.eqv(&px_after), Some(true));
    assert_eq!(py_before.eqv(&py_after), Some(true));
    assert_eq!(e_before.eqv(&e_after), Some(true));
}

fn momentum_x(circles: &[Circle]) -> Rat {
    let mut acc = Rat::zero();
    for c in circles {
        acc = acc.plus(&c.velocity.x.times(&c.mass).unwrap()).unwrap();
    }
    acc
}

fn momentum_y(circles: &[Circle]) -> Rat {
    let mut acc = Rat::zero();
    for c in circles {
        acc = acc.plus(&c.velocity.y.times(&c.mass).unwrap()).unwrap();
    }
    acc
}

#[test]
fn energy_has_exact_value() {
    // Mass 2, speed 5: kinetic 25; with gravity 10 and the floor at
    // y = -10, a body at height 0 adds potential 2 * 10 * 10 = 200.
    let circles = vec![
        body(Rat::new(0, 1), Rat::new(0, 1), Rat::new(3, 1), Rat::new(4, 1), Rat::new(2, 1), Rat::new(1, 2)),
    ];
    let bounds = Vec2::new(Rat::new(10, 1), Rat::new(10, 1));
    let e = circles[0].get_energy(&bounds, &Rat::new(10, 1)).unwrap();
    assert_eq!(e.eqv(&Rat::new(225, 1)), Some(true));
    let t = total_energy(&circles, &bounds, &Rat::new(10, 1)).unwrap();
    assert_eq!(t.eqv(&Rat::new(225, 1)), Some(true));
}

#[test]
fn add_force_divides_by_mass_and_tick_resets_acceleration() {
    let mut c = body(Rat::new(0, 1), Rat::new(0, 1), Rat::new(0, 1), Rat::new(0, 1), Rat::new(2, 1), Rat::new(1, 2));
    assert!(c.add_force(&Vec2::new(Rat::new(4, 1), Rat::new(6, 1))));
    assert_eq!(c.acceleration.x.eqv(&Rat::new(2, 1)), Some(true));
    assert_eq!(c.acceleration.y.eqv(&Rat::new(3, 1)), Some(true));

    // One tick with no gravity: velocity picks the acceleration up, the
    // position follows the new velocity, and the acceleration resets.
    let mut circles = vec![c];
    let bounds = Vec2::new(Rat::new(100, 1), Rat::new(100, 1));
    let r = update_circles(&mut circles, &bounds, &Rat::zero(), &Rat::new(1, 1), 4);
    assert_eq!(r, Outcome::Converged);
    assert_eq!(circles[0].velocity.x.eqv(&Rat::new(2, 1)), Some(true));
    assert_eq!(circles[0].velocity.y.eqv(&Rat::new(3, 1)), Some(true));
    assert_eq!(circles[0].position.x.eqv(&Rat::new(2, 1)), Some(true));
    assert_eq!(circles[0].acceleration.x.eqv(&Rat::zero()), Some(true));
    assert_eq!(circles[0].acceleration.y.eqv(&Rat::zero()), Some(true));
}

#[test]
fn gravity_tick_is_semi_implicit() {
    // Gravity 10, timestep 1/2: the velocity falls by 5 first, and the
    // position then moves by the new velocity times the timestep.
    let mut circles = vec![
        body(Rat::new(0, 1), Rat::new(0, 1), Rat::new(0, 1), Rat::new(0, 1), Rat::new(1, 1), Rat::new(1, 2)),
    ];
    let bounds = Vec2::new(Rat::new(100, 1), Rat::new(100, 1));
    let r = update_circles(&mut circles, &bounds, &Rat::new(10, 1), &Rat::new(1, 2), 4);
    assert_eq!(r, Outcome::Converged);
    assert_eq!(circles[0].velocity.y.eqv(&Rat::new(-5, 1)), Some(true));
    assert_eq!(circles[0].position.y.eqv(&Rat::new(-5, 2)), Some(true));
}

#[test]
fn overflow_is_reported() {
    // A velocity numerator near the machine limit overflows while the
    // position is advanced; the step says so instead of guessing.
    let huge = Rat { num: i128::MAX - 1, den: 1 };
    let mut circles = vec![
        Circle::new(
            Vec2::new(Rat::zero(), Rat::zero()),
            Vec2::new(huge, Rat::zero()),
            Rat::new(1, 1),
            Rat::new(1, 2),
        ),
    ];
    let bounds = Vec2::new(Rat::new(100, 1), Rat::new(100, 1));
    let r = update_circles(&mut circles, &bounds, &Rat::zero(), &Rat::new(3, 1), 4);
    assert_eq!(r, Outcome::Overflow);
}

#[test]
fn pass_cap_is_reported() {
    // With a pass budget of zero the resolver gives up at once and says
    // the budget, not convergence, ended the tick.
    let mut circles = vec![
        body(Rat::new(0, 1), Rat::new(0, 1), Rat::new(0, 1), Rat::new(0, 1), Rat::new(1, 1), Rat::new(1, 2)),
    ];
    let bounds = Vec2::new(Rat::new(100, 1), Rat::new(100, 1));
    let r = update_circles(&mut circles, &bounds, &Rat::zero(), &Rat::new(1, 1), 0);
    assert_eq!(r, Outcome::PassLimit);
}
