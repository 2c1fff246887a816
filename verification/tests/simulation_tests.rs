use physics::{
    Circle, Number, PhysicsState, Vector2, DEFAULT_G_BITS, FRAC_ONE, MAX_PHYSICS_ITERATIONS,
};

fn n(i: i64) -> Number {
    Number::from_int(i)
}

fn v(x: i64, y: i64) -> Vector2 {
    Vector2 { x: n(x), y: n(y) }
}

fn vb(x: i128, y: i128) -> Vector2 {
    Vector2 { x: Number::from_bits(x), y: Number::from_bits(y) }
}

#[test]
fn new_sets_defaults_and_add_circle_appends() {
    let mut st = PhysicsState::new(None, None, Vec::new());
    assert_eq!(st.g.to_bits(), DEFAULT_G_BITS);
    assert_eq!(st.g, n(5));
    assert_eq!(st.max_iterations, MAX_PHYSICS_ITERATIONS);
    assert_eq!(st.max_iterations, 128);
    assert!(!st.hit_max_iterations);
    assert!(st.circles.is_empty());
    let c = Circle { position: v(1, 2), velocity: v(0, 0), mass: n(1), radius: n(1) };
    st.add_circle(c);
    assert_eq!(st.circles.len(), 1);
    assert_eq!(st.circles[0], c);
    // an empty or one-body state still steps without trouble
    st.update(n(1));
    assert_eq!(st.circles.len(), 1);
}

#[test]
fn head_on_equal_masses_swap_velocities() {
    // two equal masses overlapping head-on, no gravity, no bounds: the
    // elastic impulse swaps the velocities exactly
    let radius = Number::from_bits(3 * FRAC_ONE / 4);
    let c0 = Circle { position: v(0, 0), velocity: v(1, 0), mass: n(5), radius };
    let c1 = Circle { position: v(1, 0), velocity: v(-1, 0), mass: n(5), radius };
    let mut st = PhysicsState::new(None, None, vec![c0, c1]);
    st.g = n(0);
    st.update(n(1));
    assert_eq!(st.circles[0].velocity, v(-1, 0));
    assert_eq!(st.circles[1].velocity, v(1, 0));
    assert!(!st.hit_max_iterations);
    // each body was pushed out along the line of centers by the overlap
    // depth 0.5, then integrated one step with its swapped velocity
    assert_eq!(st.circles[0].position, vb(-3 * FRAC_ONE / 2, 0));
    assert_eq!(st.circles[1].position, vb(5 * FRAC_ONE / 2, 0));
}

#[test]
fn boundary_reflection_is_exact_not_clamped() {
    // leading edge 0.5 beyond the lower x bound, moving left at 2: the body
    // is rewound by the backtrack time 0.25, reflected, and replayed, so it
    // ends the pass at x = 1.5 — not clamped to the contact point x = 1
    let c = Circle {
        position: vb(FRAC_ONE / 2, 0),
        velocity: v(-2, 0),
        mass: n(1),
        radius: n(1),
    };
    let mut st = PhysicsState::new(Some(v(0, -10)), None, vec![c]);
    st.g = n(0);
    st.update(n(1));
    assert_eq!(st.circles[0].velocity, v(2, 0));
    // one further step of integration at the reflected velocity: 1.5 + 2
    assert_eq!(st.circles[0].position, vb(7 * FRAC_ONE / 2, 0));
    assert!(!st.hit_max_iterations);
}

#[test]
fn boundary_checks_prefer_y_axis() {
    // a body violating both lower bounds while moving down-left resolves the
    // y violation in that pass and leaves the x velocity alone
    let c = Circle {
        position: vb(FRAC_ONE / 2, FRAC_ONE / 2),
        velocity: v(-1, -1),
        mass: n(1),
        radius: n(1),
    };
    let bodies = vec![c];
    let (resolved, collided) = physics::resolve_body(&bodies, 0, Some(v(0, 0)), None);
    assert!(collided);
    assert_eq!(resolved.velocity, v(-1, 1));
    assert_eq!(resolved.position, vb(FRAC_ONE / 2, 3 * FRAC_ONE / 2));
}

#[test]
fn quiet_configuration_converges_without_corrections() {
    // separated bodies inside the bounds: the solver is done after a single
    // pass and no body is corrected, only integrated
    let c0 = Circle { position: v(-10, 0), velocity: v(1, 0), mass: n(1), radius: n(1) };
    let c1 = Circle { position: v(10, 0), velocity: v(-1, 0), mass: n(1), radius: n(1) };
    let mut st = PhysicsState::new(Some(v(-100, -100)), Some(v(100, 100)), vec![c0, c1]);
    st.g = n(0);
    st.update(n(1));
    assert!(!st.hit_max_iterations);
    assert_eq!(st.circles[0].velocity, v(1, 0));
    assert_eq!(st.circles[1].velocity, v(-1, 0));
    assert_eq!(st.circles[0].position, v(-9, 0));
    assert_eq!(st.circles[1].position, v(9, 0));
}

#[test]
fn adversarial_configuration_hits_ceiling_and_stays_finite() {
    // a body far larger than the box can never satisfy both bounds: every
    // pass reflects it off one of them, so the solver runs out of its
    // iteration ceiling, reports that, and still hands back a finite state
    let c = Circle {
        position: vb(FRAC_ONE / 2, FRAC_ONE / 2),
        velocity: v(0, -1),
        mass: n(1),
        radius: n(10),
    };
    let mut st = PhysicsState::new(Some(v(0, 0)), Some(v(1, 1)), vec![c]);
    st.g = n(0);
    st.max_iterations = 8;
    st.update(n(1));
    assert!(st.hit_max_iterations);
    assert_eq!(st.circles.len(), 1);
    assert_eq!(st.circles[0].mass, n(1));
    assert_eq!(st.circles[0].radius, n(10));
    // the velocity is still a unit bounce along y
    assert_eq!(st.circles[0].velocity.x, n(0));
    assert_eq!(st.circles[0].velocity.y.abs(), n(1));
}

fn crowded_state() -> PhysicsState {
    let c0 = Circle {
        position: vb(-3 * FRAC_ONE, FRAC_ONE / 4),
        velocity: vb(FRAC_ONE / 8, -FRAC_ONE / 16),
        mass: Number::from_bits(7 * FRAC_ONE / 2),
        radius: n(2),
    };
    let c1 = Circle {
        position: vb(-FRAC_ONE, -FRAC_ONE / 2),
        velocity: vb(-FRAC_ONE / 4, FRAC_ONE / 32),
        mass: n(2),
        radius: n(1),
    };
    let c2 = Circle {
        position: vb(5 * FRAC_ONE / 2, FRAC_ONE),
        velocity: vb(FRAC_ONE / 2, FRAC_ONE / 2),
        mass: Number::from_bits(FRAC_ONE / 3),
        radius: Number::from_bits(FRAC_ONE / 2),
    };
    PhysicsState::new(Some(v(-20, -20)), Some(v(20, 20)), vec![c0, c1, c2])
}

#[test]
fn update_is_deterministic_bit_for_bit() {
    let mut a = crowded_state();
    let mut b = crowded_state();
    let ts = Number::from_bits(184467440737095516);  // about a hundredth
    for _ in 0..50 {
        a.update(ts);
        b.update(ts);
    }
    assert_eq!(a.circles.len(), b.circles.len());
    for (ca, cb) in a.circles.iter().zip(b.circles.iter()) {
        assert_eq!(ca.position.x.to_bits(), cb.position.x.to_bits());
        assert_eq!(ca.position.y.to_bits(), cb.position.y.to_bits());
        assert_eq!(ca.velocity.x.to_bits(), cb.velocity.x.to_bits());
        assert_eq!(ca.velocity.y.to_bits(), cb.velocity.y.to_bits());
        assert_eq!(ca.mass.to_bits(), cb.mass.to_bits());
        assert_eq!(ca.radius.to_bits(), cb.radius.to_bits());
    }
    assert_eq!(a.hit_max_iterations, b.hit_max_iterations);
}

#[test]
fn gravity_two_bodies_first_step_exact() {
    // masses 1 and 2 separated by 4 along x, at rest, default constant 5:
    // the force on the first body is 5 * (1*2) / 16 * (4, 0) = (2.5, 0),
    // so its velocity becomes (2.5, 0) and the second body's, with the
    // opposite displacement and half the acceleration, (-1.25, 0)
    let half = Number::from_bits(FRAC_ONE / 2);
    let c0 = Circle { position: v(0, 0), velocity: v(0, 0), mass: n(1), radius: half };
    let c1 = Circle { position: v(4, 0), velocity: v(0, 0), mass: n(2), radius: half };
    let mut st = PhysicsState::new(None, None, vec![c0, c1]);
    st.update(n(1));
    assert_eq!(st.circles[0].velocity, vb(5 * FRAC_ONE / 2, 0));
    assert_eq!(st.circles[1].velocity, vb(-5 * FRAC_ONE / 4, 0));
    // the bodies accelerate toward each other
    assert!(st.circles[0].velocity.x.to_bits() > 0);
    assert!(st.circles[1].velocity.x.to_bits() < 0);
    assert!(!st.hit_max_iterations);
}

#[test]
fn integration_uses_velocities_adjusted_this_step() {
    // same scenario as the gravity test: both bodies start at rest, so if
    // integration used the pre-step velocities nothing would move; instead
    // each position advances by this step's adjusted velocity times the step
    let half = Number::from_bits(FRAC_ONE / 2);
    let c0 = Circle { position: v(0, 0), velocity: v(0, 0), mass: n(1), radius: half };
    let c1 = Circle { position: v(4, 0), velocity: v(0, 0), mass: n(2), radius: half };
    let mut st = PhysicsState::new(None, None, vec![c0, c1]);
    st.update(n(1));
    // started at the origin, so after one unit step the position equals the
    // adjusted velocity
    assert_eq!(st.circles[0].position, vb(5 * FRAC_ONE / 2, 0));
    assert_eq!(st.circles[0].position.x, st.circles[0].velocity.x);
    assert_eq!(st.circles[1].position, vb(4 * FRAC_ONE - 5 * FRAC_ONE / 4, 0));
}

#[test]
fn integrate_pass_moves_by_velocity_times_step() {
    let c = Circle { position: v(1, 2), velocity: v(3, -4), mass: n(1), radius: n(1) };
    let out = physics::integrate_pass(&vec![c], Number::from_bits(FRAC_ONE / 2));
    assert_eq!(out[0].position, vb(5 * FRAC_ONE / 2, 0));
    assert_eq!(out[0].velocity, v(3, -4));
}

#[test]
fn default_state_is_empty_with_default_config() {
    let st = PhysicsState::default();
    assert!(st.min_bounds.is_none());
    assert!(st.max_bounds.is_none());
    assert!(st.circles.is_empty());
    assert_eq!(st.g, n(5));
    assert_eq!(st.max_iterations, 128);
    assert!(!st.hit_max_iterations);
}
