use vstd::prelude::*;

use crate::circle::Circle;
use crate::number::Number;
use crate::vector2::Vector2;

verus! {

/// Default ceiling on collision-relaxation passes within one step.
pub const MAX_PHYSICS_ITERATIONS: usize = 128;

/// Bit pattern of the default gravitational constant, the scalar five.
pub const DEFAULT_G_BITS: i128 = 0x5_0000_0000_0000_0000;

/// Bit pattern of the scalar two, the factor of the elastic-impulse formula.
pub const TWO_BITS: i128 = 0x2_0000_0000_0000_0000;

/// Every body of the sequence is well formed.
pub open spec fn wf_bodies(s: Seq<Circle>) -> bool {
    forall|i: int| 0 <= i < s.len() ==> s[i].wf()
}

/// The gravitational pull of `o` on `c`: the constant `g` times the product
/// of the masses over the squared distance, times the unnormalized
/// displacement toward `o` (the displacement itself carries one factor of the
/// distance, so the effective law is not exactly inverse-square; that is the
/// intended force law, not an error). A pair whose squared distance is zero
/// contributes nothing, which keeps the division defined.
pub open spec fn spec_grav_term(c: Circle, o: Circle, g: Number) -> Vector2 {
    let relative_pos = o.position.spec_sub(c.position);
    let sqr_distance = c.position.spec_sub(o.position).spec_sqr_length();
    if sqr_distance.bits == 0 {
        Vector2::spec_zero()
    } else {
        relative_pos.spec_mul_num(g.spec_mul(c.mass.spec_mul(o.mass)).spec_div(sqr_distance))
    }
}

/// The force term body `j` contributes to body `i`; a body exerts no force on
/// itself.
pub open spec fn spec_grav_term_at(s: Seq<Circle>, i: int, j: int, g: Number) -> Vector2 {
    if i == j {
        Vector2::spec_zero()
    } else {
        spec_grav_term(s[i], s[j], g)
    }
}

/// The running force on body `i` from bodies `0..k`, summed in body order
/// from the zero vector.
pub open spec fn spec_force_upto(s: Seq<Circle>, i: int, g: Number, k: int) -> Vector2
    decreases k,
{
    if k <= 0 {
        Vector2::spec_zero()
    } else {
        spec_force_upto(s, i, g, k - 1).spec_add(spec_grav_term_at(s, i, k - 1, g))
    }
}

/// Body `i` after the gravity phase: its velocity gains the accumulated force
/// over its mass, times the time step; its position does not move yet.
pub open spec fn spec_gravity_body(s: Seq<Circle>, i: int, g: Number, ts: Number) -> Circle {
    let c = s[i];
    let force = spec_force_upto(s, i, g, s.len() as int);
    Circle {
        position: c.position,
        velocity: c.velocity.spec_add(force.spec_div_num(c.mass).spec_mul_num(ts)),
        mass: c.mass,
        radius: c.radius,
    }
}

/// The gravity phase: every body's velocity is updated against the same
/// frozen snapshot `s`, so no body's result depends on another's output.
pub open spec fn spec_gravity_pass(s: Seq<Circle>, g: Number, ts: Number) -> Seq<Circle> {
    Seq::new(s.len(), |i: int| spec_gravity_body(s, i, g, ts))
}

/// Whether `c` collides with `o`: the circles overlap, the bodies approach
/// each other, and the squared distance is strictly positive so that the
/// resolution's divisions and square root are defined. (With a squared
/// distance of exactly zero the approach test compares against a zero dot
/// product, so a truly coincident pair never collides anyway.)
pub open spec fn spec_hit(c: Circle, o: Circle) -> bool {
    let relative_velocity = c.velocity.spec_sub(o.velocity);
    let relative_position = c.position.spec_sub(o.position);
    let sqr_distance = relative_position.spec_sqr_length();
    let combined_radius = c.radius.spec_add(o.radius);
    &&& sqr_distance.bits < combined_radius.spec_mul(combined_radius).bits
    &&& relative_position.spec_dot(relative_velocity.spec_neg()).bits > 0
    &&& sqr_distance.bits > 0
}

/// The first body at index `j` or later that body `i` collides with, in body
/// order; a body never collides with itself.
pub open spec fn spec_find_hit(s: Seq<Circle>, i: int, j: int) -> Option<Circle>
    decreases s.len() - j,
{
    if j < 0 || j >= s.len() {
        None
    } else if j != i && spec_hit(s[i], s[j]) {
        Some(s[j])
    } else {
        spec_find_hit(s, i, j + 1)
    }
}

/// Reflects `c` off a horizontal boundary it has crossed by `depth`: the
/// motion is rewound by the backtrack time `depth / velocity.y`, the vertical
/// velocity is flipped, and the motion is replayed forward for the same time,
/// as if the body had bounced exactly at the boundary within the step.
pub open spec fn spec_deflect_y(c: Circle, depth: Number) -> Circle {
    let time = depth.spec_div(c.velocity.y);
    let mid = c.position.spec_sub(c.velocity.spec_mul_num(time));
    let vel = Vector2 { x: c.velocity.x, y: c.velocity.y.spec_neg() };
    Circle { position: mid.spec_add(vel.spec_mul_num(time)), velocity: vel, mass: c.mass, radius: c.radius }
}

/// Reflects `c` off a vertical boundary it has crossed by `depth`, as
/// `spec_deflect_y` does for a horizontal one.
pub open spec fn spec_deflect_x(c: Circle, depth: Number) -> Circle {
    let time = depth.spec_div(c.velocity.x);
    let mid = c.position.spec_sub(c.velocity.spec_mul_num(time));
    let vel = Vector2 { x: c.velocity.x.spec_neg(), y: c.velocity.y };
    Circle { position: mid.spec_add(vel.spec_mul_num(time)), velocity: vel, mass: c.mass, radius: c.radius }
}

/// Resolves the collision of `c` with `o`: `c` is pushed out along the
/// normalized displacement by the overlap depth (a linear correction, not a
/// time-accurate one), and receives the elastic impulse for unequal masses
/// along the line of centers.
pub open spec fn spec_resolve_pair(c: Circle, o: Circle) -> Circle {
    let relative_velocity = c.velocity.spec_sub(o.velocity);
    let relative_position = c.position.spec_sub(o.position);
    let sqr_distance = relative_position.spec_sqr_length();
    let combined_radius = c.radius.spec_add(o.radius);
    let position = c.position.spec_add(
        relative_position.spec_normalized().spec_mul_num(
            combined_radius.spec_sub(sqr_distance.spec_sqrt()),
        ),
    );
    let factor = Number { bits: TWO_BITS }.spec_mul(o.mass).spec_div(c.mass.spec_add(o.mass)).spec_mul(
        relative_velocity.spec_dot(relative_position).spec_div(sqr_distance),
    );
    let velocity = c.velocity.spec_sub(relative_position.spec_mul_num(factor));
    Circle { position, velocity, mass: c.mass, radius: c.radius }
}

/// One relaxation check for body `i` against the frozen snapshot `s`: at most
/// one collision event is resolved, in priority order — lower boundary (y
/// then x), upper boundary (y then x), then the first colliding body. The
/// flag reports whether any event was resolved.
pub open spec fn spec_resolve_body(
    s: Seq<Circle>,
    i: int,
    min_bounds: Option<Vector2>,
    max_bounds: Option<Vector2>,
) -> (Circle, bool) {
    let c = s[i];
    if min_bounds is Some && c.velocity.y.bits < 0 && c.position.y.spec_sub(c.radius).bits
        < min_bounds->0.y.bits {
        (spec_deflect_y(c, c.position.y.spec_sub(c.radius).spec_sub(min_bounds->0.y)), true)
    } else if min_bounds is Some && c.velocity.x.bits < 0 && c.position.x.spec_sub(c.radius).bits
        < min_bounds->0.x.bits {
        (spec_deflect_x(c, c.position.x.spec_sub(c.radius).spec_sub(min_bounds->0.x)), true)
    } else if max_bounds is Some && c.velocity.y.bits > 0 && c.position.y.spec_add(c.radius).bits
        > max_bounds->0.y.bits {
        (spec_deflect_y(c, c.position.y.spec_add(c.radius).spec_sub(max_bounds->0.y)), true)
    } else if max_bounds is Some && c.velocity.x.bits > 0 && c.position.x.spec_add(c.radius).bits
        > max_bounds->0.x.bits {
        (spec_deflect_x(c, c.position.x.spec_add(c.radius).spec_sub(max_bounds->0.x)), true)
    } else {
        match spec_find_hit(s, i, 0) {
            Some(o) => (spec_resolve_pair(c, o), true),
            None => (c, false),
        }
    }
}

/// One full relaxation pass: every body is checked against the same frozen
/// snapshot `s`.
pub open spec fn spec_pass_bodies(
    s: Seq<Circle>,
    min_bounds: Option<Vector2>,
    max_bounds: Option<Vector2>,
) -> Seq<Circle> {
    Seq::new(s.len(), |i: int| spec_resolve_body(s, i, min_bounds, max_bounds).0)
}

/// A pass is solved when no body in it resolved any event.
pub open spec fn spec_pass_solved(
    s: Seq<Circle>,
    min_bounds: Option<Vector2>,
    max_bounds: Option<Vector2>,
) -> bool {
    forall|i: int| 0 <= i < s.len() ==> !spec_resolve_body(s, i, min_bounds, max_bounds).1
}

/// The collision phase: relaxation passes repeat until a pass is solved or
/// `fuel` passes have run; each pass reads the previous pass's output.
pub open spec fn spec_relax(
    s: Seq<Circle>,
    min_bounds: Option<Vector2>,
    max_bounds: Option<Vector2>,
    fuel: nat,
) -> Seq<Circle>
    decreases fuel,
{
    if fuel == 0 {
        s
    } else {
        let next = spec_pass_bodies(s, min_bounds, max_bounds);
        if spec_pass_solved(s, min_bounds, max_bounds) {
            next
        } else {
            spec_relax(next, min_bounds, max_bounds, (fuel - 1) as nat)
        }
    }
}

/// Whether the collision phase uses up its whole iteration ceiling: true when
/// the loop's pass counter reaches `fuel`, which is the condition under which
/// the solver reports possible instability (a pass that happens to be solved
/// exactly at the ceiling still reports it).
pub open spec fn spec_relax_hits_ceiling(
    s: Seq<Circle>,
    min_bounds: Option<Vector2>,
    max_bounds: Option<Vector2>,
    fuel: nat,
) -> bool
    decreases fuel,
{
    if fuel == 0 {
        true
    } else if spec_pass_solved(s, min_bounds, max_bounds) {
        fuel == 1
    } else {
        spec_relax_hits_ceiling(
            spec_pass_bodies(s, min_bounds, max_bounds),
            min_bounds,
            max_bounds,
            (fuel - 1) as nat,
        )
    }
}

/// The integration phase: every position advances by its body's velocity —
/// the velocity as adjusted by this step's gravity and collision phases —
/// times the time step.
pub open spec fn spec_integrate(s: Seq<Circle>, ts: Number) -> Seq<Circle> {
    Seq::new(
        s.len(),
        |i: int| Circle {
            position: s[i].position.spec_add(s[i].velocity.spec_mul_num(ts)),
            velocity: s[i].velocity,
            mass: s[i].mass,
            radius: s[i].radius,
        },
    )
}

/// One full fixed step: gravity accumulation, collision relaxation with at
/// most `max_iterations` passes, then position integration, each phase
/// reading the previous one's output.
pub open spec fn spec_update(
    min_bounds: Option<Vector2>,
    max_bounds: Option<Vector2>,
    s: Seq<Circle>,
    g: Number,
    max_iterations: nat,
    ts: Number,
) -> Seq<Circle> {
    spec_integrate(spec_relax(spec_gravity_pass(s, g, ts), min_bounds, max_bounds, max_iterations), ts)
}

/// Runs the gravity phase against the frozen snapshot `bodies`.
pub fn gravity_pass(bodies: &Vec<Circle>, g: Number, ts: Number) -> (r: Vec<Circle>)
    requires
        wf_bodies(bodies@),
    ensures
        r@ == spec_gravity_pass(bodies@, g, ts),
{
    let n = bodies.len();
    let mut out: Vec<Circle> = Vec::new();
    for i in 0..n
        invariant
            n == bodies@.len(),
            wf_bodies(bodies@),
            out@.len() == i,
            forall|k: int| 0 <= k < i ==> out@[k] == spec_gravity_body(bodies@, k, g, ts),
    {
        let c = bodies[i];
        let mut force = Vector2::zero();
        for j in 0..n
            invariant
                n == bodies@.len(),
                wf_bodies(bodies@),
                i < n,
                c == bodies@[i as int],
                force == spec_force_upto(bodies@, i as int, g, j as int),
        {
            if i != j {
                let o = bodies[j];
                let relative_pos = o.position.sub(c.position);
                let sqr_distance = c.position.sub(o.position).sqr_length();
                if sqr_distance.bits != 0 {
                    let term = Vector2::num_mul(g.mul(c.mass.mul(o.mass)).div(sqr_distance), relative_pos);
                    force = force.add(term);
                } else {
                    force = force.add(Vector2::zero());
                }
            } else {
                force = force.add(Vector2::zero());
            }
        }
        out.push(
            Circle {
                position: c.position,
                velocity: c.velocity.add(force.div_num(c.mass).mul_num(ts)),
                mass: c.mass,
                radius: c.radius,
            },
        );
    }
    assert(out@ =~= spec_gravity_pass(bodies@, g, ts));
    out
}

/// Reflects `c` off a horizontal boundary it has crossed by `depth`.
pub fn deflect_y(c: Circle, depth: Number) -> (r: Circle)
    requires
        c.velocity.y.bits != 0,
    ensures
        r == spec_deflect_y(c, depth),
{
    let time = depth.div(c.velocity.y);
    let mid = c.position.sub(c.velocity.mul_num(time));
    let vel = Vector2 { x: c.velocity.x, y: c.velocity.y.neg() };
    Circle { position: mid.add(vel.mul_num(time)), velocity: vel, mass: c.mass, radius: c.radius }
}

/// Reflects `c` off a vertical boundary it has crossed by `depth`.
pub fn deflect_x(c: Circle, depth: Number) -> (r: Circle)
    requires
        c.velocity.x.bits != 0,
    ensures
        r == spec_deflect_x(c, depth),
{
    let time = depth.div(c.velocity.x);
    let mid = c.position.sub(c.velocity.mul_num(time));
    let vel = Vector2 { x: c.velocity.x.neg(), y: c.velocity.y };
    Circle { position: mid.add(vel.mul_num(time)), velocity: vel, mass: c.mass, radius: c.radius }
}

/// The sum of two positive masses cannot wrap to the zero bit pattern.
proof fn lemma_mass_sum_nonzero(a: Number, b: Number)
    requires
        a.bits > 0,
        b.bits > 0,
    ensures
        a.spec_add(b).bits != 0,
{
}

/// Runs one relaxation check for body `i` against the frozen snapshot
/// `bodies`, resolving at most one collision event.
pub fn resolve_body(
    bodies: &Vec<Circle>,
    i: usize,
    min_bounds: Option<Vector2>,
    max_bounds: Option<Vector2>,
) -> (r: (Circle, bool))
    requires
        wf_bodies(bodies@),
        i < bodies@.len(),
    ensures
        r == spec_resolve_body(bodies@, i as int, min_bounds, max_bounds),
{
    let c = bodies[i];
    if let Some(mb) = min_bounds {
        if c.velocity.y.bits < 0 && c.position.y.sub(c.radius).bits < mb.y.bits {
            return (deflect_y(c, c.position.y.sub(c.radius).sub(mb.y)), true);
        }
        if c.velocity.x.bits < 0 && c.position.x.sub(c.radius).bits < mb.x.bits {
            return (deflect_x(c, c.position.x.sub(c.radius).sub(mb.x)), true);
        }
    }
    if let Some(mb) = max_bounds {
        if c.velocity.y.bits > 0 && c.position.y.add(c.radius).bits > mb.y.bits {
            return (deflect_y(c, c.position.y.add(c.radius).sub(mb.y)), true);
        }
        if c.velocity.x.bits > 0 && c.position.x.add(c.radius).bits > mb.x.bits {
            return (deflect_x(c, c.position.x.add(c.radius).sub(mb.x)), true);
        }
    }
    let n = bodies.len();
    let mut j: usize = 0;
    let mut found: Option<usize> = None;
    while j < n
        invariant_except_break
            found is None,
            spec_find_hit(bodies@, i as int, j as int) == spec_find_hit(bodies@, i as int, 0),
        invariant
            n == bodies@.len(),
            i < n,
            j <= n,
            c == bodies@[i as int],
        ensures
            match found {
                Some(jj) => {
                    &&& jj < n
                    &&& jj != i
                    &&& spec_hit(bodies@[i as int], bodies@[jj as int])
                    &&& spec_find_hit(bodies@, i as int, 0) == Some(bodies@[jj as int])
                },
                None => spec_find_hit(bodies@, i as int, 0) is None,
            },
        decreases n - j,
    {
        if j != i {
            let o = bodies[j];
            let relative_velocity = c.velocity.sub(o.velocity);
            let relative_position = c.position.sub(o.position);
            let sqr_distance = relative_position.sqr_length();
            let combined_radius = c.radius.add(o.radius);
            if sqr_distance.bits < combined_radius.mul(combined_radius).bits
                && relative_position.dot(relative_velocity.neg()).bits > 0 && sqr_distance.bits > 0 {
                found = Some(j);
                break;
            }
        }
        j += 1;
    }
    match found {
        Some(jj) => {
            let o = bodies[jj];
            proof {
                lemma_mass_sum_nonzero(c.mass, o.mass);
            }
            let relative_velocity = c.velocity.sub(o.velocity);
            let relative_position = c.position.sub(o.position);
            let sqr_distance = relative_position.sqr_length();
            let combined_radius = c.radius.add(o.radius);
            let position = c.position.add(
                relative_position.normalized().mul_num(combined_radius.sub(sqr_distance.sqrt())),
            );
            let factor = Number::from_bits(TWO_BITS).mul(o.mass).div(c.mass.add(o.mass)).mul(
                relative_velocity.dot(relative_position).div(sqr_distance),
            );
            let velocity = c.velocity.sub(relative_position.mul_num(factor));
            (Circle { position, velocity, mass: c.mass, radius: c.radius }, true)
        },
        None => (c, false),
    }
}

/// Runs one full relaxation pass against the frozen snapshot `bodies`,
/// reporting whether the pass was solved (no body resolved any event).
pub fn collision_pass(
    bodies: &Vec<Circle>,
    min_bounds: Option<Vector2>,
    max_bounds: Option<Vector2>,
) -> (r: (Vec<Circle>, bool))
    requires
        wf_bodies(bodies@),
    ensures
        r.0@ == spec_pass_bodies(bodies@, min_bounds, max_bounds),
        r.1 == spec_pass_solved(bodies@, min_bounds, max_bounds),
{
    let n = bodies.len();
    let mut out: Vec<Circle> = Vec::new();
    let mut solved = true;
    for i in 0..n
        invariant
            n == bodies@.len(),
            wf_bodies(bodies@),
            out@.len() == i,
            forall|k: int| 0 <= k < i ==> out@[k] == spec_resolve_body(
                bodies@,
                k,
                min_bounds,
                max_bounds,
            ).0,
            solved == (forall|k: int|
                0 <= k < i ==> !spec_resolve_body(bodies@, k, min_bounds, max_bounds).1),
    {
        let (c, collided) = resolve_body(bodies, i, min_bounds, max_bounds);
        out.push(c);
        if collided {
            solved = false;
        }
    }
    assert(out@ =~= spec_pass_bodies(bodies@, min_bounds, max_bounds));
    (out, solved)
}

/// Runs the integration phase: every position advances by its velocity times
/// the time step.
pub fn integrate_pass(bodies: &Vec<Circle>, ts: Number) -> (r: Vec<Circle>)
    ensures
        r@ == spec_integrate(bodies@, ts),
{
    let n = bodies.len();
    let mut out: Vec<Circle> = Vec::new();
    for i in 0..n
        invariant
            n == bodies@.len(),
            out@.len() == i,
            forall|k: int| 0 <= k < i ==> out@[k] == spec_integrate(bodies@, ts)[k],
    {
        let c = bodies[i];
        out.push(
            Circle {
                position: c.position.add(c.velocity.mul_num(ts)),
                velocity: c.velocity,
                mass: c.mass,
                radius: c.radius,
            },
        );
    }
    assert(out@ =~= spec_integrate(bodies@, ts));
    out
}

/// A resolved body keeps its mass and radius; only position and velocity
/// change.
proof fn lemma_resolve_body_keeps_shape(
    s: Seq<Circle>,
    i: int,
    min_bounds: Option<Vector2>,
    max_bounds: Option<Vector2>,
)
    requires
        0 <= i < s.len(),
    ensures
        spec_resolve_body(s, i, min_bounds, max_bounds).0.mass == s[i].mass,
        spec_resolve_body(s, i, min_bounds, max_bounds).0.radius == s[i].radius,
{
}

/// A relaxation pass preserves the length of the body sequence and the
/// well-formedness of every body.
proof fn lemma_pass_wf(s: Seq<Circle>, min_bounds: Option<Vector2>, max_bounds: Option<Vector2>)
    requires
        wf_bodies(s),
    ensures
        spec_pass_bodies(s, min_bounds, max_bounds).len() == s.len(),
        wf_bodies(spec_pass_bodies(s, min_bounds, max_bounds)),
{
    let p = spec_pass_bodies(s, min_bounds, max_bounds);
    assert forall|i: int| 0 <= i < p.len() implies p[i].wf() by {
        lemma_resolve_body_keeps_shape(s, i, min_bounds, max_bounds);
    }
}

/// The whole collision phase preserves the length of the body sequence and
/// the well-formedness of every body.
proof fn lemma_relax_wf(
    s: Seq<Circle>,
    min_bounds: Option<Vector2>,
    max_bounds: Option<Vector2>,
    fuel: nat,
)
    requires
        wf_bodies(s),
    ensures
        spec_relax(s, min_bounds, max_bounds, fuel).len() == s.len(),
        wf_bodies(spec_relax(s, min_bounds, max_bounds, fuel)),
    decreases fuel,
{
    if fuel > 0 {
        lemma_pass_wf(s, min_bounds, max_bounds);
        if !spec_pass_solved(s, min_bounds, max_bounds) {
            lemma_relax_wf(
                spec_pass_bodies(s, min_bounds, max_bounds),
                min_bounds,
                max_bounds,
                (fuel - 1) as nat,
            );
        }
    }
}

/// The gravity phase preserves the length of the body sequence and the
/// well-formedness of every body.
proof fn lemma_gravity_pass_wf(s: Seq<Circle>, g: Number, ts: Number)
    requires
        wf_bodies(s),
    ensures
        spec_gravity_pass(s, g, ts).len() == s.len(),
        wf_bodies(spec_gravity_pass(s, g, ts)),
{
}

/// The simulation state: the body collection, optional axis-aligned world
/// bounds, and the runtime configuration of the solver — the gravitational
/// constant and the ceiling on collision-relaxation passes per step.
pub struct PhysicsState {
    pub min_bounds: Option<Vector2>,
    pub max_bounds: Option<Vector2>,
    pub circles: Vec<Circle>,
    pub g: Number,
    pub max_iterations: usize,
    /// Diagnostic of the last step: true when the collision solver used up
    /// its whole iteration ceiling, in which case the step's result may be
    /// only partially resolved. The caller may surface it as an instability
    /// warning; the simulation itself continues with the state as computed.
    pub hit_max_iterations: bool,
}

impl PhysicsState {
    /// Every body of the state is well formed.
    pub open spec fn wf(self) -> bool {
        wf_bodies(self.circles@)
    }

    /// Builds a state with the given bounds and initial bodies, and the
    /// default gravitational constant and iteration ceiling.
    pub fn new(min_bounds: Option<Vector2>, max_bounds: Option<Vector2>, circles: Vec<Circle>) -> (r:
        PhysicsState)
        ensures
            r.min_bounds == min_bounds,
            r.max_bounds == max_bounds,
            r.circles@ == circles@,
            r.g.bits == DEFAULT_G_BITS,
            r.max_iterations == MAX_PHYSICS_ITERATIONS,
            !r.hit_max_iterations,
    {
        PhysicsState {
            min_bounds,
            max_bounds,
            circles,
            g: Number::from_bits(DEFAULT_G_BITS),
            max_iterations: MAX_PHYSICS_ITERATIONS,
            hit_max_iterations: false,
        }
    }

    /// An empty, unbounded state with the default solver configuration.
    pub fn empty() -> (r: PhysicsState)
        ensures
            r.min_bounds is None,
            r.max_bounds is None,
            r.circles@ == Seq::<Circle>::empty(),
            r.g.bits == DEFAULT_G_BITS,
            r.max_iterations == MAX_PHYSICS_ITERATIONS,
            !r.hit_max_iterations,
    {
        PhysicsState::new(None, None, Vec::new())
    }

    /// Appends a body to the live collection; it takes part in the
    /// simulation from the next step on.
    pub fn add_circle(&mut self, circle: Circle)
        ensures
            final(self).circles@ == old(self).circles@.push(circle),
            final(self).min_bounds == old(self).min_bounds,
            final(self).max_bounds == old(self).max_bounds,
            final(self).g == old(self).g,
            final(self).max_iterations == old(self).max_iterations,
            final(self).hit_max_iterations == old(self).hit_max_iterations,
    {
        self.circles.push(circle);
    }

    /// Advances the state by exactly one fixed step: gravity accumulation,
    /// collision relaxation up to the iteration ceiling, then position
    /// integration. Each phase, and each relaxation pass, reads a frozen
    /// snapshot of the previous one's output and writes a fresh buffer, so
    /// every body's result depends only on that snapshot and the result is a
    /// function of the prior state and the time step alone.
    pub fn update(&mut self, ts: Number)
        requires
            old(self).wf(),
        ensures
            final(self).circles@ == spec_update(
                old(self).min_bounds,
                old(self).max_bounds,
                old(self).circles@,
                old(self).g,
                old(self).max_iterations as nat,
                ts,
            ),
            final(self).hit_max_iterations == spec_relax_hits_ceiling(
                spec_gravity_pass(old(self).circles@, old(self).g, ts),
                old(self).min_bounds,
                old(self).max_bounds,
                old(self).max_iterations as nat,
            ),
            final(self).min_bounds == old(self).min_bounds,
            final(self).max_bounds == old(self).max_bounds,
            final(self).g == old(self).g,
            final(self).max_iterations == old(self).max_iterations,
            final(self).circles@.len() == old(self).circles@.len(),
            final(self).wf(),
    {
        let ghost minb = self.min_bounds;
        let ghost maxb = self.max_bounds;
        let g = self.g;
        let max_iterations = self.max_iterations;
        let ghost fuel = max_iterations as nat;

        let new_bodies = gravity_pass(&self.circles, g, ts);
        proof {
            lemma_gravity_pass_wf(self.circles@, g, ts);
        }
        self.circles = new_bodies;
        let ghost start_bodies = self.circles@;

        let mut solved = false;
        let mut iterations: usize = 0;
        while !solved && iterations < max_iterations
            invariant
                wf_bodies(self.circles@),
                iterations <= max_iterations,
                self.min_bounds == minb,
                self.max_bounds == maxb,
                self.g == g,
                self.max_iterations == max_iterations,
                fuel == max_iterations as nat,
                solved ==> self.circles@ == spec_relax(start_bodies, minb, maxb, fuel)
                    && spec_relax_hits_ceiling(start_bodies, minb, maxb, fuel) == (iterations
                    == max_iterations),
                !solved ==> spec_relax(
                    self.circles@,
                    minb,
                    maxb,
                    (max_iterations - iterations) as nat,
                ) == spec_relax(start_bodies, minb, maxb, fuel) && spec_relax_hits_ceiling(
                    self.circles@,
                    minb,
                    maxb,
                    (max_iterations - iterations) as nat,
                ) == spec_relax_hits_ceiling(start_bodies, minb, maxb, fuel),
            decreases max_iterations - iterations,
        {
            let (next, pass_solved) = collision_pass(&self.circles, self.min_bounds, self.max_bounds);
            proof {
                lemma_pass_wf(self.circles@, minb, maxb);
            }
            self.circles = next;
            solved = pass_solved;
            iterations += 1;
        }
        self.hit_max_iterations = iterations == max_iterations;
        proof {
            lemma_relax_wf(start_bodies, minb, maxb, fuel);
        }

        let integrated = integrate_pass(&self.circles, ts);
        self.circles = integrated;
    }
}

impl Default for PhysicsState {
    fn default() -> (r: PhysicsState)
        ensures
            r.min_bounds is None,
            r.max_bounds is None,
            r.circles@ == Seq::<Circle>::empty(),
            r.g.bits == DEFAULT_G_BITS,
            r.max_iterations == MAX_PHYSICS_ITERATIONS,
            !r.hit_max_iterations,
    {
        PhysicsState::empty()
    }
}

} // verus!
