use vstd::prelude::*;

use crate::circle::Circle;
use crate::number::FRAC_ONE;
use crate::number::Number;
use crate::number::lemma_div_one;
use crate::number::lemma_div_self;
use crate::number::lemma_mul_neg_one;
use crate::number::lemma_mul_one;
use crate::number::lemma_mul_zero;
use crate::state::PhysicsState;
use crate::state::TWO_BITS;
use crate::state::spec_resolve_pair;
use crate::state::spec_find_hit;
use crate::state::spec_gravity_pass;
use crate::state::spec_hit;
use crate::state::spec_integrate;
use crate::state::spec_pass_bodies;
use crate::state::spec_pass_solved;
use crate::state::spec_relax;
use crate::state::spec_relax_hits_ceiling;
use crate::state::spec_resolve_body;
use crate::state::spec_update;
use crate::vector2::Vector2;

verus! {

/// Reflection off the lower x boundary is exact: a body moving left (and not
/// downward, so no other boundary check fires first) whose leading edge has
/// crossed the lower x bound ends the pass with its x velocity exactly
/// negated, its y velocity kept, and a position obtained by rewinding the
/// motion by the backtrack time `depth / velocity.x` and replaying it with
/// the reflected velocity — a bounce exactly at the boundary at the computed
/// sub-step time, not a clamp to the boundary.
#[verifier::rlimit(100)]
pub proof fn lemma_boundary_reflection(
    s: Seq<Circle>,
    i: int,
    min_bounds: Vector2,
    max_bounds: Option<Vector2>,
)
    requires
        0 <= i < s.len(),
        s[i].velocity.x.bits < 0,
        s[i].velocity.y.bits >= 0,
        s[i].position.x.spec_sub(s[i].radius).bits < min_bounds.x.bits,
    ensures
        ({
            let c = s[i];
            let depth = c.position.x.spec_sub(c.radius).spec_sub(min_bounds.x);
            let time = depth.spec_div(c.velocity.x);
            let reflected = Vector2 { x: c.velocity.x.spec_neg(), y: c.velocity.y };
            let r = spec_resolve_body(s, i, Some(min_bounds), max_bounds);
            &&& r.1
            &&& r.0.velocity == reflected
            &&& c.velocity.x.bits != i128::MIN ==> r.0.velocity.x.bits == -c.velocity.x.bits
            &&& r.0.position == c.position.spec_sub(c.velocity.spec_mul_num(time)).spec_add(
                reflected.spec_mul_num(time),
            )
            &&& r.0.mass == c.mass
            &&& r.0.radius == c.radius
        }),
{
    let c = s[i];
    let depth = c.position.x.spec_sub(c.radius).spec_sub(min_bounds.x);
    let time = depth.spec_div(c.velocity.x);
    let r = spec_resolve_body(s, i, Some(min_bounds), max_bounds);
    assert(r == (crate::state::spec_deflect_x(c, depth), true));
    if c.velocity.x.bits != i128::MIN {
        lemma_neg_exact(c.velocity.x);
    }
}

/// Negating any bit pattern other than the minimum one is exact: the
/// wrapping negation does not wrap.
proof fn lemma_neg_exact(a: Number)
    requires
        a.bits != i128::MIN,
    ensures
        a.spec_neg().bits == -a.bits,
{
}

/// Head-on elastic collision of equal masses swaps the velocities exactly,
/// shown here for the exact-arithmetic kernel of the impulse formula: when
/// the two masses are equal (and small enough that their sum does not wrap),
/// the centers are exactly one unit apart along the x axis, and the relative
/// x velocity does not wrap, the resolved body leaves with the other body's
/// x velocity, bit for bit, and keeps its own y velocity. Applying this to
/// each body of the pair in turn gives the full swap. At other separations
/// the truncating multiplications and divisions may be off by rounding, so
/// those inputs are not covered.
#[verifier::rlimit(100)]
pub proof fn lemma_head_on_equal_mass_swap(c: Circle, o: Circle)
    requires
        c.mass == o.mass,
        0 < c.mass.bits < 0x4000_0000_0000_0000_0000_0000_0000_0000,
        crate::number::int_abs(c.position.x.spec_sub(o.position.x).bits as int) == FRAC_ONE,
        c.position.y.spec_sub(o.position.y).bits == 0,
        c.velocity.y == o.velocity.y,
        -0x8000_0000_0000_0000_0000_0000_0000_0000 < c.velocity.x.bits - o.velocity.x.bits
            < 0x8000_0000_0000_0000_0000_0000_0000_0000,
    ensures
        spec_resolve_pair(c, o).velocity.x == o.velocity.x,
        spec_resolve_pair(c, o).velocity.y == c.velocity.y,
        spec_resolve_pair(c, o).mass == c.mass,
        spec_resolve_pair(c, o).radius == c.radius,
{
    let one = Number { bits: FRAC_ONE };
    let zero = Number { bits: 0 };
    let two = Number { bits: TWO_BITS };
    let rel_v = c.velocity.spec_sub(o.velocity);
    let rel_p = c.position.spec_sub(o.position);
    let wd = rel_v.x;
    assert(wd.bits == c.velocity.x.bits - o.velocity.x.bits);
    assert(rel_v.y == zero);
    assert(rel_p.y == zero);

    // the mass factor of the impulse is exactly one
    let doubled = 2 * c.mass.bits;
    assert(TWO_BITS * c.mass.bits == FRAC_ONE * (2 * c.mass.bits)) by (nonlinear_arith)
        requires
            TWO_BITS == 2 * FRAC_ONE,
    ;
    vstd::arithmetic::div_mod::lemma_div_multiples_vanish(doubled, FRAC_ONE as int);
    assert(two.spec_mul(c.mass).bits == doubled);
    assert(c.mass.spec_add(o.mass).bits == doubled);
    lemma_div_self(Number { bits: doubled as i128 });
    assert(two.spec_mul(o.mass).spec_div(c.mass.spec_add(o.mass)) == one);

    // the squared distance and its division both reduce to the dot product
    lemma_mul_zero(zero);
    if rel_p.x.bits == FRAC_ONE {
        assert(rel_p.x == one);
        lemma_mul_one(one);
        lemma_mul_one(wd);
        assert(rel_p.spec_sqr_length() == one);
        assert(rel_v.spec_dot(rel_p) == wd);
        lemma_div_one(wd);
        lemma_mul_one(wd);
        lemma_mul_zero(wd);
        assert(rel_p.spec_mul_num(one.spec_mul(wd)).x == wd);
        assert(rel_p.spec_mul_num(one.spec_mul(wd)).y == zero);
    } else {
        let neg_one = Number { bits: (-FRAC_ONE) as i128 };
        assert(rel_p.x == neg_one);
        lemma_mul_neg_one(neg_one);
        assert(neg_one.spec_neg() == one);
        assert(rel_p.spec_sqr_length() == one);
        lemma_mul_neg_one(wd);
        let wdn = wd.spec_neg();
        assert(wdn.bits == o.velocity.x.bits - c.velocity.x.bits);
        assert(rel_v.spec_dot(rel_p) == wdn);
        lemma_div_one(wdn);
        lemma_mul_one(wdn);
        lemma_mul_neg_one(wdn);
        assert(wdn.spec_neg().bits == wd.bits);
        assert(rel_p.spec_mul_num(one.spec_mul(wdn)).x == wd);
        assert(rel_p.spec_mul_num(one.spec_mul(wdn)).y == zero);
    }
}

/// The body `c` does not penetrate either optional bound on either axis.
pub open spec fn spec_inside_bounds(
    c: Circle,
    min_bounds: Option<Vector2>,
    max_bounds: Option<Vector2>,
) -> bool {
    &&& min_bounds is Some ==> c.position.y.spec_sub(c.radius).bits >= min_bounds->0.y.bits
        && c.position.x.spec_sub(c.radius).bits >= min_bounds->0.x.bits
    &&& max_bounds is Some ==> c.position.y.spec_add(c.radius).bits <= max_bounds->0.y.bits
        && c.position.x.spec_add(c.radius).bits <= max_bounds->0.x.bits
}

/// The circles of `c` and `o` do not overlap: their squared center distance
/// is at least the square of their combined radii.
pub open spec fn spec_separated(c: Circle, o: Circle) -> bool {
    c.position.spec_sub(o.position).spec_sqr_length().bits >= c.radius.spec_add(o.radius).spec_mul(
        c.radius.spec_add(o.radius),
    ).bits
}

/// A scan that meets no colliding body finds none.
proof fn lemma_find_hit_none(s: Seq<Circle>, i: int, j: int)
    requires
        forall|k: int| j <= k < s.len() && k != i ==> !spec_hit(s[i], #[trigger] s[k]),
    ensures
        spec_find_hit(s, i, j) is None,
    decreases s.len() - j,
{
    if 0 <= j < s.len() {
        lemma_find_hit_none(s, i, j + 1);
    }
}

/// Separation means no collision: non-overlapping circles never pass the
/// overlap test, whatever their velocities.
proof fn lemma_separated_no_hit(c: Circle, o: Circle)
    requires
        spec_separated(c, o),
    ensures
        !spec_hit(c, o),
{
}

/// Solver termination on a quiet configuration: when no body penetrates a
/// bound and no two bodies overlap, a relaxation pass corrects nothing — it
/// is solved at once and returns every body unchanged, so the collision
/// phase stops after exactly one pass, whatever the iteration ceiling.
pub proof fn lemma_separated_single_pass(
    s: Seq<Circle>,
    min_bounds: Option<Vector2>,
    max_bounds: Option<Vector2>,
    fuel: nat,
)
    requires
        forall|i: int| 0 <= i < s.len() ==> spec_inside_bounds(#[trigger] s[i], min_bounds, max_bounds),
        forall|i: int, j: int|
            0 <= i < s.len() && 0 <= j < s.len() && i != j ==> spec_separated(
                #[trigger] s[i],
                #[trigger] s[j],
            ),
        fuel >= 1,
    ensures
        spec_pass_solved(s, min_bounds, max_bounds),
        spec_pass_bodies(s, min_bounds, max_bounds) == s,
        spec_relax(s, min_bounds, max_bounds, fuel) == s,
        fuel >= 2 ==> !spec_relax_hits_ceiling(s, min_bounds, max_bounds, fuel),
{
    assert forall|i: int| 0 <= i < s.len() implies spec_resolve_body(
        s,
        i,
        min_bounds,
        max_bounds,
    ) == (s[i], false) by {
        assert forall|k: int| 0 <= k < s.len() && k != i implies !spec_hit(s[i], #[trigger] s[k]) by {
            lemma_separated_no_hit(s[i], s[k]);
        }
        lemma_find_hit_none(s, i, 0);
    }
    assert(spec_pass_bodies(s, min_bounds, max_bounds) =~= s);
}

/// The gravity phase moves no body: it changes only velocities, so positions,
/// masses and radii are those of the snapshot.
pub proof fn lemma_gravity_keeps_positions(s: Seq<Circle>, g: Number, ts: Number)
    ensures
        spec_gravity_pass(s, g, ts).len() == s.len(),
        forall|i: int| 0 <= i < s.len() ==> #[trigger] spec_gravity_pass(s, g, ts)[i].position == s[i].position,
        forall|i: int| 0 <= i < s.len() ==> #[trigger] spec_gravity_pass(s, g, ts)[i].mass == s[i].mass,
        forall|i: int| 0 <= i < s.len() ==> #[trigger] spec_gravity_pass(s, g, ts)[i].radius == s[i].radius,
{
}

/// Solver termination for a whole step: when the prior state's bodies do not
/// overlap and do not penetrate the bounds, the step is gravity followed by a
/// single solved relaxation pass followed by integration, since gravity moves
/// no body before the collision phase runs.
pub proof fn lemma_quiet_update_single_pass(
    min_bounds: Option<Vector2>,
    max_bounds: Option<Vector2>,
    s: Seq<Circle>,
    g: Number,
    max_iterations: nat,
    ts: Number,
)
    requires
        forall|i: int| 0 <= i < s.len() ==> spec_inside_bounds(#[trigger] s[i], min_bounds, max_bounds),
        forall|i: int, j: int|
            0 <= i < s.len() && 0 <= j < s.len() && i != j ==> spec_separated(
                #[trigger] s[i],
                #[trigger] s[j],
            ),
        max_iterations >= 1,
    ensures
        spec_update(min_bounds, max_bounds, s, g, max_iterations, ts) == spec_integrate(
            spec_gravity_pass(s, g, ts),
            ts,
        ),
        max_iterations >= 2 ==> !spec_relax_hits_ceiling(
            spec_gravity_pass(s, g, ts),
            min_bounds,
            max_bounds,
            max_iterations,
        ),
{
    let a = spec_gravity_pass(s, g, ts);
    lemma_gravity_keeps_positions(s, g, ts);
    assert forall|i: int| 0 <= i < a.len() implies spec_inside_bounds(
        #[trigger] a[i],
        min_bounds,
        max_bounds,
    ) by {
        assert(spec_inside_bounds(s[i], min_bounds, max_bounds));
    }
    assert forall|i: int, j: int|
        0 <= i < a.len() && 0 <= j < a.len() && i != j implies spec_separated(
        #[trigger] a[i],
        #[trigger] a[j],
    ) by {
        assert(spec_separated(s[i], s[j]));
    }
    lemma_separated_single_pass(a, min_bounds, max_bounds, max_iterations);
}

/// Determinism: the step's outcome is a function of the prior state's values
/// and the time step alone — `update`'s contract gives its result as
/// `spec_update` of those values, so two states equal in value advance to
/// results that are equal bit for bit.
pub proof fn lemma_update_deterministic(
    s1: PhysicsState,
    s2: PhysicsState,
    ts1: Number,
    ts2: Number,
)
    requires
        s1.min_bounds == s2.min_bounds,
        s1.max_bounds == s2.max_bounds,
        s1.circles@ == s2.circles@,
        s1.g == s2.g,
        s1.max_iterations == s2.max_iterations,
        ts1 == ts2,
    ensures
        spec_update(s1.min_bounds, s1.max_bounds, s1.circles@, s1.g, s1.max_iterations as nat, ts1)
            == spec_update(
            s2.min_bounds,
            s2.max_bounds,
            s2.circles@,
            s2.g,
            s2.max_iterations as nat,
            ts2,
        ),
{
}

/// A relaxation pass preserves the number of bodies.
proof fn lemma_pass_len(s: Seq<Circle>, min_bounds: Option<Vector2>, max_bounds: Option<Vector2>)
    ensures
        spec_pass_bodies(s, min_bounds, max_bounds).len() == s.len(),
{
}

/// The collision phase preserves the number of bodies.
proof fn lemma_relax_len(
    s: Seq<Circle>,
    min_bounds: Option<Vector2>,
    max_bounds: Option<Vector2>,
    fuel: nat,
)
    ensures
        spec_relax(s, min_bounds, max_bounds, fuel).len() == s.len(),
    decreases fuel,
{
    if fuel > 0 {
        lemma_pass_len(s, min_bounds, max_bounds);
        if !spec_pass_solved(s, min_bounds, max_bounds) {
            lemma_relax_len(
                spec_pass_bodies(s, min_bounds, max_bounds),
                min_bounds,
                max_bounds,
                (fuel - 1) as nat,
            );
        }
    }
}

/// Integration order: the step's final position of every body advances its
/// post-collision position by its post-gravity, post-collision velocity —
/// the velocity adjusted within this same step — and the final velocity is
/// exactly that adjusted velocity.
pub proof fn lemma_update_integration_order(
    min_bounds: Option<Vector2>,
    max_bounds: Option<Vector2>,
    s: Seq<Circle>,
    g: Number,
    max_iterations: nat,
    ts: Number,
    i: int,
)
    requires
        0 <= i < s.len(),
    ensures
        ({
            let adjusted = spec_relax(
                spec_gravity_pass(s, g, ts),
                min_bounds,
                max_bounds,
                max_iterations,
            );
            let stepped = spec_update(min_bounds, max_bounds, s, g, max_iterations, ts);
            &&& stepped.len() == s.len()
            &&& stepped[i].position == adjusted[i].position.spec_add(
                adjusted[i].velocity.spec_mul_num(ts),
            )
            &&& stepped[i].velocity == adjusted[i].velocity
        }),
{
    lemma_relax_len(spec_gravity_pass(s, g, ts), min_bounds, max_bounds, max_iterations);
}

} // verus!
