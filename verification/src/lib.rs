//! Deterministic fixed-time-step physics for circular rigid bodies in the
//! plane: mutual gravitational attraction, boundary and pairwise collision
//! resolution, and position integration, all in fixed-point arithmetic so
//! that identical inputs give bit-identical results on every platform.

mod circle;
mod laws;
mod number;
mod state;
mod vector2;

pub use laws::lemma_boundary_reflection;
pub use laws::lemma_gravity_keeps_positions;
pub use laws::lemma_head_on_equal_mass_swap;
pub use laws::lemma_quiet_update_single_pass;
pub use laws::lemma_separated_single_pass;
pub use laws::lemma_update_deterministic;
pub use laws::lemma_update_integration_order;
pub use laws::spec_inside_bounds;
pub use laws::spec_separated;

pub use circle::Circle;
pub use number::FRAC_ONE;
pub use number::HALF_BITS;
pub use number::Number;
pub use number::SQRT_ONE;
pub use number::int_abs;
pub use number::int_sqrt;
pub use number::is_int_sqrt;
pub use number::lemma_div_one;
pub use number::lemma_div_self;
pub use number::lemma_int_sqrt;
pub use number::lemma_int_sqrt_unique;
pub use number::lemma_mul_neg_one;
pub use number::lemma_mul_one;
pub use number::lemma_mul_zero;
pub use number::trunc_div;
pub use number::wrap_bits;
pub use state::DEFAULT_G_BITS;
pub use state::MAX_PHYSICS_ITERATIONS;
pub use state::PhysicsState;
pub use state::TWO_BITS;
pub use state::collision_pass;
pub use state::deflect_x;
pub use state::deflect_y;
pub use state::gravity_pass;
pub use state::integrate_pass;
pub use state::resolve_body;
pub use state::spec_find_hit;
pub use state::spec_force_upto;
pub use state::spec_deflect_x;
pub use state::spec_deflect_y;
pub use state::spec_grav_term;
pub use state::spec_grav_term_at;
pub use state::spec_gravity_body;
pub use state::spec_gravity_pass;
pub use state::spec_hit;
pub use state::spec_integrate;
pub use state::spec_pass_bodies;
pub use state::spec_pass_solved;
pub use state::spec_relax;
pub use state::spec_relax_hits_ceiling;
pub use state::spec_resolve_body;
pub use state::spec_resolve_pair;
pub use state::spec_update;
pub use state::wf_bodies;
pub use vector2::Vector2;
