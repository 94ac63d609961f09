//! What holds of every tick.

use crate::fixed::{lemma_zero, FixedPt};
use crate::fluid::FluidState;
use crate::pair::{FixedPtNearFar, FixedPtViscosity};
use crate::particle::Particle;
use crate::pipeline::{
    accelerated, contained, density_of, in_box, integrated, lemma_relaxation_keeps_count,
    lemma_viscosity_keeps_count, moved, pressure_of, pressure_row, relaxed_upto, revised, timestep,
    viscosity_row, viscosity_rows, with_gravity,
};
use crate::vector::FixedPtVec2D;
use vstd::prelude::*;

verus! {

/// A tick neither adds nor removes a particle, and changes no parameter.
pub proof fn lemma_step_keeps_count(s: FluidState)
    ensures
        s.stepped().particles.len() == s.particles.len(),
        s.stepped() == s.with_particles(s.stepped().particles),
{
    let dt = timestep();
    let s1 = s.after_gravity(dt);
    lemma_viscosity_keeps_count(s1.particles, s1.particles.len() as int, s.radius, s.viscosity, dt);
    let s3 = s1.after_viscosity(dt).after_velocity(dt);
    lemma_relaxation_keeps_count(
        s3.particles,
        s3.particles.len() as int,
        s.radius,
        s.stiffness,
        s.target_density,
        dt,
    );
}

/// After a tick every particle lies in the box `[0, x_max] x [0, y_max]`,
/// wherever the tick has found it, as long as the box is not empty.
pub proof fn lemma_step_stays_in_box(s: FluidState)
    requires
        s.x_max.value >= 0,
        s.y_max.value >= 0,
    ensures
        s.stepped().all_in_box(),
        s.stepped().x_max == s.x_max,
        s.stepped().y_max == s.y_max,
{
}

/// A run is a function of the fluid it starts from and of the gravity of
/// each tick: two fluids that are equal and see the same gravity tick by
/// tick are equal after every tick, particle by particle and bit by bit.
pub proof fn lemma_equal_runs(a: FluidState, b: FluidState, schedule: Seq<FixedPtVec2D>)
    requires
        a == b,
    ensures
        forall|ticks: int|
            0 <= ticks <= schedule.len() ==> a.after_ticks(schedule.take(ticks))
                == b.after_ticks(#[trigger] schedule.take(ticks)),
{
}

/// No two particles are closer to each other than the interaction radius.
pub open spec fn all_apart(ps: Seq<Particle>, radius: FixedPt) -> bool {
    forall|i: int, j: int|
        0 <= i < ps.len() && 0 <= j < ps.len() && i != j ==> !((#[trigger] ps[i].distance_to_spec(
            ps[j],
        )).value < radius.value)
}

/// The particle as a relaxation leaves it that has found no neighbour: no
/// density, and the pressure that belongs to no density.
pub open spec fn rested(p: Particle, stiffness: FixedPtNearFar, target_density: FixedPt) -> Particle {
    Particle {
        density: FixedPtNearFar::zero_spec(),
        pressure: pressure_of(FixedPtNearFar::zero_spec(), stiffness, target_density),
        ..p
    }
}

/// What a tick makes of a particle that has the fluid to itself: gravity,
/// the move, a relaxation without neighbours, the walls, and the revised
/// velocity.
pub open spec fn stepped_alone(p: Particle, s: FluidState) -> Particle {
    let dt = timestep();
    revised(
        contained(
            rested(moved(accelerated(p, s.gravity * dt), dt), s.stiffness, s.target_density),
            s.x_max,
            s.y_max,
        ),
        dt,
    )
}

/// One row of the viscosity stage does nothing to distant particles.
proof fn lemma_viscosity_row_apart(
    ps: Seq<Particle>,
    i: int,
    j: int,
    radius: FixedPt,
    viscosity: FixedPtViscosity,
    dt: FixedPt,
)
    requires
        all_apart(ps, radius),
        0 <= i,
        j <= ps.len(),
    ensures
        viscosity_row(ps, i, j, radius, viscosity, dt) == ps,
    decreases j - i,
{
    if j > i + 1 {
        lemma_viscosity_row_apart(ps, i, j - 1, radius, viscosity, dt);
        assert(!(ps[i].distance_to_spec(ps[j - 1]).value < radius.value));
    }
}

/// Viscosity does nothing to particles none of which is within the
/// interaction radius of another.
pub proof fn lemma_viscosity_spares_distant_particles(
    ps: Seq<Particle>,
    i: int,
    radius: FixedPt,
    viscosity: FixedPtViscosity,
    dt: FixedPt,
)
    requires
        all_apart(ps, radius),
        i <= ps.len(),
    ensures
        viscosity_rows(ps, i, radius, viscosity, dt) == ps,
    decreases i,
{
    if i > 0 {
        lemma_viscosity_spares_distant_particles(ps, i - 1, radius, viscosity, dt);
        lemma_viscosity_row_apart(ps, i - 1, ps.len() as int, radius, viscosity, dt);
    }
}

/// A particle without a neighbour within the radius has no density.
proof fn lemma_density_apart(ps: Seq<Particle>, i: int, n: int, radius: FixedPt)
    requires
        all_apart(ps, radius),
        0 <= i < ps.len(),
        n <= ps.len(),
    ensures
        density_of(ps, i, n, radius) == FixedPtNearFar::zero_spec(),
    decreases n,
{
    if n > 0 {
        lemma_density_apart(ps, i, n - 1, radius);
        if n - 1 != i {
            assert(!(ps[i].distance_to_spec(ps[n - 1]).value < radius.value));
        }
    }
}

/// The pressure of a particle moves nothing where no neighbour is within
/// the radius.
proof fn lemma_pressure_row_apart(ps: Seq<Particle>, i: int, n: int, radius: FixedPt, dt: FixedPt)
    requires
        all_apart(ps, radius),
        0 <= i < ps.len(),
        n <= ps.len(),
    ensures
        pressure_row(ps, i, n, radius, dt) == ps,
    decreases n,
{
    if n > 0 {
        lemma_pressure_row_apart(ps, i, n - 1, radius, dt);
        if n - 1 != i {
            assert(!(ps[i].distance_to_spec(ps[n - 1]).value < radius.value));
        }
    }
}

/// The first `n` particles rested, the others as they are.
pub open spec fn rested_upto(
    ps: Seq<Particle>,
    n: int,
    stiffness: FixedPtNearFar,
    target_density: FixedPt,
) -> Seq<Particle> {
    Seq::new(
        ps.len(),
        |k: int|
            if k < n {
                rested(ps[k], stiffness, target_density)
            } else {
                ps[k]
            },
    )
}

/// Whether particles are apart depends on their positions alone.
proof fn lemma_same_places_apart(ps: Seq<Particle>, qs: Seq<Particle>, radius: FixedPt)
    requires
        all_apart(ps, radius),
        qs.len() == ps.len(),
        forall|k: int| 0 <= k < ps.len() ==> (#[trigger] qs[k]).position == ps[k].position,
    ensures
        all_apart(qs, radius),
{
    assert forall|i: int, j: int| 0 <= i < qs.len() && 0 <= j < qs.len() && i != j implies !((
    #[trigger] qs[i].distance_to_spec(qs[j])).value < radius.value) by {
        assert(qs[i].distance_to_spec(qs[j]) == ps[i].distance_to_spec(ps[j]));
    }
}

/// The relaxation moves no particle where none is within the interaction
/// radius of another: it leaves each without density, and nothing else
/// changes.
pub proof fn lemma_relaxation_spares_distant_particles(
    ps: Seq<Particle>,
    n: int,
    radius: FixedPt,
    stiffness: FixedPtNearFar,
    target_density: FixedPt,
    dt: FixedPt,
)
    requires
        all_apart(ps, radius),
        0 <= n <= ps.len(),
    ensures
        relaxed_upto(ps, n, radius, stiffness, target_density, dt) == rested_upto(
            ps,
            n,
            stiffness,
            target_density,
        ),
    decreases n,
{
    if n > 0 {
        lemma_relaxation_spares_distant_particles(ps, n - 1, radius, stiffness, target_density, dt);
        let before = rested_upto(ps, n - 1, stiffness, target_density);
        lemma_same_places_apart(ps, before, radius);
        lemma_density_apart(before, n - 1, before.len() as int, radius);
        let primed = before.update(n - 1, rested(before[n - 1], stiffness, target_density));
        lemma_same_places_apart(ps, primed, radius);
        lemma_pressure_row_apart(primed, n - 1, primed.len() as int, radius, dt);
        assert(primed =~= rested_upto(ps, n, stiffness, target_density));
    } else {
        assert(ps =~= rested_upto(ps, 0, stiffness, target_density));
    }
}

/// Particles farther apart than the interaction radius do not feel each
/// other: where no two are within the radius of one another, neither at the
/// start of the tick nor after the move, the tick makes of every particle
/// what it would make of it alone in the box. This holds under every gravity
/// and every viscosity.
pub proof fn lemma_distant_particles_step_alone(s: FluidState)
    requires
        all_apart(s.particles, s.radius),
        all_apart(
            integrated(with_gravity(s.particles, s.gravity, timestep()), timestep()),
            s.radius,
        ),
    ensures
        s.stepped().particles.len() == s.particles.len(),
        forall|i: int|
            0 <= i < s.particles.len() ==> s.stepped().particles[i] == stepped_alone(
                #[trigger] s.particles[i],
                s,
            ),
{
    let dt = timestep();
    let pushed = with_gravity(s.particles, s.gravity, dt);
    lemma_same_places_apart(s.particles, pushed, s.radius);
    lemma_viscosity_spares_distant_particles(pushed, pushed.len() as int, s.radius, s.viscosity, dt);
    let placed = integrated(pushed, dt);
    lemma_relaxation_spares_distant_particles(
        placed,
        placed.len() as int,
        s.radius,
        s.stiffness,
        s.target_density,
        dt,
    );
}

/// A particle at rest inside the box, alone and under no gravity, stays
/// where it is and at rest.
pub proof fn lemma_alone_at_rest_stays(p: Particle, s: FluidState)
    requires
        in_box(p, s.x_max, s.y_max),
        s.gravity == FixedPtVec2D::from_ints(0, 0),
        p.velocity == FixedPtVec2D::from_ints(0, 0),
    ensures
        stepped_alone(p, s).position == p.position,
        stepped_alone(p, s).velocity == FixedPtVec2D::from_ints(0, 0),
        moved(accelerated(p, s.gravity * timestep()), timestep()).position == p.position,
{
    let dt = timestep();
    let zero = FixedPt { value: 0 };
    assert(FixedPt::from_int(0) == zero);
    lemma_zero(dt);
    lemma_zero(zero);
    lemma_zero(p.position.x);
    lemma_zero(p.position.y);
    assert(s.gravity * dt == FixedPtVec2D::from_ints(0, 0));
    let pushed = accelerated(p, s.gravity * dt);
    assert(pushed.velocity == FixedPtVec2D::from_ints(0, 0));
    let placed = moved(pushed, dt);
    assert(placed.position == p.position);
    assert(placed.previous_position == p.position);
}

/// Two or more particles at rest, farther apart than the interaction
/// radius, inside the box and under no gravity, stay where they are: after
/// the tick every particle has its old position and no velocity, so the
/// distance between any two of them is what it was.
pub proof fn lemma_distant_particles_at_rest_stay(s: FluidState)
    requires
        all_apart(s.particles, s.radius),
        s.all_in_box(),
        s.gravity == FixedPtVec2D::from_ints(0, 0),
        forall|i: int|
            0 <= i < s.particles.len() ==> (#[trigger] s.particles[i]).velocity
                == FixedPtVec2D::from_ints(0, 0),
    ensures
        s.stepped().particles.len() == s.particles.len(),
        forall|i: int|
            0 <= i < s.particles.len() ==> {
                &&& (#[trigger] s.stepped().particles[i]).position == s.particles[i].position
                &&& s.stepped().particles[i].velocity == FixedPtVec2D::from_ints(0, 0)
            },
        forall|i: int, j: int|
            0 <= i < s.particles.len() && 0 <= j < s.particles.len() ==> (
            #[trigger] s.stepped().particles[i].distance_to_spec(s.stepped().particles[j]))
                == s.particles[i].distance_to_spec(s.particles[j]),
{
    let dt = timestep();
    let placed = integrated(with_gravity(s.particles, s.gravity, dt), dt);
    assert forall|k: int| 0 <= k < s.particles.len() implies (#[trigger] placed[k]).position
        == s.particles[k].position by {
        lemma_alone_at_rest_stays(s.particles[k], s);
    }
    lemma_same_places_apart(s.particles, placed, s.radius);
    lemma_distant_particles_step_alone(s);
    let after = s.stepped().particles;
    assert forall|i: int| 0 <= i < s.particles.len() implies {
        &&& (#[trigger] after[i]).position == s.particles[i].position
        &&& after[i].velocity == FixedPtVec2D::from_ints(0, 0)
    } by {
        lemma_alone_at_rest_stays(s.particles[i], s);
        assert(after[i] == stepped_alone(s.particles[i], s));
    }
}

} // verus!
