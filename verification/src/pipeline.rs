//! What one tick does to the particles, stage by stage, as mathematical
//! functions on sequences of particles.
//!
//! A tick runs six stages in a fixed order: gravity, viscosity, integration,
//! double-density relaxation, collision with the walls, and the revision of
//! the velocities. The pairwise stages change the particles pair by pair, and
//! each pair sees what the pairs before it have done, so they are folds over
//! the pairs in the order in which the stepper visits them.

use crate::fixed::FixedPt;
use crate::pair::{FixedPtNearFar, FixedPtViscosity};
use crate::particle::Particle;
use crate::vector::FixedPtVec2D;
use vstd::prelude::*;

verus! {

/// Raw value of the timestep of one tick, the scalar nearest below 0.9.
pub const DT_RAW: i32 = 58982;

/// The timestep of one tick.
pub open spec fn timestep() -> FixedPt {
    FixedPt { value: DT_RAW }
}

/// Two particles at distance `d` act on each other: they are closer than the
/// interaction radius and not at the same place.
pub open spec fn interacts(d: FixedPt, radius: FixedPt) -> bool {
    d.value < radius.value && d.value > 0
}

/// The particle with `delta_v` added to its velocity.
pub open spec fn accelerated(p: Particle, delta_v: FixedPtVec2D) -> Particle {
    Particle { velocity: p.velocity + delta_v, ..p }
}

/// Stage one: every velocity grows by `gravity * dt`.
pub open spec fn with_gravity(ps: Seq<Particle>, gravity: FixedPtVec2D, dt: FixedPt) -> Seq<
    Particle,
> {
    Seq::new(ps.len(), |k: int| accelerated(ps[k], gravity * dt))
}

/// The viscosity impulse between `a` and `b`: along the direction from `a`
/// to `b`, weighted by the linear kernel `1 - d / radius`, and linear and
/// quadratic in the speed at which the two approach.
pub open spec fn viscosity_impulse(
    a: Particle,
    b: Particle,
    radius: FixedPt,
    viscosity: FixedPtViscosity,
    dt: FixedPt,
) -> FixedPtVec2D
    recommends
        interacts(a.distance_to_spec(b), radius),
{
    let to_b = a.vector_to_spec(b);
    let d = to_b.magnitude_spec();
    let speed = a.approach_speed_of_spec(b);
    let kernel = FixedPt::from_int(1) - d.spec_div(radius);
    to_b.spec_div(d) * kernel * (viscosity.sigma * speed + viscosity.beta * speed * speed) * dt
}

/// What the viscosity stage does for the pair `(i, j)`: where the two
/// interact and approach each other, `i` loses half the impulse and `j`
/// gains it.
pub open spec fn viscosity_pair(
    ps: Seq<Particle>,
    i: int,
    j: int,
    radius: FixedPt,
    viscosity: FixedPtViscosity,
    dt: FixedPt,
) -> Seq<Particle>
    recommends
        0 <= i < j < ps.len(),
{
    let a = ps[i];
    let b = ps[j];
    if interacts(a.distance_to_spec(b), radius) && a.approach_speed_of_spec(b).value > 0 {
        let half = viscosity_impulse(a, b, radius, viscosity, dt).over_int(2);
        ps.update(i, Particle { velocity: a.velocity - half, ..a }).update(
            j,
            Particle { velocity: b.velocity + half, ..b },
        )
    } else {
        ps
    }
}

/// The pairs `(i, i + 1)` up to `(i, j - 1)` done, in that order.
pub open spec fn viscosity_row(
    ps: Seq<Particle>,
    i: int,
    j: int,
    radius: FixedPt,
    viscosity: FixedPtViscosity,
    dt: FixedPt,
) -> Seq<Particle>
    decreases j - i,
{
    if j <= i + 1 {
        ps
    } else {
        viscosity_pair(viscosity_row(ps, i, j - 1, radius, viscosity, dt), i, j - 1, radius, viscosity, dt)
    }
}

/// The rows of the particles `0` up to `i - 1` done, in that order.
pub open spec fn viscosity_rows(
    ps: Seq<Particle>,
    i: int,
    radius: FixedPt,
    viscosity: FixedPtViscosity,
    dt: FixedPt,
) -> Seq<Particle>
    decreases i,
{
    if i <= 0 {
        ps
    } else {
        viscosity_row(
            viscosity_rows(ps, i - 1, radius, viscosity, dt),
            i - 1,
            ps.len() as int,
            radius,
            viscosity,
            dt,
        )
    }
}

/// Stage two: viscosity between every unordered pair of particles.
pub open spec fn with_viscosity(
    ps: Seq<Particle>,
    radius: FixedPt,
    viscosity: FixedPtViscosity,
    dt: FixedPt,
) -> Seq<Particle> {
    viscosity_rows(ps, ps.len() as int, radius, viscosity, dt)
}

/// The particle moved by `velocity * dt`, its old place remembered.
pub open spec fn moved(p: Particle, dt: FixedPt) -> Particle {
    Particle { previous_position: p.position, position: p.position + p.velocity * dt, ..p }
}

/// Stage three: every particle moves by its velocity.
pub open spec fn integrated(ps: Seq<Particle>, dt: FixedPt) -> Seq<Particle> {
    Seq::new(ps.len(), |k: int| moved(ps[k], dt))
}

/// The weight `(radius - d) / radius` of a neighbour at distance `d`: one
/// at distance zero, falling linearly to zero at the interaction radius.
pub open spec fn falloff(d: FixedPt, radius: FixedPt) -> FixedPt
    recommends
        radius.value != 0,
{
    (radius - d).spec_div(radius)
}

/// What a neighbour at distance `d` adds to the density: the square of the
/// weight to the far channel, its cube to the near channel.
pub open spec fn density_share(d: FixedPt, radius: FixedPt) -> FixedPtNearFar {
    let q = falloff(d, radius);
    FixedPtNearFar { near: q * q * q, far: q * q }
}

/// The density that the first `n` particles give to particle `i`: the shares
/// of those, `i` itself apart, that are closer than the interaction radius.
pub open spec fn density_of(ps: Seq<Particle>, i: int, n: int, radius: FixedPt) -> FixedPtNearFar
    decreases n,
{
    if n <= 0 {
        FixedPtNearFar::zero_spec()
    } else {
        let before = density_of(ps, i, n - 1, radius);
        let d = ps[i].distance_to_spec(ps[n - 1]);
        if n - 1 != i && d.value < radius.value {
            before.spec_add(density_share(d, radius))
        } else {
            before
        }
    }
}

/// The pressure that belongs to a density: the far channel pulls toward
/// the target density, the near channel only pushes.
pub open spec fn pressure_of(
    density: FixedPtNearFar,
    stiffness: FixedPtNearFar,
    target_density: FixedPt,
) -> FixedPtNearFar {
    FixedPtNearFar {
        near: stiffness.near * density.near,
        far: stiffness.far * (density.far - target_density),
    }
}

/// The displacement that the pressure of `a` causes between `a` and `b`.
pub open spec fn pressure_impulse(a: Particle, b: Particle, radius: FixedPt, dt: FixedPt) -> FixedPtVec2D
    recommends
        interacts(a.distance_to_spec(b), radius),
{
    let to_b = a.vector_to_spec(b);
    let d = to_b.magnitude_spec();
    let q = falloff(d, radius);
    to_b.spec_div(d) * (a.pressure.far * q + a.pressure.near * (q * q)) * dt * dt
}

/// What the relaxation of particle `i` does for its neighbour `j`: where
/// the two interact, `i` moves back by half the displacement and `j` forward
/// by half.
pub open spec fn pressure_pair(ps: Seq<Particle>, i: int, j: int, radius: FixedPt, dt: FixedPt) -> Seq<
    Particle,
>
    recommends
        0 <= i < ps.len(),
        0 <= j < ps.len(),
        i != j,
{
    let a = ps[i];
    let b = ps[j];
    if interacts(a.distance_to_spec(b), radius) {
        let half = pressure_impulse(a, b, radius, dt).over_int(2);
        ps.update(i, Particle { position: a.position - half, ..a }).update(
            j,
            Particle { position: b.position + half, ..b },
        )
    } else {
        ps
    }
}

/// The neighbours `0` up to `n - 1` of particle `i` done, in that order.
pub open spec fn pressure_row(ps: Seq<Particle>, i: int, n: int, radius: FixedPt, dt: FixedPt) -> Seq<
    Particle,
>
    decreases n,
{
    if n <= 0 {
        ps
    } else {
        let before = pressure_row(ps, i, n - 1, radius, dt);
        if n - 1 == i {
            before
        } else {
            pressure_pair(before, i, n - 1, radius, dt)
        }
    }
}

/// The relaxation of particle `i`: its density is summed over its
/// neighbours, its pressure follows from the density, and the pressure
/// pushes it and each neighbour apart.
pub open spec fn relaxed_one(
    ps: Seq<Particle>,
    i: int,
    radius: FixedPt,
    stiffness: FixedPtNearFar,
    target_density: FixedPt,
    dt: FixedPt,
) -> Seq<Particle>
    recommends
        0 <= i < ps.len(),
{
    let density = density_of(ps, i, ps.len() as int, radius);
    let pressure = pressure_of(density, stiffness, target_density);
    pressure_row(
        ps.update(i, Particle { density, pressure, ..ps[i] }),
        i,
        ps.len() as int,
        radius,
        dt,
    )
}

/// The particles `0` up to `n - 1` relaxed, in that order.
pub open spec fn relaxed_upto(
    ps: Seq<Particle>,
    n: int,
    radius: FixedPt,
    stiffness: FixedPtNearFar,
    target_density: FixedPt,
    dt: FixedPt,
) -> Seq<Particle>
    decreases n,
{
    if n <= 0 {
        ps
    } else {
        relaxed_one(
            relaxed_upto(ps, n - 1, radius, stiffness, target_density, dt),
            n - 1,
            radius,
            stiffness,
            target_density,
            dt,
        )
    }
}

/// Stage four: double-density relaxation of every particle.
pub open spec fn relaxed(
    ps: Seq<Particle>,
    radius: FixedPt,
    stiffness: FixedPtNearFar,
    target_density: FixedPt,
    dt: FixedPt,
) -> Seq<Particle> {
    relaxed_upto(ps, ps.len() as int, radius, stiffness, target_density, dt)
}

/// The coordinate `x` brought into `[0, max]`: a negative one becomes zero,
/// one above `max` becomes `max`.
pub open spec fn clamped(x: FixedPt, max: FixedPt) -> FixedPt {
    if x.value < 0 {
        FixedPt { value: 0 }
    } else if x.value > max.value {
        max
    } else {
        x
    }
}

/// The particle with its position brought into the box.
pub open spec fn contained(p: Particle, x_max: FixedPt, y_max: FixedPt) -> Particle {
    Particle {
        position: FixedPtVec2D {
            x: clamped(p.position.x, x_max),
            y: clamped(p.position.y, y_max),
        },
        ..p
    }
}

/// Stage five: every position is brought into the box.
pub open spec fn collided(ps: Seq<Particle>, x_max: FixedPt, y_max: FixedPt) -> Seq<Particle> {
    Seq::new(ps.len(), |k: int| contained(ps[k], x_max, y_max))
}

/// The particle with the velocity that its last move amounts to.
pub open spec fn revised(p: Particle, dt: FixedPt) -> Particle
    recommends
        dt.value != 0,
{
    Particle { velocity: (p.position - p.previous_position).spec_div(dt), ..p }
}

/// Stage six: every velocity becomes the displacement of the tick over `dt`.
pub open spec fn with_revised_velocity(ps: Seq<Particle>, dt: FixedPt) -> Seq<Particle> {
    Seq::new(ps.len(), |k: int| revised(ps[k], dt))
}

/// The position lies in the box `[0, x_max] x [0, y_max]`.
pub open spec fn in_box(p: Particle, x_max: FixedPt, y_max: FixedPt) -> bool {
    &&& 0 <= p.position.x.value <= x_max.value
    &&& 0 <= p.position.y.value <= y_max.value
}

/// One row of the viscosity stage keeps the number of particles.
pub proof fn lemma_viscosity_row_keeps_count(
    ps: Seq<Particle>,
    i: int,
    j: int,
    radius: FixedPt,
    viscosity: FixedPtViscosity,
    dt: FixedPt,
)
    requires
        0 <= i,
        j <= ps.len(),
    ensures
        viscosity_row(ps, i, j, radius, viscosity, dt).len() == ps.len(),
    decreases j - i,
{
    if j > i + 1 {
        lemma_viscosity_row_keeps_count(ps, i, j - 1, radius, viscosity, dt);
    }
}

/// The viscosity stage keeps the number of particles.
pub proof fn lemma_viscosity_keeps_count(
    ps: Seq<Particle>,
    i: int,
    radius: FixedPt,
    viscosity: FixedPtViscosity,
    dt: FixedPt,
)
    requires
        i <= ps.len(),
    ensures
        viscosity_rows(ps, i, radius, viscosity, dt).len() == ps.len(),
    decreases i,
{
    if i > 0 {
        lemma_viscosity_keeps_count(ps, i - 1, radius, viscosity, dt);
        lemma_viscosity_row_keeps_count(
            viscosity_rows(ps, i - 1, radius, viscosity, dt),
            i - 1,
            ps.len() as int,
            radius,
            viscosity,
            dt,
        );
    }
}

/// The pushes of one relaxation keep the number of particles.
pub proof fn lemma_pressure_row_keeps_count(
    ps: Seq<Particle>,
    i: int,
    n: int,
    radius: FixedPt,
    dt: FixedPt,
)
    requires
        0 <= i < ps.len(),
        n <= ps.len(),
    ensures
        pressure_row(ps, i, n, radius, dt).len() == ps.len(),
    decreases n,
{
    if n > 0 {
        lemma_pressure_row_keeps_count(ps, i, n - 1, radius, dt);
    }
}

/// The relaxation keeps the number of particles.
pub proof fn lemma_relaxation_keeps_count(
    ps: Seq<Particle>,
    n: int,
    radius: FixedPt,
    stiffness: FixedPtNearFar,
    target_density: FixedPt,
    dt: FixedPt,
)
    requires
        n <= ps.len(),
    ensures
        relaxed_upto(ps, n, radius, stiffness, target_density, dt).len() == ps.len(),
    decreases n,
{
    if n > 0 {
        lemma_relaxation_keeps_count(ps, n - 1, radius, stiffness, target_density, dt);
        let before = relaxed_upto(ps, n - 1, radius, stiffness, target_density, dt);
        let density = density_of(before, n - 1, before.len() as int, radius);
        let pressure = pressure_of(density, stiffness, target_density);
        lemma_pressure_row_keeps_count(
            before.update(n - 1, Particle { density, pressure, ..before[n - 1] }),
            n - 1,
            before.len() as int,
            radius,
            dt,
        );
    }
}

} // verus!
