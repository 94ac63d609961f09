//! The fluid: a fixed number of particles, the parameters that move them,
//! and the stepper that advances them by one tick.

use crate::fixed::FixedPt;
use crate::pair::{FixedPtNearFar, FixedPtViscosity};
use crate::particle::Particle;
use crate::pipeline::{
    accelerated, collided, contained, density_of, integrated, moved, pressure_of, pressure_pair,
    pressure_row, relaxed, relaxed_upto, revised, timestep, viscosity_pair, viscosity_row,
    viscosity_rows, with_gravity, with_revised_velocity, with_viscosity, in_box, DT_RAW,
};
use crate::vector::FixedPtVec2D;
use vstd::prelude::*;

verus! {

/// Where the particles start, by index. A fluid with more particles than
/// the table has entries starts the others at the origin.
pub const PARTICLE_POSITIONS_INIT: [(i8, i8); 86] = [
    (0, 17), (0, 23), (0, 29), (0, 35), (6, 23), (6, 35),
    (12, 35), (21, 17), (21, 23), (21, 29), (21, 35), (27, 17),
    (33, 17), (42, 17), (42, 23), (42, 29), (42, 35), (48, 17),
    (54, 17), (54, 23), (54, 29), (54, 35), (63, 17), (63, 35),
    (69, 17), (69, 23), (69, 29), (69, 35), (75, 17), (75, 35),
    (84, 17), (84, 23), (84, 29), (84, 35), (90, 17), (90, 35),
    (96, 23), (96, 29), (105, 14), (105, 20), (108, 8), (108, 26),
    (111, 32), (114, 5), (114, 38), (117, 32), (120, 8), (120, 26),
    (123, 14), (123, 20), (3, 5), (13, 5), (23, 5), (33, 5),
    (43, 5), (53, 5), (63, 5), (73, 5), (83, 5), (93, 5),
    (89, 44), (95, 44), (29, 50), (35, 50), (41, 50), (47, 50),
    (53, 50), (59, 50), (65, 50), (71, 50), (77, 50), (83, 50),
    (89, 50), (95, 50), (29, 56), (35, 56), (41, 56), (47, 56),
    (53, 56), (59, 56), (65, 56), (71, 56), (77, 56), (83, 56),
    (89, 56), (95, 56),
];

/// Raw value of the interaction radius, 16.
pub const INTERACTION_RADIUS_RAW: i32 = 0x10_0000;

/// Raw value of the near stiffness, 4.
pub const STIFFNESS_NEAR_RAW: i32 = 0x4_0000;

/// Raw value of the far stiffness, 1.5.
pub const STIFFNESS_FAR_RAW: i32 = 0x1_8000;

/// Raw value of the target rest density, 2.5.
pub const TARGET_DENSITY_RAW: i32 = 0x2_8000;

/// Raw value of the linear viscosity coefficient, 0.
pub const VISCOSITY_SIGMA_RAW: i32 = 0;

/// Raw value of the quadratic viscosity coefficient, the scalar nearest
/// below 0.1.
pub const VISCOSITY_BETA_RAW: i32 = 6553;

/// The integer point at which particle `i` starts.
pub open spec fn initial_position(i: int) -> (i8, i8) {
    if 0 <= i < 86 {
        PARTICLE_POSITIONS_INIT[i]
    } else {
        (0, 0)
    }
}

/// Particle `i` as a new fluid holds it: made at the origin, then placed at
/// its starting point.
pub open spec fn initial_particle(i: int) -> Particle {
    Particle::at(0, 0).placed_at(initial_position(i).0 as int, initial_position(i).1 as int)
}

/// What a fluid is, as a mathematical value: its particles in their fixed
/// order, and its parameters.
pub struct FluidState {
    pub particles: Seq<Particle>,
    pub radius: FixedPt,
    pub stiffness: FixedPtNearFar,
    pub target_density: FixedPt,
    pub viscosity: FixedPtViscosity,
    pub gravity: FixedPtVec2D,
    pub x_max: FixedPt,
    pub y_max: FixedPt,
}

impl FluidState {
    /// The given particles in a box of `width` by `height` pixels, with the
    /// parameters every fluid starts with and no gravity.
    pub open spec fn with_defaults(particles: Seq<Particle>, width: int, height: int) -> FluidState {
        FluidState {
            particles,
            radius: FixedPt { value: INTERACTION_RADIUS_RAW },
            stiffness: FixedPtNearFar {
                near: FixedPt { value: STIFFNESS_NEAR_RAW },
                far: FixedPt { value: STIFFNESS_FAR_RAW },
            },
            target_density: FixedPt { value: TARGET_DENSITY_RAW },
            viscosity: FixedPtViscosity {
                sigma: FixedPt { value: VISCOSITY_SIGMA_RAW },
                beta: FixedPt { value: VISCOSITY_BETA_RAW },
            },
            gravity: FixedPtVec2D::from_ints(0, 0),
            x_max: FixedPt::from_int(width - 1),
            y_max: FixedPt::from_int(height - 1),
        }
    }

    /// A new fluid of `n` particles.
    pub open spec fn initial(n: nat, width: int, height: int) -> FluidState {
        FluidState::with_defaults(Seq::new(n, |i: int| initial_particle(i)), width, height)
    }

    /// The same fluid with other particles.
    pub open spec fn with_particles(self, particles: Seq<Particle>) -> FluidState {
        FluidState { particles, ..self }
    }

    /// The same fluid under another gravity.
    pub open spec fn with_gravity_set(self, gravity: FixedPtVec2D) -> FluidState {
        FluidState { gravity, ..self }
    }

    /// After stage one.
    pub open spec fn after_gravity(self, dt: FixedPt) -> FluidState {
        self.with_particles(with_gravity(self.particles, self.gravity, dt))
    }

    /// After stage two.
    pub open spec fn after_viscosity(self, dt: FixedPt) -> FluidState {
        self.with_particles(with_viscosity(self.particles, self.radius, self.viscosity, dt))
    }

    /// After stage three.
    pub open spec fn after_velocity(self, dt: FixedPt) -> FluidState {
        self.with_particles(integrated(self.particles, dt))
    }

    /// After stage four.
    pub open spec fn after_relaxation(self, dt: FixedPt) -> FluidState {
        self.with_particles(
            relaxed(self.particles, self.radius, self.stiffness, self.target_density, dt),
        )
    }

    /// After stage five.
    pub open spec fn after_collisions(self) -> FluidState {
        self.with_particles(collided(self.particles, self.x_max, self.y_max))
    }

    /// After stage six.
    pub open spec fn after_revision(self, dt: FixedPt) -> FluidState {
        self.with_particles(with_revised_velocity(self.particles, dt))
    }

    /// After one tick: the six stages in their order, each with the fixed
    /// timestep.
    pub open spec fn stepped(self) -> FluidState {
        let dt = timestep();
        self.after_gravity(dt).after_viscosity(dt).after_velocity(dt).after_relaxation(
            dt,
        ).after_collisions().after_revision(dt)
    }

    /// After as many ticks as `schedule` is long, tick `k` run under the
    /// gravity `schedule[k]`.
    pub open spec fn after_ticks(self, schedule: Seq<FixedPtVec2D>) -> FluidState
        decreases schedule.len(),
    {
        if schedule.len() == 0 {
            self
        } else {
            self.after_ticks(schedule.drop_last()).with_gravity_set(schedule.last()).stepped()
        }
    }

    /// Every particle lies in the box.
    pub open spec fn all_in_box(self) -> bool {
        forall|i: int| 0 <= i < self.particles.len() ==> in_box(#[trigger] self.particles[i], self.x_max, self.y_max)
    }
}

/// A fluid of `N` particles. The number of particles is fixed for good, and
/// so is their order.
pub struct Fluid<const N: usize> {
    particles: [Particle; N],
    particle_interaction_radius: FixedPt,
    stiffness: FixedPtNearFar,
    target_density: FixedPt,
    viscosity: FixedPtViscosity,
    gravity: FixedPtVec2D,
    x_max: FixedPt,
    y_max: FixedPt,
}

impl<const N: usize> View for Fluid<N> {
    type V = FluidState;

    closed spec fn view(&self) -> FluidState {
        FluidState {
            particles: self.particles@,
            radius: self.particle_interaction_radius,
            stiffness: self.stiffness,
            target_density: self.target_density,
            viscosity: self.viscosity,
            gravity: self.gravity,
            x_max: self.x_max,
            y_max: self.y_max,
        }
    }
}

impl<const N: usize> Fluid<N> {
    /// The interaction radius is never zero: the kernels divide by it.
    #[verifier::type_invariant]
    closed spec fn radius_is_not_zero(self) -> bool {
        self.particle_interaction_radius.value != 0
    }

    /// The parameters without the particles.
    closed spec fn frame(self) -> FluidState {
        self@.with_particles(Seq::empty())
    }

    /// A fluid of `N` particles at their starting points, in a box whose
    /// far corner is `(width - 1, height - 1)`, with no gravity.
    pub fn new(width: i8, height: i8) -> (r: Self)
        ensures
            r@ == FluidState::initial(N as nat, width as int, height as int),
    {
        let mut particles = [Particle::new(0, 0);N];
        let mut i: usize = 0;
        while i < N && i < 86
            invariant
                forall|k: int| 0 <= k < i ==> particles@[k] == initial_particle(k),
                forall|k: int| i <= k < N ==> particles@[k] == Particle::at(0, 0),
            decreases N - i,
        {
            let (x, y) = PARTICLE_POSITIONS_INIT[i];
            particles[i].position = FixedPtVec2D::from_i8s(x, y);
            i += 1;
        }
        assert(particles@ =~= Seq::new(N as nat, |i: int| initial_particle(i)));
        Self::from_particles(particles, width, height)
    }

    /// A fluid of the given particles, in a box whose far corner is
    /// `(width - 1, height - 1)`, with the parameters and the zero gravity
    /// with which every fluid starts.
    pub fn from_particles(particles: [Particle; N], width: i8, height: i8) -> (r: Self)
        ensures
            r@ == FluidState::with_defaults(particles@, width as int, height as int),
    {
        Fluid {
            particles,
            particle_interaction_radius: FixedPt { value: INTERACTION_RADIUS_RAW },
            stiffness: FixedPtNearFar {
                near: FixedPt { value: STIFFNESS_NEAR_RAW },
                far: FixedPt { value: STIFFNESS_FAR_RAW },
            },
            target_density: FixedPt { value: TARGET_DENSITY_RAW },
            viscosity: FixedPtViscosity {
                sigma: FixedPt { value: VISCOSITY_SIGMA_RAW },
                beta: FixedPt { value: VISCOSITY_BETA_RAW },
            },
            gravity: FixedPtVec2D::from_i8s(0, 0),
            x_max: FixedPt::from_i8(width) - FixedPt::from_i8(1),
            y_max: FixedPt::from_i8(height) - FixedPt::from_i8(1),
        }
    }

    /// Advances the fluid by one tick of the fixed timestep: gravity,
    /// viscosity, integration, relaxation, collisions and the revision of
    /// the velocities, in this order. Where the box is not empty, every
    /// particle lies in it afterwards.
    pub fn step(&mut self)
        ensures
            final(self)@ == old(self)@.stepped(),
            old(self)@.x_max.value >= 0 && old(self)@.y_max.value >= 0 ==> final(self)@.all_in_box(),
    {
        let dt = FixedPt { value: DT_RAW };
        self.apply_gravity(dt);
        self.apply_viscosity(dt);
        self.apply_velocity(dt);
        self.double_density_relaxation(dt);
        self.resolve_collisions();
        self.revise_velocity(dt);
        proof {
            if old(self)@.x_max.value >= 0 && old(self)@.y_max.value >= 0 {
                crate::laws::lemma_step_stays_in_box(old(self)@);
            }
        }
    }

    /// Sets the gravity that the ticks from now on apply.
    pub fn set_gravity(&mut self, gx: FixedPt, gy: FixedPt)
        ensures
            final(self)@ == old(self)@.with_gravity_set(FixedPtVec2D { x: gx, y: gy }),
    {
        proof {
            use_type_invariant(&*self);
        }
        self.gravity = FixedPtVec2D { x: gx, y: gy };
    }

    /// The density toward which the far pressure pulls.
    pub fn target_density(&self) -> (r: FixedPt)
        ensures
            r == self@.target_density,
    {
        self.target_density
    }

    /// Sets the density toward which the far pressure pulls.
    pub fn set_target_density(&mut self, target_density: FixedPt)
        ensures
            final(self)@ == (FluidState { target_density, ..old(self)@ }),
    {
        proof {
            use_type_invariant(&*self);
        }
        self.target_density = target_density;
    }

    /// The number of particles, `N`.
    pub fn particle_count(&self) -> (r: usize)
        ensures
            r == N,
            r == self@.particles.len(),
    {
        N
    }

    /// The particles, in the order in which they were made.
    pub fn get_particles(&self) -> (r: &[Particle])
        ensures
            r@ == self@.particles,
            r@.len() == N,
    {
        &self.particles
    }

    /// Stage one: gravity accelerates every particle.
    pub fn apply_gravity(&mut self, dt: FixedPt)
        ensures
            final(self)@ == old(self)@.after_gravity(dt),
    {
        proof {
            use_type_invariant(&*self);
        }
        let ghost before = self@;
        let delta_v = self.gravity * dt;
        let mut i: usize = 0;
        while i < N
            invariant
                i <= N,
                self.frame() == before.with_particles(Seq::empty()),
                before.radius.value != 0,
                before.particles.len() == N,
                delta_v == before.gravity * dt,
                forall|k: int| 0 <= k < i ==> self.particles@[k] == accelerated(before.particles[k], delta_v),
                forall|k: int| i <= k < N ==> self.particles@[k] == before.particles[k],
            decreases N - i,
        {
            self.particles[i].velocity = self.particles[i].velocity + delta_v;
            i += 1;
        }
        assert(self.particles@ =~= with_gravity(before.particles, before.gravity, dt));
    }

    /// Stage two: viscosity slows down every pair of particles that are
    /// within the interaction radius, not at the same place, and approaching
    /// each other. The pairs `(i, j)` with `i < j` are taken row by row.
    pub fn apply_viscosity(&mut self, dt: FixedPt)
        ensures
            final(self)@ == old(self)@.after_viscosity(dt),
    {
        proof {
            use_type_invariant(&*self);
        }
        let ghost before = self@;
        let radius = self.particle_interaction_radius;
        let viscosity = self.viscosity;
        let mut i: usize = 0;
        while i < N
            invariant
                i <= N,
                self.frame() == before.with_particles(Seq::empty()),
                before.radius.value != 0,
                before.particles.len() == N,
                radius == before.radius,
                viscosity == before.viscosity,
                self.particles@ == viscosity_rows(before.particles, i as int, radius, viscosity, dt),
            decreases N - i,
        {
            let ghost row_start = self.particles@;
            let mut j: usize = i + 1;
            while j < N
                invariant
                    i < N,
                    i + 1 <= j <= N,
                    self.frame() == before.with_particles(Seq::empty()),
                    before.radius.value != 0,
                    radius == before.radius,
                    viscosity == before.viscosity,
                    self.particles@ == viscosity_row(row_start, i as int, j as int, radius, viscosity, dt),
                decreases N - j,
            {
                let ghost pair_start = self.particles@;
                let a = self.particles[i];
                let b = self.particles[j];
                let distance_vector = a.vector_to(&b);
                let distance = distance_vector.magnitude();
                if distance.value < radius.value && distance.value > 0 {
                    let direction = distance_vector / distance;
                    let irv = a.approach_speed_of(&b);
                    if irv.value > 0 {
                        let viscosity_kernel = FixedPt::from_i8(1) - distance / radius;
                        let viscosity_impulse = direction * viscosity_kernel * (viscosity.sigma
                            * irv + viscosity.beta * irv * irv) * dt;
                        let half = viscosity_impulse / 2;
                        self.particles[i].velocity = self.particles[i].velocity - half;
                        self.particles[j].velocity = self.particles[j].velocity + half;
                    }
                }
                assert(self.particles@ =~= viscosity_pair(
                    pair_start,
                    i as int,
                    j as int,
                    radius,
                    viscosity,
                    dt,
                ));
                j += 1;
            }
            i += 1;
        }
    }

    /// Stage three: every particle remembers where it is and moves by its
    /// velocity.
    pub fn apply_velocity(&mut self, dt: FixedPt)
        ensures
            final(self)@ == old(self)@.after_velocity(dt),
    {
        proof {
            use_type_invariant(&*self);
        }
        let ghost before = self@;
        let mut i: usize = 0;
        while i < N
            invariant
                i <= N,
                self.frame() == before.with_particles(Seq::empty()),
                before.radius.value != 0,
                before.particles.len() == N,
                forall|k: int| 0 <= k < i ==> self.particles@[k] == moved(before.particles[k], dt),
                forall|k: int| i <= k < N ==> self.particles@[k] == before.particles[k],
            decreases N - i,
        {
            self.particles[i].previous_position = self.particles[i].position;
            self.particles[i].position = self.particles[i].position + self.particles[i].velocity
                * dt;
            i += 1;
        }
        assert(self.particles@ =~= integrated(before.particles, dt));
    }

    /// Stage four: double-density relaxation, particle by particle. The
    /// density of a particle is summed over the neighbours within the
    /// interaction radius, its pressure follows from the density, and the
    /// pressure moves the particle and each neighbour that is not at the
    /// same place apart, by half a displacement each.
    pub fn double_density_relaxation(&mut self, dt: FixedPt)
        ensures
            final(self)@ == old(self)@.after_relaxation(dt),
    {
        proof {
            use_type_invariant(&*self);
        }
        let ghost before = self@;
        let radius = self.particle_interaction_radius;
        let stiffness = self.stiffness;
        let target_density = self.target_density;
        let mut i: usize = 0;
        while i < N
            invariant
                i <= N,
                self.frame() == before.with_particles(Seq::empty()),
                before.radius.value != 0,
                before.particles.len() == N,
                radius == before.radius,
                stiffness == before.stiffness,
                target_density == before.target_density,
                self.particles@ == relaxed_upto(
                    before.particles,
                    i as int,
                    radius,
                    stiffness,
                    target_density,
                    dt,
                ),
            decreases N - i,
        {
            let ghost start = self.particles@;
            let mut density = FixedPtNearFar::zero();
            let mut j: usize = 0;
            while j < N
                invariant
                    i < N,
                    j <= N,
                    radius.value != 0,
                    self.particles@ == start,
                    density == density_of(start, i as int, j as int, radius),
                decreases N - j,
            {
                if i != j {
                    let distance = self.particles[i].distance_to(&self.particles[j]);
                    if distance.value < radius.value {
                        let linear_kernel = (radius - distance) / radius;
                        let quadratic_kernel = linear_kernel * linear_kernel;
                        let cubic_kernel = quadratic_kernel * linear_kernel;
                        density =
                        FixedPtNearFar {
                            near: density.near + cubic_kernel,
                            far: density.far + quadratic_kernel,
                        };
                    }
                }
                j += 1;
            }
            let pressure = FixedPtNearFar {
                near: stiffness.near * density.near,
                far: stiffness.far * (density.far - target_density),
            };
            self.particles[i].density = density;
            self.particles[i].pressure = pressure;
            let ghost primed = self.particles@;
            assert(primed =~= start.update(
                i as int,
                Particle {
                    density: density_of(start, i as int, N as int, radius),
                    pressure: pressure_of(
                        density_of(start, i as int, N as int, radius),
                        stiffness,
                        target_density,
                    ),
                    ..start[i as int]
                },
            ));
            let mut j: usize = 0;
            while j < N
                invariant
                    i < N,
                    j <= N,
                    radius.value != 0,
                    before.radius.value != 0,
                    self.frame() == before.with_particles(Seq::empty()),
                    self.particles@ == pressure_row(primed, i as int, j as int, radius, dt),
                decreases N - j,
            {
                let ghost pair_start = self.particles@;
                if i != j {
                    let a = self.particles[i];
                    let b = self.particles[j];
                    let distance_vector = a.vector_to(&b);
                    let distance = distance_vector.magnitude();
                    if distance.value < radius.value && distance.value > 0 {
                        let direction = distance_vector / distance;
                        let linear_kernel = (radius - distance) / radius;
                        let quadratic_kernel = linear_kernel * linear_kernel;
                        let pressure_impulse = direction * (a.pressure.far * linear_kernel
                            + a.pressure.near * quadratic_kernel) * dt * dt;
                        let half = pressure_impulse / 2;
                        self.particles[i].position = self.particles[i].position - half;
                        self.particles[j].position = self.particles[j].position + half;
                    }
                    assert(self.particles@ =~= pressure_pair(
                        pair_start,
                        i as int,
                        j as int,
                        radius,
                        dt,
                    ));
                }
                j += 1;
            }
            i += 1;
        }
    }

    /// Stage five: every particle outside the box is put back on its wall.
    /// Where the box is not empty, all particles lie in it afterwards.
    pub fn resolve_collisions(&mut self)
        ensures
            final(self)@ == old(self)@.after_collisions(),
            old(self)@.x_max.value >= 0 && old(self)@.y_max.value >= 0 ==> final(self)@.all_in_box(),
    {
        proof {
            use_type_invariant(&*self);
        }
        let ghost before = self@;
        let mut i: usize = 0;
        while i < N
            invariant
                i <= N,
                self.frame() == before.with_particles(Seq::empty()),
                before.radius.value != 0,
                before.particles.len() == N,
                forall|k: int| 0 <= k < i ==> self.particles@[k] == contained(before.particles[k], before.x_max, before.y_max),
                forall|k: int| i <= k < N ==> self.particles@[k] == before.particles[k],
            decreases N - i,
        {
            let x = self.particles[i].position.x;
            if x.value < 0 {
                self.particles[i].position.x = FixedPt::zero();
            } else if x.value > self.x_max.value {
                self.particles[i].position.x = self.x_max;
            }
            let y = self.particles[i].position.y;
            if y.value < 0 {
                self.particles[i].position.y = FixedPt::zero();
            } else if y.value > self.y_max.value {
                self.particles[i].position.y = self.y_max;
            }
            i += 1;
        }
        assert(self.particles@ =~= collided(before.particles, before.x_max, before.y_max));
    }

    /// Stage six: every velocity becomes what the particle has really moved
    /// in this tick, over `dt`.
    pub fn revise_velocity(&mut self, dt: FixedPt)
        requires
            dt.value != 0,
        ensures
            final(self)@ == old(self)@.after_revision(dt),
    {
        proof {
            use_type_invariant(&*self);
        }
        let ghost before = self@;
        let mut i: usize = 0;
        while i < N
            invariant
                i <= N,
                dt.value != 0,
                self.frame() == before.with_particles(Seq::empty()),
                before.radius.value != 0,
                before.particles.len() == N,
                forall|k: int| 0 <= k < i ==> self.particles@[k] == revised(before.particles[k], dt),
                forall|k: int| i <= k < N ==> self.particles@[k] == before.particles[k],
            decreases N - i,
        {
            self.particles[i].velocity = (self.particles[i].position
                - self.particles[i].previous_position) / dt;
            i += 1;
        }
        assert(self.particles@ =~= with_revised_velocity(before.particles, dt));
    }
}

} // verus!
