//! The bridge from authored rock placements to the particles of a granular
//! solver, and the one-shot gate in front of it.

use crate::units::{toward_zero_div, Point3, Vec3};
use bevy_rapier3d::rapier::dynamics::RigidBodyHandle;
use bevy_rapier3d::rapier::geometry::ColliderHandle;
use vstd::prelude::*;

verus! {

/// Fewest colliders marked for coupling with which seeding starts.
pub const MIN_COUPLED_COLLIDERS: usize = 5;

/// Edge of the box that stands for one rock.
pub const ROCK_SIZE: i64 = 1000;

/// Edge of each of the eight boxes that a rock is split into.
pub const SUBROCK_SIZE: i64 = 500;

/// Distance, along each axis, from a rock's centre to the centre of each of
/// its eight parts.
pub const SUBROCK_OFFSET: i64 = 250;

/// Radius of the particle that stands for one part of a rock.
pub const PARTICLE_RADIUS: i64 = 250;

/// Density of rock.
pub const ROCK_DENSITY: i64 = 2_700_000;

/// Young's modulus of rock.
pub const YOUNG_MODULUS: i64 = 10_000_000_000;

/// Poisson's ratio of rock.
pub const POISSON_RATIO: i64 = 200;

/// Edge of a cell of the solver's grid.
pub const CELL_WIDTH: i64 = 500;

/// Number of grid cells that the solver is asked to hold.
pub const GRID_CAPACITY: u32 = 60_000;

/// Standard gravity, pointing down the z axis when negated.
pub const GRAVITY: i64 = 9_810;

/// Solver steps per second before substeps.
pub const STEPS_PER_SECOND: u64 = 60;

/// How a rigid body and the particles act on each other.
#[derive(Clone, Copy, Debug, PartialEq, Eq, Structural)]
pub enum BodyCoupling {
    /// The body pushes particles; particles do not push back.
    OneWay,
    /// Each pushes the other.
    TwoWays,
}

/// One collider that the particles must treat as an obstacle.
#[derive(Clone, Copy, Debug, PartialEq, Eq)]
pub struct BodyCouplingEntry {
    pub body: RigidBodyHandle,
    pub collider: ColliderHandle,
    pub mode: BodyCoupling,
}

/// A collider marked for coupling, with the rigid body that it is attached to.
#[derive(Clone, Copy, Debug, PartialEq, Eq)]
pub struct CoupledCollider {
    pub collider: ColliderHandle,
    pub parent: RigidBodyHandle,
}

/// An elastic material.
#[derive(Clone, Copy, Debug, PartialEq, Eq, Structural)]
pub struct ElasticModel {
    pub young_modulus: i64,
    pub poisson_ratio: i64,
}

/// The Drucker-Prager plasticity of a granular material.  The angles `h0`,
/// `h1` and `h3` are in thousandths of a degree.
#[derive(Clone, Copy, Debug, PartialEq, Eq, Structural)]
pub struct DruckerPrager {
    pub young_modulus: i64,
    pub poisson_ratio: i64,
    pub h0: i64,
    pub h1: i64,
    pub h2: i64,
    pub h3: i64,
}

/// One particle of the granular solver.
#[derive(Clone, Copy, Debug, PartialEq, Eq, Structural)]
pub struct Particle {
    pub position: Point3,
    pub radius: i64,
    pub density: i64,
    pub model: ElasticModel,
    pub plasticity: Option<DruckerPrager>,
}

/// An authored rock, and whether the ray from its centre straight up meets
/// any collider.
#[derive(Clone, Copy, Debug, PartialEq, Eq, Structural)]
pub struct ProbedRock {
    pub center: Vec3,
    pub obstructed: bool,
}

/// A ray, from `origin` along `direction`, without a limit of length.
#[derive(Clone, Copy, Debug, PartialEq, Eq, Structural)]
pub struct Ray {
    pub origin: Point3,
    pub direction: Vec3,
}

/// What the solver is told about time and gravity.
#[derive(Clone, Copy, Debug, PartialEq, Eq, Structural)]
pub struct SimulationParams {
    pub gravity: Point3,
    /// The solver's time step is one second divided by this.
    pub steps_per_second: u64,
}

/// Everything that the solver is seeded with.
pub struct SolverContext {
    pub simulation_params: SimulationParams,
    pub particles: Vec<Particle>,
    pub coupling_entries: Vec<BodyCouplingEntry>,
    pub cell_width: i64,
    pub grid_capacity: u32,
}

/// What one tick knows of the world before seeding.
#[derive(Clone, Copy, Debug, PartialEq, Eq, Structural)]
pub struct WorldReadiness {
    /// The physics world exists.
    pub physics_ready: bool,
    /// Colliders in the physics world.
    pub collider_count: usize,
    /// Colliders marked for coupling.
    pub coupled_collider_count: usize,
    /// Terrain handles found.
    pub map_handle_count: usize,
    /// The terrain behind the handle is loaded.
    pub map_loaded: bool,
}

/// Where the adapter stands.
#[derive(Clone, Copy, Debug, PartialEq, Eq, Structural)]
pub enum CouplingState {
    /// Waiting for the world.
    Uninitialized,
    /// The world is there; particles are being made.
    Seeding,
    /// The solver has its particles.
    Ready,
}

/// Whether the world allows seeding: it exists and holds a collider, enough
/// colliders are marked for coupling, and the one terrain is loaded.
pub open spec fn world_ready(w: WorldReadiness) -> bool {
    &&& w.physics_ready
    &&& w.collider_count > 0
    &&& w.coupled_collider_count >= MIN_COUPLED_COLLIDERS
    &&& w.map_handle_count == 1
    &&& w.map_loaded
}

/// Whether a tick that sees `w` in state `s` starts seeding.
pub open spec fn starts_seeding(s: CouplingState, w: WorldReadiness) -> bool {
    s == CouplingState::Uninitialized && world_ready(w)
}

/// The state after a tick that sees `w` in state `s`.
pub open spec fn polled(s: CouplingState, w: WorldReadiness) -> CouplingState {
    if starts_seeding(s, w) {
        CouplingState::Seeding
    } else {
        s
    }
}

/// The state after an attempt to seed in state `s`.
pub open spec fn seeded_state(s: CouplingState) -> CouplingState {
    if s == CouplingState::Seeding {
        CouplingState::Ready
    } else {
        s
    }
}

/// `-1` or `1`: on which side of the rock's centre part `i` lies along x.
pub open spec fn octant_x(i: int) -> int {
    if i == 1 || i == 2 || i == 5 || i == 6 {
        1
    } else {
        -1
    }
}

/// `-1` or `1`: on which side of the rock's centre part `i` lies along y.
pub open spec fn octant_y(i: int) -> int {
    if i == 2 || i == 3 || i == 6 || i == 7 {
        1
    } else {
        -1
    }
}

/// `-1` or `1`: on which side of the rock's centre part `i` lies along z.
pub open spec fn octant_z(i: int) -> int {
    if i >= 4 {
        1
    } else {
        -1
    }
}

/// The centre of part `i` of the rock at `center`.
pub open spec fn octant_center(center: Vec3, i: int) -> Point3 {
    Point3 {
        x: (center.x + SUBROCK_OFFSET * octant_x(i)) as i64,
        y: (center.y + SUBROCK_OFFSET * octant_y(i)) as i64,
        z: (center.z + SUBROCK_OFFSET * octant_z(i)) as i64,
    }
}

/// The material that every rock particle is made of.
pub open spec fn rock_model() -> ElasticModel {
    ElasticModel { young_modulus: YOUNG_MODULUS, poisson_ratio: POISSON_RATIO }
}

/// The plasticity that every rock particle has.
pub open spec fn rock_plasticity() -> DruckerPrager {
    DruckerPrager {
        young_modulus: YOUNG_MODULUS,
        poisson_ratio: POISSON_RATIO,
        h0: 75_000,
        h1: 90_000,
        h2: 600,
        h3: 30_000,
    }
}

/// The particle that stands for part `i` of the rock at `center`.
pub open spec fn rock_particle(center: Vec3, i: int) -> Particle {
    Particle {
        position: octant_center(center, i),
        radius: PARTICLE_RADIUS,
        density: ROCK_DENSITY,
        model: rock_model(),
        plasticity: Some(rock_plasticity()),
    }
}

/// The eight particles of the rock at `center`.
pub open spec fn split_rock(center: Vec3) -> Seq<Particle> {
    Seq::new(8, |i: int| rock_particle(center, i))
}

/// The particles of one rock: none where it starts inside solid ground,
/// else its eight parts.
pub open spec fn particles_of(rock: ProbedRock) -> Seq<Particle> {
    if rock.obstructed {
        Seq::empty()
    } else {
        split_rock(rock.center)
    }
}

/// The particles of all rocks, in the order of the rocks.
pub open spec fn seeded(rocks: Seq<ProbedRock>) -> Seq<Particle>
    decreases rocks.len(),
{
    if rocks.len() == 0 {
        Seq::empty()
    } else {
        seeded(rocks.drop_last()) + particles_of(rocks.last())
    }
}

/// How many of `rocks` do not start inside solid ground.
pub open spec fn survivors(rocks: Seq<ProbedRock>) -> nat
    decreases rocks.len(),
{
    if rocks.len() == 0 {
        0
    } else {
        survivors(rocks.drop_last()) + (if rocks.last().obstructed { 0nat } else { 1nat })
    }
}

/// The entry of one coupled collider: with its parent body, one way.
pub open spec fn entry_of(c: CoupledCollider) -> BodyCouplingEntry {
    BodyCouplingEntry { body: c.parent, collider: c.collider, mode: BodyCoupling::OneWay }
}

/// The entries of all coupled colliders, in their order.
pub open spec fn entries_of(coupled: Seq<CoupledCollider>) -> Seq<BodyCouplingEntry> {
    Seq::new(coupled.len(), |i: int| entry_of(coupled[i]))
}

/// Gravity scaled by `factor` thousandths, rounded toward zero, pointing
/// down the z axis.
pub open spec fn scaled_gravity(factor: i32) -> Point3 {
    Point3 { x: 0, y: 0, z: (-toward_zero_div(GRAVITY * factor, 1000)) as i64 }
}

/// The ray that tells whether the rock at `center` starts under any
/// collider: from the centre straight up.
pub fn probe_ray(center: Vec3) -> (ray: Ray)
    ensures
        ray.origin == center.widen(),
        ray.direction == (Vec3 { x: 0, y: 0, z: 1000 }),
{
    Ray { origin: center.to_point(), direction: Vec3 { x: 0, y: 0, z: 1000 } }
}

/// Splits the box of edge [`ROCK_SIZE`] around `center` at its centre and
/// makes one particle of each part.
pub fn split_rock_into_particles(center: Vec3) -> (particles: Vec<Particle>)
    ensures
        particles@ == split_rock(center),
{
    let model = ElasticModel { young_modulus: YOUNG_MODULUS, poisson_ratio: POISSON_RATIO };
    let plasticity = DruckerPrager {
        young_modulus: YOUNG_MODULUS,
        poisson_ratio: POISSON_RATIO,
        h0: 75_000,
        h1: 90_000,
        h2: 600,
        h3: 30_000,
    };
    let c = center.to_point();
    let mut particles: Vec<Particle> = Vec::new();
    let mut i: usize = 0;
    while i < 8
        invariant
            i <= 8,
            c == center.widen(),
            model == rock_model(),
            plasticity == rock_plasticity(),
            particles@.len() == i,
            forall|j: int| 0 <= j < i ==> particles@[j] == rock_particle(center, j),
        decreases 8 - i,
    {
        let sx: i64 = if i == 1 || i == 2 || i == 5 || i == 6 { 1 } else { -1 };
        let sy: i64 = if i == 2 || i == 3 || i == 6 || i == 7 { 1 } else { -1 };
        let sz: i64 = if i >= 4 { 1 } else { -1 };
        let position = Point3 {
            x: c.x + SUBROCK_OFFSET * sx,
            y: c.y + SUBROCK_OFFSET * sy,
            z: c.z + SUBROCK_OFFSET * sz,
        };
        particles.push(
            Particle {
                position,
                radius: SUBROCK_SIZE / 2,
                density: ROCK_DENSITY,
                model,
                plasticity: Some(plasticity),
            },
        );
        i += 1;
    }
    assert(particles@ =~= split_rock(center));
    particles
}

/// Makes the particles of all rocks: a rock that starts inside solid ground
/// gives none, every other rock its eight parts, in the order of the rocks.
pub fn seed_particles(rocks: &Vec<ProbedRock>) -> (particles: Vec<Particle>)
    ensures
        particles@ == seeded(rocks@),
{
    let mut particles: Vec<Particle> = Vec::new();
    let mut i: usize = 0;
    while i < rocks.len()
        invariant
            i <= rocks.len(),
            particles@ == seeded(rocks@.subrange(0, i as int)),
        decreases rocks.len() - i,
    {
        let rock = rocks[i];
        let ghost before = particles@;
        if !rock.obstructed {
            let mut parts = split_rock_into_particles(rock.center);
            particles.append(&mut parts);
        }
        i += 1;
        proof {
            let now = rocks@.subrange(0, i as int);
            assert(now.drop_last() == rocks@.subrange(0, i as int - 1));
            assert(now.last() == rock);
            assert(particles@ == before + particles_of(rock));
        }
    }
    proof {
        assert(rocks@.subrange(0, i as int) == rocks@);
    }
    particles
}

/// Pairs every coupled collider with its parent body, one way.
pub fn coupling_entries(coupled: &Vec<CoupledCollider>) -> (entries: Vec<BodyCouplingEntry>)
    ensures
        entries@ == entries_of(coupled@),
{
    let mut entries: Vec<BodyCouplingEntry> = Vec::new();
    let mut i: usize = 0;
    while i < coupled.len()
        invariant
            i <= coupled.len(),
            entries@.len() == i,
            forall|j: int| 0 <= j < i ==> entries@[j] == entry_of(coupled@[j]),
        decreases coupled.len() - i,
    {
        let c = coupled[i];
        entries.push(
            BodyCouplingEntry { body: c.parent, collider: c.collider, mode: BodyCoupling::OneWay },
        );
        i += 1;
    }
    assert(entries@ =~= entries_of(coupled@));
    entries
}

/// The one-shot gate in front of seeding, with the settings that the solver
/// is seeded under.
pub struct TerrainCouplingAdapter {
    state: CouplingState,
    restarting: bool,
    num_substeps: u32,
    gravity_factor: i32,
}

/// What the solver is told about time and gravity under `num_substeps`
/// substeps and gravity scaled by `gravity_factor` thousandths.
pub open spec fn simulation_params_for(num_substeps: u32, gravity_factor: i32) -> SimulationParams {
    SimulationParams {
        gravity: scaled_gravity(gravity_factor),
        steps_per_second: (STEPS_PER_SECOND * num_substeps) as u64,
    }
}

impl TerrainCouplingAdapter {
    /// Where the adapter stands.
    pub closed spec fn spec_state(&self) -> CouplingState {
        self.state
    }

    /// Whether the settings of an earlier run are kept.
    pub closed spec fn spec_restarting(&self) -> bool {
        self.restarting
    }

    /// Substeps per solver step.
    pub closed spec fn spec_num_substeps(&self) -> u32 {
        self.num_substeps
    }

    /// Thousandths of standard gravity that the solver applies.
    pub closed spec fn spec_gravity_factor(&self) -> i32 {
        self.gravity_factor
    }

    /// The substeps that seeding settles on: those of the earlier run when
    /// restarting, else two.
    pub open spec fn settled_substeps(&self) -> u32 {
        if self.spec_restarting() {
            self.spec_num_substeps()
        } else {
            2
        }
    }

    /// The gravity factor that seeding settles on: that of the earlier run
    /// when restarting, else one.
    pub open spec fn settled_gravity_factor(&self) -> i32 {
        if self.spec_restarting() {
            self.spec_gravity_factor()
        } else {
            1000
        }
    }

    /// Whether `other` has the settings of `self`.
    pub open spec fn same_settings(&self, other: &TerrainCouplingAdapter) -> bool {
        &&& self.spec_restarting() == other.spec_restarting()
        &&& self.spec_num_substeps() == other.spec_num_substeps()
        &&& self.spec_gravity_factor() == other.spec_gravity_factor()
    }

    /// An adapter that waits for the world of a first run.
    pub fn new() -> (a: TerrainCouplingAdapter)
        ensures
            a.spec_state() == CouplingState::Uninitialized,
            !a.spec_restarting(),
            a.spec_num_substeps() == 2,
            a.spec_gravity_factor() == 1000,
    {
        TerrainCouplingAdapter {
            state: CouplingState::Uninitialized,
            restarting: false,
            num_substeps: 2,
            gravity_factor: 1000,
        }
    }

    /// An adapter that waits for the world of a run that keeps the substeps
    /// and the gravity factor of the run before it.
    pub fn restart(num_substeps: u32, gravity_factor: i32) -> (a: TerrainCouplingAdapter)
        ensures
            a.spec_state() == CouplingState::Uninitialized,
            a.spec_restarting(),
            a.spec_num_substeps() == num_substeps,
            a.spec_gravity_factor() == gravity_factor,
    {
        TerrainCouplingAdapter {
            state: CouplingState::Uninitialized,
            restarting: true,
            num_substeps,
            gravity_factor,
        }
    }

    /// Where the adapter stands.
    pub fn state(&self) -> (s: CouplingState)
        ensures
            s == self.spec_state(),
    {
        self.state
    }

    /// Whether the settings of an earlier run are kept.
    pub fn restarting(&self) -> (b: bool)
        ensures
            b == self.spec_restarting(),
    {
        self.restarting
    }

    /// Substeps per solver step.
    pub fn num_substeps(&self) -> (n: u32)
        ensures
            n == self.spec_num_substeps(),
    {
        self.num_substeps
    }

    /// Thousandths of standard gravity that the solver applies.
    pub fn gravity_factor(&self) -> (f: i32)
        ensures
            f == self.spec_gravity_factor(),
    {
        self.gravity_factor
    }

    /// Whether seeding has started, so that no later tick starts it again.
    pub fn particles_initialized(&self) -> (b: bool)
        ensures
            b == (self.spec_state() != CouplingState::Uninitialized),
    {
        match self.state {
            CouplingState::Uninitialized => false,
            _ => true,
        }
    }

    /// Looks at the world of one tick.  Seeding starts, and `true` comes
    /// back, on the first tick that finds the world ready; on every other
    /// tick nothing changes.
    pub fn poll(&mut self, world: &WorldReadiness) -> (start: bool)
        ensures
            start == starts_seeding(old(self).spec_state(), *world),
            final(self).spec_state() == polled(old(self).spec_state(), *world),
            final(self).same_settings(old(self)),
    {
        if !world.physics_ready {
            return false;
        }
        if world.collider_count == 0 || world.coupled_collider_count < MIN_COUPLED_COLLIDERS {
            return false;
        }
        if world.map_handle_count != 1 {
            return false;
        }
        match self.state {
            CouplingState::Uninitialized => {},
            _ => {
                return false;
            },
        }
        if !world.map_loaded {
            return false;
        }
        self.state = CouplingState::Seeding;
        true
    }

    /// Makes what the solver is seeded with, once: while seeding, the
    /// particles of `rocks`, one entry for each coupled collider, and the
    /// settings settled on; at any other time nothing, and nothing changes.
    pub fn seed(&mut self, rocks: &Vec<ProbedRock>, coupled: &Vec<CoupledCollider>) -> (context:
        Option<SolverContext>)
        ensures
            old(self).spec_state() != CouplingState::Seeding ==> context is None && *final(self)
                == *old(self),
            old(self).spec_state() == CouplingState::Seeding ==> {
                &&& context matches Some(c)
                &&& c.particles@ == seeded(rocks@)
                &&& c.coupling_entries@ == entries_of(coupled@)
                &&& c.simulation_params == simulation_params_for(
                    old(self).settled_substeps(),
                    old(self).settled_gravity_factor(),
                )
                &&& c.cell_width == CELL_WIDTH
                &&& c.grid_capacity == GRID_CAPACITY
                &&& final(self).spec_state() == CouplingState::Ready
                &&& final(self).spec_restarting() == old(self).spec_restarting()
                &&& final(self).spec_num_substeps() == old(self).settled_substeps()
                &&& final(self).spec_gravity_factor() == old(self).settled_gravity_factor()
            },
    {
        match self.state {
            CouplingState::Seeding => {},
            _ => {
                return None;
            },
        }
        self.state = CouplingState::Ready;
        let coupling_entries = coupling_entries(coupled);
        if !self.restarting {
            self.num_substeps = 2;
            self.gravity_factor = 1000;
        }
        let pull: i64 = (GRAVITY * (self.gravity_factor as i64)) / 1000;
        let simulation_params = SimulationParams {
            gravity: Point3 { x: 0, y: 0, z: -pull },
            steps_per_second: STEPS_PER_SECOND * (self.num_substeps as u64),
        };
        let particles = seed_particles(rocks);
        Some(
            SolverContext {
                simulation_params,
                particles,
                coupling_entries,
                cell_width: CELL_WIDTH,
                grid_capacity: GRID_CAPACITY,
            },
        )
    }
}

/// One tick of the terrain coupling: looks at the world and, on the first
/// tick that finds it ready, makes what the solver is seeded with.  On every
/// other tick nothing comes back.
pub fn setup_mpm_particles(
    adapter: &mut TerrainCouplingAdapter,
    world: &WorldReadiness,
    rocks: &Vec<ProbedRock>,
    coupled: &Vec<CoupledCollider>,
) -> (context: Option<SolverContext>)
    ensures
        context is Some <==> polled(old(adapter).spec_state(), *world) == CouplingState::Seeding,
        final(adapter).spec_state() == seeded_state(polled(old(adapter).spec_state(), *world)),
        context matches Some(c) ==> {
            &&& c.particles@ == seeded(rocks@)
            &&& c.coupling_entries@ == entries_of(coupled@)
            &&& c.simulation_params == simulation_params_for(
                old(adapter).settled_substeps(),
                old(adapter).settled_gravity_factor(),
            )
            &&& c.cell_width == CELL_WIDTH
            &&& c.grid_capacity == GRID_CAPACITY
            &&& final(adapter).spec_restarting() == old(adapter).spec_restarting()
            &&& final(adapter).spec_num_substeps() == old(adapter).settled_substeps()
            &&& final(adapter).spec_gravity_factor() == old(adapter).settled_gravity_factor()
        },
        context is None ==> final(adapter).same_settings(old(adapter)),
{
    adapter.poll(world);
    adapter.seed(rocks, coupled)
}

} // verus!
