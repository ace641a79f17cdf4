use bevy_rapier3d::rapier::dynamics::RigidBodyHandle;
use bevy_rapier3d::rapier::geometry::ColliderHandle;
use vehicle_sim::coupling::{
    coupling_entries, probe_ray, seed_particles, setup_mpm_particles, split_rock_into_particles,
    BodyCoupling, BodyCouplingEntry, CoupledCollider, CouplingState, DruckerPrager, ElasticModel,
    Particle, ProbedRock, SimulationParams, TerrainCouplingAdapter, WorldReadiness, CELL_WIDTH,
    GRID_CAPACITY, MIN_COUPLED_COLLIDERS, PARTICLE_RADIUS, ROCK_SIZE, SUBROCK_OFFSET,
    SUBROCK_SIZE,
};
use vehicle_sim::units::{Point3, Vec3};

fn ready() -> WorldReadiness {
    WorldReadiness {
        physics_ready: true,
        collider_count: 12,
        coupled_collider_count: 5,
        map_handle_count: 1,
        map_loaded: true,
    }
}

fn rock(x: i32, y: i32, z: i32, obstructed: bool) -> ProbedRock {
    ProbedRock { center: Vec3::new(x, y, z), obstructed }
}

fn coupled(n: u32) -> Vec<CoupledCollider> {
    (0..n)
        .map(|i| CoupledCollider {
            collider: ColliderHandle::from_raw_parts(i, 1),
            parent: RigidBodyHandle::from_raw_parts(100 + i, 2),
        })
        .collect()
}

fn rock_particle(x: i64, y: i64, z: i64) -> Particle {
    Particle {
        position: Point3::new(x, y, z),
        radius: 250,
        density: 2_700_000,
        model: ElasticModel { young_modulus: 10_000_000_000, poisson_ratio: 200 },
        plasticity: Some(DruckerPrager {
            young_modulus: 10_000_000_000,
            poisson_ratio: 200,
            h0: 75_000,
            h1: 90_000,
            h2: 600,
            h3: 30_000,
        }),
    }
}

#[test]
fn a_rock_under_the_ground_gives_no_particle() {
    // The rock lies a tenth below a flat surface at z = 0: the ray from its
    // centre straight up meets the surface.
    let ray = probe_ray(Vec3::new(2_000, 3_000, -100));
    assert_eq!(ray.origin, Point3::new(2_000, 3_000, -100));
    assert_eq!(ray.direction, Vec3::new(0, 0, 1000));
    let particles = seed_particles(&vec![rock(2_000, 3_000, -100, true)]);
    assert_eq!(particles.len(), 0);
}

#[test]
fn a_free_rock_gives_its_eight_octants() {
    let particles = seed_particles(&vec![rock(2_000, -3_000, 10_000, false)]);
    assert_eq!(
        particles,
        vec![
            rock_particle(1_750, -3_250, 9_750),
            rock_particle(2_250, -3_250, 9_750),
            rock_particle(2_250, -2_750, 9_750),
            rock_particle(1_750, -2_750, 9_750),
            rock_particle(1_750, -3_250, 10_250),
            rock_particle(2_250, -3_250, 10_250),
            rock_particle(2_250, -2_750, 10_250),
            rock_particle(1_750, -2_750, 10_250),
        ]
    );
    assert_eq!(split_rock_into_particles(Vec3::new(2_000, -3_000, 10_000)), particles);
}

#[test]
fn particle_size_follows_the_rock_size() {
    assert_eq!(ROCK_SIZE, 1000);
    assert_eq!(SUBROCK_SIZE, ROCK_SIZE / 2);
    assert_eq!(SUBROCK_OFFSET, ROCK_SIZE / 4);
    assert_eq!(PARTICLE_RADIUS, 250);
    // Twice the radius is the cube root of the volume of one part.
    assert_eq!((2 * PARTICLE_RADIUS).pow(3), SUBROCK_SIZE.pow(3));
}

#[test]
fn survivors_give_eight_each_in_order() {
    let rocks = vec![
        rock(0, 0, 5_000, false),
        rock(1_000, 0, -5_000, true),
        rock(2_000, 0, 5_000, false),
        rock(3_000, 0, -1, true),
        rock(4_000, 0, 5_000, false),
    ];
    let particles = seed_particles(&rocks);
    assert_eq!(particles.len(), 24);
    assert_eq!(particles[0], rock_particle(-250, -250, 4_750));
    assert_eq!(particles[8], rock_particle(1_750, -250, 4_750));
    assert_eq!(particles[16], rock_particle(3_750, -250, 4_750));
    assert_eq!(particles[23], rock_particle(3_750, 250, 5_250));
    assert_eq!(seed_particles(&Vec::new()), Vec::new());
}

#[test]
fn rocks_at_the_edge_of_the_range_do_not_overflow() {
    let particles = seed_particles(&vec![rock(i32::MAX, i32::MIN, 0, false)]);
    assert_eq!(particles.len(), 8);
    assert_eq!(particles[6].position, Point3::new(2_147_483_897, -2_147_483_398, 250));
    assert_eq!(particles[0].position, Point3::new(2_147_483_397, -2_147_483_898, -250));
}

#[test]
fn every_coupled_collider_is_coupled_one_way() {
    let entries = coupling_entries(&coupled(3));
    assert_eq!(
        entries,
        vec![
            BodyCouplingEntry {
                body: RigidBodyHandle::from_raw_parts(100, 2),
                collider: ColliderHandle::from_raw_parts(0, 1),
                mode: BodyCoupling::OneWay,
            },
            BodyCouplingEntry {
                body: RigidBodyHandle::from_raw_parts(101, 2),
                collider: ColliderHandle::from_raw_parts(1, 1),
                mode: BodyCoupling::OneWay,
            },
            BodyCouplingEntry {
                body: RigidBodyHandle::from_raw_parts(102, 2),
                collider: ColliderHandle::from_raw_parts(2, 1),
                mode: BodyCoupling::OneWay,
            },
        ]
    );
    assert_eq!(coupling_entries(&Vec::new()), Vec::new());
}

#[test]
fn the_adapter_waits_for_each_precondition() {
    assert_eq!(MIN_COUPLED_COLLIDERS, 5);
    let not_ready = [
        WorldReadiness { physics_ready: false, ..ready() },
        WorldReadiness { collider_count: 0, ..ready() },
        WorldReadiness { coupled_collider_count: 4, ..ready() },
        WorldReadiness { map_handle_count: 0, ..ready() },
        WorldReadiness { map_handle_count: 2, ..ready() },
        WorldReadiness { map_loaded: false, ..ready() },
    ];
    let mut adapter = TerrainCouplingAdapter::new();
    for world in not_ready.iter() {
        assert!(!adapter.poll(world));
        assert_eq!(adapter.state(), CouplingState::Uninitialized);
        assert!(!adapter.particles_initialized());
        assert!(adapter.seed(&vec![rock(0, 0, 0, false)], &coupled(5)).is_none());
        assert_eq!(adapter.state(), CouplingState::Uninitialized);
    }
    assert!(adapter.poll(&ready()));
    assert_eq!(adapter.state(), CouplingState::Seeding);
    assert!(adapter.particles_initialized());
}

#[test]
fn seeding_happens_once() {
    let rocks = vec![rock(0, 0, 5_000, false), rock(0, 0, -100, true)];
    let mut adapter = TerrainCouplingAdapter::new();
    // Tick N.
    assert!(adapter.poll(&ready()));
    let context = adapter.seed(&rocks, &coupled(5)).unwrap();
    assert_eq!(context.particles.len(), 8);
    assert_eq!(context.coupling_entries.len(), 5);
    assert_eq!(adapter.state(), CouplingState::Ready);
    // Tick N + 1.
    assert!(!adapter.poll(&ready()));
    assert!(adapter.seed(&rocks, &coupled(5)).is_none());
    assert_eq!(adapter.state(), CouplingState::Ready);
    assert_eq!(adapter.num_substeps(), 2);
    assert_eq!(adapter.gravity_factor(), 1000);
}

#[test]
fn setup_seeds_on_the_first_ready_tick_only() {
    let rocks = vec![rock(0, 0, 5_000, false), rock(0, 0, -100, true), rock(9, 9, 9, false)];
    let mut adapter = TerrainCouplingAdapter::new();
    let waiting = WorldReadiness { map_loaded: false, ..ready() };
    assert!(setup_mpm_particles(&mut adapter, &waiting, &rocks, &coupled(6)).is_none());
    assert_eq!(adapter.state(), CouplingState::Uninitialized);
    let context = setup_mpm_particles(&mut adapter, &ready(), &rocks, &coupled(6)).unwrap();
    assert_eq!(adapter.state(), CouplingState::Ready);
    assert_eq!(context.particles, seed_particles(&rocks));
    assert_eq!(context.particles.len(), 16);
    assert_eq!(context.coupling_entries, coupling_entries(&coupled(6)));
    assert_eq!(
        context.simulation_params,
        SimulationParams { gravity: Point3::new(0, 0, -9_810), steps_per_second: 120 }
    );
    assert_eq!(context.cell_width, 500);
    assert_eq!(context.cell_width, CELL_WIDTH);
    assert_eq!(context.grid_capacity, 60_000);
    assert_eq!(context.grid_capacity, GRID_CAPACITY);
    assert!(setup_mpm_particles(&mut adapter, &ready(), &rocks, &coupled(6)).is_none());
    assert!(setup_mpm_particles(&mut adapter, &waiting, &rocks, &coupled(6)).is_none());
    assert_eq!(adapter.state(), CouplingState::Ready);
}

#[test]
fn a_restart_keeps_its_settings() {
    let mut adapter = TerrainCouplingAdapter::restart(4, 500);
    assert_eq!(adapter.state(), CouplingState::Uninitialized);
    let context = setup_mpm_particles(&mut adapter, &ready(), &Vec::new(), &coupled(5)).unwrap();
    assert_eq!(
        context.simulation_params,
        SimulationParams { gravity: Point3::new(0, 0, -4_905), steps_per_second: 240 }
    );
    assert_eq!(adapter.num_substeps(), 4);
    assert_eq!(adapter.gravity_factor(), 500);
    assert!(adapter.restarting());

    let mut reversed = TerrainCouplingAdapter::restart(0, -1);
    let context = setup_mpm_particles(&mut reversed, &ready(), &Vec::new(), &coupled(5)).unwrap();
    assert_eq!(
        context.simulation_params,
        SimulationParams { gravity: Point3::new(0, 0, 9), steps_per_second: 0 }
    );

    let mut extreme = TerrainCouplingAdapter::restart(u32::MAX, i32::MIN);
    let context = setup_mpm_particles(&mut extreme, &ready(), &Vec::new(), &coupled(5)).unwrap();
    assert_eq!(
        context.simulation_params,
        SimulationParams {
            gravity: Point3::new(0, 0, 21_066_814_586),
            steps_per_second: 257_698_037_700,
        }
    );
}

#[test]
fn a_first_run_settles_on_two_substeps_and_full_gravity() {
    let mut adapter = TerrainCouplingAdapter::new();
    assert!(!adapter.restarting());
    let context = setup_mpm_particles(&mut adapter, &ready(), &Vec::new(), &coupled(5)).unwrap();
    assert_eq!(context.simulation_params.steps_per_second, 120);
    assert_eq!(context.simulation_params.gravity, Point3::new(0, 0, -9_810));
    assert!(context.particles.is_empty());
}
