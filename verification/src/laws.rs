//! What holds of the drive train and of the terrain coupling on every input.

use crate::controller::{
    after_raycast, after_raycasts, base_force, fresh_wheels, integrated, stopped, QueryFilter,
    steering_for, RayCastInfo, WheelState, STEERING_STEP,
};
use crate::controls::{capped, TimestepMode};
use crate::coupling::{
    particles_of, polled, seeded, seeded_state, split_rock, starts_seeding, survivors,
    world_ready, CouplingState, ProbedRock, WorldReadiness, PARTICLE_RADIUS, SUBROCK_OFFSET,
    SUBROCK_SIZE,
};
use crate::input::{axis, DriveKeys};
use crate::params::VehicleControllerParameters;
use crate::units::Vec3;
use bevy_rapier3d::rapier::dynamics::RigidBodyHandle;
use vstd::prelude::*;

verus! {

/// A controller has four wheels when it is built, and four after any run of
/// key snapshots, stops and raycast results.
pub proof fn law_four_wheels(
    wheels: Seq<WheelState>,
    keys: DriveKeys,
    hits: Seq<Option<RayCastInfo>>,
    p: VehicleControllerParameters,
)
    requires
        wheels.len() == 4,
    ensures
        fresh_wheels(p).len() == 4,
        integrated(wheels, keys, p).len() == 4,
        stopped(wheels).len() == 4,
        after_raycasts(wheels, hits).len() == 4,
{
}

/// With steering wheels, whatever keys are held, both front wheels get the
/// same engine force and the same steering angle, and the rear wheels stay
/// exactly as they were.
pub proof fn law_front_axle_symmetry(
    wheels: Seq<WheelState>,
    keys: DriveKeys,
    p: VehicleControllerParameters,
)
    requires
        wheels.len() == 4,
        !p.crawler,
    ensures
        integrated(wheels, keys, p)[0].engine_force == integrated(wheels, keys, p)[1].engine_force,
        integrated(wheels, keys, p)[0].steering_angle == integrated(
            wheels,
            keys,
            p,
        )[1].steering_angle,
        integrated(wheels, keys, p)[2] == wheels[2],
        integrated(wheels, keys, p)[3] == wheels[3],
{
}

/// With steering wheels and exactly one of the forward and backward keys
/// held, the front wheels push with the whole engine force, forward or
/// backward; with at most one of the left and right keys held they steer by
/// one steering step to that side, or not at all.
pub proof fn law_front_axle_command(
    wheels: Seq<WheelState>,
    keys: DriveKeys,
    p: VehicleControllerParameters,
)
    requires
        wheels.len() == 4,
        !p.crawler,
        keys.up != keys.down,
        !(keys.left && keys.right),
    ensures
        integrated(wheels, keys, p)[0].engine_force == (if keys.up {
            p.engine_force as int
        } else {
            -(p.engine_force as int)
        }),
        integrated(wheels, keys, p)[0].steering_angle == (if keys.left {
            STEERING_STEP as int
        } else if keys.right {
            -(STEERING_STEP as int)
        } else {
            0
        }),
{
    let f = p.engine_force as int;
    let a = axis(keys.up, keys.down);
    assert(f * a == (if a == 1 { f } else { -f })) by (nonlinear_arith)
        requires
            a == 1 || a == -1,
    ;
}

/// The steering angle that any keys ask for lies within one steering step
/// to either side, and the base force within the engine force.
pub proof fn law_command_range(keys: DriveKeys, engine_force: int)
    ensures
        -STEERING_STEP <= steering_for(keys) <= STEERING_STEP,
        base_force(keys, engine_force) == engine_force || base_force(keys, engine_force)
            == -engine_force || base_force(keys, engine_force) == 0,
{
    let a = axis(keys.up, keys.down);
    assert(engine_force * a == (if a == 1 {
        engine_force
    } else if a == -1 {
        -engine_force
    } else {
        0
    })) by (nonlinear_arith)
        requires
            a == 1 || a == -1 || a == 0,
    ;
}

/// A crawler whose forward and backward keys ask for no force stands still,
/// whatever the left and right keys say: it cannot turn on the spot.
pub proof fn law_crawler_needs_throttle(
    wheels: Seq<WheelState>,
    keys: DriveKeys,
    p: VehicleControllerParameters,
)
    requires
        wheels.len() == 4,
        p.crawler,
        base_force(keys, p.engine_force as int) == 0,
    ensures
        forall|i: int| 0 <= i < 4 ==> (#[trigger] integrated(wheels, keys, p)[i]).engine_force == 0,
{
}

/// A crawler with neither or both of the forward and backward keys held is
/// asked for no force.
pub proof fn law_crawler_idle_keys(keys: DriveKeys, engine_force: int)
    requires
        keys.up == keys.down,
    ensures
        base_force(keys, engine_force) == 0,
{
    assert(engine_force * 0 == 0) by (nonlinear_arith);
}

/// A crawler that drives forward with a positive engine force turns by
/// force alone: the left key adds the engine force to the right wheels, the
/// right key adds it to the left wheels, a side whose key is not held gets
/// the base force, and no steering angle changes.
pub proof fn law_crawler_turns_by_force(
    wheels: Seq<WheelState>,
    keys: DriveKeys,
    p: VehicleControllerParameters,
)
    requires
        wheels.len() == 4,
        p.crawler,
        p.engine_force > 0,
        keys.up && !keys.down,
    ensures
        forall|i: int|
            0 <= i < 4 ==> (#[trigger] integrated(wheels, keys, p)[i]).steering_angle
                == wheels[i].steering_angle,
        integrated(wheels, keys, p)[0].engine_force == (if keys.right {
            2 * p.engine_force
        } else {
            p.engine_force as int
        }),
        integrated(wheels, keys, p)[1].engine_force == (if keys.left {
            2 * p.engine_force
        } else {
            p.engine_force as int
        }),
        integrated(wheels, keys, p)[2].engine_force == integrated(wheels, keys, p)[0].engine_force,
        integrated(wheels, keys, p)[3].engine_force == integrated(wheels, keys, p)[1].engine_force,
{
    let f = p.engine_force as int;
    assert(f * 1 == f) by (nonlinear_arith);
    assert(0 * 1 == 0) by (nonlinear_arith);
    assert(base_force(keys, f) == f);
}

/// Stopping leaves every wheel without engine force and steering angle, and
/// stopping again changes nothing.
pub proof fn law_stop_idempotent(wheels: Seq<WheelState>)
    requires
        wheels.len() == 4,
    ensures
        forall|i: int|
            0 <= i < 4 ==> (#[trigger] stopped(wheels)[i]).engine_force == 0 && stopped(
                wheels,
            )[i].steering_angle == 0,
        stopped(stopped(wheels)) == stopped(wheels),
{
    assert(stopped(stopped(wheels)) =~= stopped(wheels));
}

/// After a stop, the held keys give every wheel the engine force and the
/// steering angle that they give the wheels of a controller just built.
pub proof fn law_stop_then_drive(
    wheels: Seq<WheelState>,
    keys: DriveKeys,
    p: VehicleControllerParameters,
)
    requires
        wheels.len() == 4,
    ensures
        forall|i: int|
            0 <= i < 4 ==> {
                &&& (#[trigger] integrated(stopped(wheels), keys, p)[i]).engine_force == integrated(
                    fresh_wheels(p),
                    keys,
                    p,
                )[i].engine_force
                &&& integrated(stopped(wheels), keys, p)[i].steering_angle == integrated(
                    fresh_wheels(p),
                    keys,
                    p,
                )[i].steering_angle
            },
{
}

/// A wheel whose suspension ray finds nothing is off the ground, has no
/// contact point, and its suspension is at rest; what it was told to do is
/// unchanged.
pub proof fn law_no_contact(w: WheelState)
    ensures
        !after_raycast(w, None).is_in_contact,
        after_raycast(w, None).contact_point_world is None,
        after_raycast(w, None).suspension_length_current == w.suspension_rest_length,
        after_raycast(w, None).engine_force == w.engine_force,
        after_raycast(w, None).steering_angle == w.steering_angle,
        after_raycast(w, None).brake == w.brake,
{
}

/// Under the usual filter of a controller, a suspension ray ignores the
/// chassis itself and every dynamic body, and nothing else.
pub proof fn law_usual_filter(chassis: RigidBodyHandle, body: RigidBodyHandle, dynamic: bool)
    ensures
        (QueryFilter { exclude_dynamic: true, exclude_rigid_body: Some(chassis) }).ignores(
            body,
            dynamic,
        ) <==> (dynamic || body == chassis),
{
}

/// A step never exceeds the frame that it stands for, and under a variable
/// step never the cap.
pub proof fn law_capped_step(mode: TimestepMode, delta: u64)
    ensures
        capped(mode, delta) <= delta,
        mode matches TimestepMode::Variable { max_dt } ==> capped(mode, delta) <= max_dt,
{
}

/// A rock that starts inside solid ground gives no particle; every other
/// rock gives exactly eight.
pub proof fn law_discard_or_eight(rock: ProbedRock)
    ensures
        rock.obstructed ==> particles_of(rock).len() == 0,
        !rock.obstructed ==> particles_of(rock).len() == 8,
{
}

/// The particles of any rocks are eight for each rock that does not start
/// inside solid ground.
pub proof fn law_eight_per_survivor(rocks: Seq<ProbedRock>)
    ensures
        seeded(rocks).len() == 8 * survivors(rocks),
    decreases rocks.len(),
{
    if rocks.len() > 0 {
        law_eight_per_survivor(rocks.drop_last());
        law_discard_or_eight(rocks.last());
    }
}

/// The eight particles of a rock lie at the centres of the eight parts of
/// its box, a quarter of the box's edge from the rock's centre along each
/// axis, and no two at the same place.
pub proof fn law_octants(center: Vec3, i: int, j: int)
    requires
        0 <= i < 8,
        0 <= j < 8,
    ensures
        split_rock(center)[i].position.x - center.x == SUBROCK_OFFSET || center.x - split_rock(
            center,
        )[i].position.x == SUBROCK_OFFSET,
        split_rock(center)[i].position.y - center.y == SUBROCK_OFFSET || center.y - split_rock(
            center,
        )[i].position.y == SUBROCK_OFFSET,
        split_rock(center)[i].position.z - center.z == SUBROCK_OFFSET || center.z - split_rock(
            center,
        )[i].position.z == SUBROCK_OFFSET,
        i != j ==> split_rock(center)[i].position != split_rock(center)[j].position,
{
}

/// The radius of a rock particle is half the cube root of the volume of the
/// part that it stands for.
pub proof fn law_particle_radius()
    ensures
        (2 * PARTICLE_RADIUS) * (2 * PARTICLE_RADIUS) * (2 * PARTICLE_RADIUS) == SUBROCK_SIZE
            * SUBROCK_SIZE * SUBROCK_SIZE,
{
}

/// Seeding starts on the first tick that finds the world ready, and on no
/// tick after it: once it started, no world starts it again.
pub proof fn law_seeding_one_shot(s: CouplingState, first: WorldReadiness, second: WorldReadiness)
    requires
        world_ready(first),
        world_ready(second),
    ensures
        s == CouplingState::Uninitialized ==> starts_seeding(s, first),
        !starts_seeding(polled(s, first), second),
        !starts_seeding(seeded_state(polled(s, first)), second),
        polled(seeded_state(polled(s, first)), second) == CouplingState::Ready,
{
}

/// While the world is not ready nothing starts and nothing changes.
pub proof fn law_seeding_waits(s: CouplingState, w: WorldReadiness)
    requires
        !world_ready(w),
    ensures
        !starts_seeding(s, w),
        polled(s, w) == s,
{
}

} // verus!
