//! The raycast vehicle controller: four wheels, their commands, and what a
//! tick asks of and learns from the physics world.

use crate::input::{axis, drive_keys, drive_keys_of, held_keys, DriveKeys};
use crate::params::{VehicleControllerParameters, WheelTuning};
use crate::units::{sign, sign_of, Point3, Vec3};
use bevy::input::ButtonInput;
use bevy::input::keyboard::KeyCode;
use bevy_rapier3d::rapier::dynamics::RigidBodyHandle;
use bevy_rapier3d::rapier::geometry::ColliderHandle;
use vstd::prelude::*;

verus! {

/// The steering angle that one held steering key stands for.
pub const STEERING_STEP: i64 = 700;

/// The physics engine's name for a rigid body, declared so that it can be
/// carried.  Nothing is claimed of it here.
#[verifier::external_type_specification]
#[verifier::external_body]
pub struct ExRigidBodyHandle(RigidBodyHandle);

/// The physics engine's name for a collider, declared so that it can be
/// carried.  Nothing is claimed of it here.
#[verifier::external_type_specification]
#[verifier::external_body]
pub struct ExColliderHandle(ColliderHandle);

/// What the suspension ray of one wheel found during a tick.
#[derive(Clone, Copy, Debug, PartialEq, Eq, Structural)]
pub struct RayCastInfo {
    /// Where the ray met the ground, in world space.
    pub contact_point_world: Point3,
    /// The length of the suspension at that contact.
    pub suspension_length: i64,
}

/// One wheel: where it is mounted, how it is tuned, what it is told to do and
/// what its suspension ray last found.
#[derive(Clone, Copy, Debug, PartialEq, Eq, Structural)]
pub struct WheelState {
    /// Mount point relative to the chassis origin.
    pub local_position: Point3,
    /// Direction of the suspension ray relative to the chassis.
    pub direction: Vec3,
    /// Axle axis relative to the chassis.
    pub axle: Vec3,
    pub radius: i32,
    pub suspension_rest_length: i32,
    pub tuning: WheelTuning,
    pub engine_force: i64,
    pub steering_angle: i64,
    pub brake: i32,
    pub is_in_contact: bool,
    pub contact_point_world: Option<Point3>,
    pub suspension_length_current: i64,
}

/// Which colliders a suspension ray passes through unnoticed.
#[derive(Clone, Copy, Debug, PartialEq, Eq)]
pub struct QueryFilter {
    /// Colliders of dynamic bodies are passed through.
    pub exclude_dynamic: bool,
    /// Colliders of this body are passed through.
    pub exclude_rigid_body: Option<RigidBodyHandle>,
}

impl QueryFilter {
    /// The filter that passes through every collider of a dynamic body.
    pub fn exclude_dynamic() -> (f: QueryFilter)
        ensures
            f == (QueryFilter { exclude_dynamic: true, exclude_rigid_body: None }),
    {
        QueryFilter { exclude_dynamic: true, exclude_rigid_body: None }
    }

    /// The same filter, passing through the colliders of `rigid_body` too.
    pub fn exclude_rigid_body(self, rigid_body: RigidBodyHandle) -> (f: QueryFilter)
        ensures
            f == (QueryFilter { exclude_rigid_body: Some(rigid_body), ..self }),
    {
        QueryFilter { exclude_dynamic: self.exclude_dynamic, exclude_rigid_body: Some(rigid_body) }
    }

    /// Whether a ray under this filter ignores a collider attached to `body`,
    /// which is dynamic or not.
    pub open spec fn ignores(self, body: RigidBodyHandle, dynamic: bool) -> bool {
        (self.exclude_dynamic && dynamic) || self.exclude_rigid_body == Some(body)
    }
}

/// What one tick asks of the physics world: to cast each wheel's suspension
/// ray under `filter` and to advance the chassis `chassis` by `dt`.
#[derive(Clone, Copy, Debug, PartialEq, Eq)]
pub struct UpdateRequest {
    pub chassis: RigidBodyHandle,
    /// The time step in microseconds, as the caller gave it.
    pub dt: u64,
    pub filter: QueryFilter,
}

/// The wheel that a controller built from `p` has at slot `i`: mounted at the
/// `i`-th position, its suspension pointing down and its axle to the right,
/// braked as its axle is, at rest and off the ground.
pub open spec fn fresh_wheel(p: VehicleControllerParameters, i: int) -> WheelState {
    WheelState {
        local_position: p.wheel_positions@[i],
        direction: Vec3 { x: 0, y: 0, z: -1000i32 },
        axle: Vec3 { x: 1000, y: 0, z: 0 },
        radius: p.wheel_radius,
        suspension_rest_length: p.suspension_rest_length,
        tuning: p.wheel_tuning,
        engine_force: 0,
        steering_angle: 0,
        brake: p.wheel_brake@[i / 2],
        is_in_contact: false,
        contact_point_world: None,
        suspension_length_current: 0,
    }
}

/// The four wheels of a controller built from `p`.
pub open spec fn fresh_wheels(p: VehicleControllerParameters) -> Seq<WheelState> {
    Seq::new(4, |i: int| fresh_wheel(p, i))
}

/// `w` told to push with `engine_force` and to steer by `steering_angle`.
pub open spec fn commanded(w: WheelState, engine_force: int, steering_angle: int) -> WheelState {
    WheelState { engine_force: engine_force as i64, steering_angle: steering_angle as i64, ..w }
}

/// `w` told to push with `engine_force`, its steering left as it is.
pub open spec fn powered(w: WheelState, engine_force: int) -> WheelState {
    WheelState { engine_force: engine_force as i64, ..w }
}

/// The force that the forward and backward keys ask for: `engine_force`
/// forward, the same backward, nothing where both or neither are held.
pub open spec fn base_force(keys: DriveKeys, engine_force: int) -> int {
    engine_force * axis(keys.up, keys.down)
}

/// The steering angle that the left and right keys ask for.
pub open spec fn steering_for(keys: DriveKeys) -> int {
    STEERING_STEP * axis(keys.left, keys.right)
}

/// The extra force of the left track: the right key speeds it up.
pub open spec fn left_offset(keys: DriveKeys, engine_force: int) -> int {
    if keys.right {
        engine_force
    } else {
        0
    }
}

/// The extra force of the right track: the left key speeds it up.
pub open spec fn right_offset(keys: DriveKeys, engine_force: int) -> int {
    if keys.left {
        engine_force
    } else {
        0
    }
}

/// The force of a track under `keys`: the base force, and the track's
/// `offset` in the direction in which the base force already pushes.
pub open spec fn track_force(keys: DriveKeys, engine_force: int, offset: int) -> int {
    base_force(keys, engine_force) + offset * sign(base_force(keys, engine_force))
}

/// Steering wheels under `keys`: the front axle pushes and steers, the rear
/// axle keeps what it had.
pub open spec fn steered(wheels: Seq<WheelState>, keys: DriveKeys, engine_force: int) -> Seq<
    WheelState,
> {
    seq![
        commanded(wheels[0], base_force(keys, engine_force), steering_for(keys)),
        commanded(wheels[1], base_force(keys, engine_force), steering_for(keys)),
        wheels[2],
        wheels[3],
    ]
}

/// Tracks under `keys`: the left wheels push with the left track's force,
/// the right wheels with the right track's, and no steering angle changes.
pub open spec fn skid_steered(wheels: Seq<WheelState>, keys: DriveKeys, engine_force: int) -> Seq<
    WheelState,
> {
    let left = track_force(keys, engine_force, left_offset(keys, engine_force));
    let right = track_force(keys, engine_force, right_offset(keys, engine_force));
    seq![
        powered(wheels[0], left),
        powered(wheels[1], right),
        powered(wheels[2], left),
        powered(wheels[3], right),
    ]
}

/// The wheels after the held keys `keys` were applied under `p`.
pub open spec fn integrated(
    wheels: Seq<WheelState>,
    keys: DriveKeys,
    p: VehicleControllerParameters,
) -> Seq<WheelState> {
    if p.crawler {
        skid_steered(wheels, keys, p.engine_force as int)
    } else {
        steered(wheels, keys, p.engine_force as int)
    }
}

/// The wheels with every engine force and steering angle at zero.
pub open spec fn stopped(wheels: Seq<WheelState>) -> Seq<WheelState> {
    Seq::new(wheels.len(), |i: int| commanded(wheels[i], 0, 0))
}

/// Wheel `w` after its suspension ray found `hit`: in contact at the point
/// found, or off the ground with its suspension at rest.
pub open spec fn after_raycast(w: WheelState, hit: Option<RayCastInfo>) -> WheelState {
    match hit {
        Some(info) => WheelState {
            is_in_contact: true,
            contact_point_world: Some(info.contact_point_world),
            suspension_length_current: info.suspension_length,
            ..w
        },
        None => WheelState {
            is_in_contact: false,
            contact_point_world: None,
            suspension_length_current: w.suspension_rest_length as i64,
            ..w
        },
    }
}

/// The wheels after each suspension ray found what `hits` says.
pub open spec fn after_raycasts(wheels: Seq<WheelState>, hits: Seq<Option<RayCastInfo>>) -> Seq<
    WheelState,
> {
    Seq::new(wheels.len(), |i: int| after_raycast(wheels[i], hits[i]))
}

impl WheelState {
    /// How far the suspension ray reaches from the mount point: the rest
    /// length of the suspension and the radius of the wheel.
    pub open spec fn spec_ray_length(self) -> int {
        self.suspension_rest_length + self.radius
    }

    /// Computes the reach of the suspension ray.
    pub fn ray_length(&self) -> (l: i64)
        ensures
            l == self.spec_ray_length(),
    {
        self.suspension_rest_length as i64 + self.radius as i64
    }
}

/// A vehicle's four wheels and the chassis that they carry.
pub struct VehicleController {
    wheels: Vec<WheelState>,
    chassis: RigidBodyHandle,
    index_up_axis: usize,
    index_forward_axis: usize,
}

impl View for VehicleController {
    type V = Seq<WheelState>;

    /// The wheels, front left, front right, rear left, rear right.
    closed spec fn view(&self) -> Seq<WheelState> {
        self.wheels@
    }
}

impl VehicleController {
    #[verifier::type_invariant]
    spec fn four_wheels(self) -> bool {
        self.wheels@.len() == 4
    }

    /// The chassis that the wheels carry.
    pub closed spec fn spec_chassis(&self) -> RigidBodyHandle {
        self.chassis
    }

    /// The chassis axis that points up: `0`, `1` or `2` for x, y or z.
    pub closed spec fn spec_index_up_axis(&self) -> usize {
        self.index_up_axis
    }

    /// The chassis axis that points forward: `0`, `1` or `2` for x, y or z.
    pub closed spec fn spec_index_forward_axis(&self) -> usize {
        self.index_forward_axis
    }

    /// Builds the four wheels of [`fresh_wheels`] on `body_chassis`.  A
    /// crawler keeps y up and x forward; steering wheels take z up and y
    /// forward.
    pub fn new(body_chassis: RigidBodyHandle, parameters: &VehicleControllerParameters) -> (c:
        VehicleController)
        ensures
            c@ == fresh_wheels(*parameters),
            c.spec_chassis() == body_chassis,
            c.spec_index_up_axis() == (if parameters.crawler { 1usize } else { 2usize }),
            c.spec_index_forward_axis() == (if parameters.crawler { 0usize } else { 1usize }),
    {
        let mut wheels: Vec<WheelState> = Vec::new();
        let mut i: usize = 0;
        while i < 4
            invariant
                i <= 4,
                wheels@.len() == i,
                forall|j: int| 0 <= j < i ==> wheels@[j] == fresh_wheel(*parameters, j),
            decreases 4 - i,
        {
            wheels.push(
                WheelState {
                    local_position: parameters.wheel_positions[i],
                    direction: Vec3 { x: 0, y: 0, z: -1000 },
                    axle: Vec3 { x: 1000, y: 0, z: 0 },
                    radius: parameters.wheel_radius,
                    suspension_rest_length: parameters.suspension_rest_length,
                    tuning: parameters.wheel_tuning,
                    engine_force: 0,
                    steering_angle: 0,
                    brake: parameters.wheel_brake[i / 2],
                    is_in_contact: false,
                    contact_point_world: None,
                    suspension_length_current: 0,
                },
            );
            i += 1;
        }
        assert(wheels@ =~= fresh_wheels(*parameters));
        VehicleController {
            wheels,
            chassis: body_chassis,
            index_up_axis: if parameters.crawler { 1 } else { 2 },
            index_forward_axis: if parameters.crawler { 0 } else { 1 },
        }
    }

    /// The four wheels, front left, front right, rear left, rear right.
    pub fn wheels(&self) -> (w: &Vec<WheelState>)
        ensures
            w@ == self@,
            w@.len() == 4,
    {
        proof {
            use_type_invariant(self);
        }
        &self.wheels
    }

    /// The chassis that the wheels carry.
    pub fn chassis(&self) -> (h: RigidBodyHandle)
        ensures
            h == self.spec_chassis(),
    {
        self.chassis
    }

    /// The chassis axis that points up.
    pub fn index_up_axis(&self) -> (a: usize)
        ensures
            a == self.spec_index_up_axis(),
    {
        self.index_up_axis
    }

    /// The chassis axis that points forward.
    pub fn index_forward_axis(&self) -> (a: usize)
        ensures
            a == self.spec_index_forward_axis(),
    {
        self.index_forward_axis
    }

    /// Tells the tracks what the held keys ask for, see [`skid_steered`].
    fn integrate_actions_crawler(&mut self, keys: DriveKeys, parameters: &VehicleControllerParameters)
        ensures
            final(self)@ == skid_steered(old(self)@, keys, parameters.engine_force as int),
            final(self).spec_chassis() == old(self).spec_chassis(),
            final(self).spec_index_up_axis() == old(self).spec_index_up_axis(),
            final(self).spec_index_forward_axis() == old(self).spec_index_forward_axis(),
    {
        proof {
            use_type_invariant(&*self);
        }
        let force: i64 = parameters.engine_force as i64;
        let forward: i64 = keys.forward();
        let engine_force_base: i64 = if forward > 0 {
            force
        } else if forward < 0 {
            -force
        } else {
            0
        };
        let engine_force_left: i64 = if keys.right { force } else { 0 };
        let engine_force_right: i64 = if keys.left { force } else { 0 };
        let direction: i64 = sign_of(engine_force_base);
        let left_turn: i64 = if direction > 0 {
            engine_force_left
        } else if direction < 0 {
            -engine_force_left
        } else {
            0
        };
        let right_turn: i64 = if direction > 0 {
            engine_force_right
        } else if direction < 0 {
            -engine_force_right
        } else {
            0
        };
        let left: i64 = engine_force_base + left_turn;
        let right: i64 = engine_force_base + right_turn;
        proof {
            let f = parameters.engine_force as int;
            let b = base_force(keys, f);
            assert(engine_force_base == b) by (nonlinear_arith)
                requires
                    b == f * axis(keys.up, keys.down),
                    forward == axis(keys.up, keys.down),
                    -1 <= forward <= 1,
                    engine_force_base == (if forward > 0 { f } else if forward < 0 { -f } else { 0 }),
            ;
            assert(left_turn == left_offset(keys, f) * sign(b)) by (nonlinear_arith)
                requires
                    -1 <= sign(b) <= 1,
                    left_turn == (if sign(b) > 0 {
                        left_offset(keys, f)
                    } else if sign(b) < 0 {
                        -left_offset(keys, f)
                    } else {
                        0
                    }),
            ;
            assert(right_turn == right_offset(keys, f) * sign(b)) by (nonlinear_arith)
                requires
                    -1 <= sign(b) <= 1,
                    right_turn == (if sign(b) > 0 {
                        right_offset(keys, f)
                    } else if sign(b) < 0 {
                        -right_offset(keys, f)
                    } else {
                        0
                    }),
            ;
        }
        let mut w0 = self.wheels[0];
        let mut w1 = self.wheels[1];
        let mut w2 = self.wheels[2];
        let mut w3 = self.wheels[3];
        // No steering for a crawler.
        w0.engine_force = left;
        w1.engine_force = right;
        w2.engine_force = left;
        w3.engine_force = right;
        self.wheels = vec![w0, w1, w2, w3];
        assert(self.wheels@ =~= skid_steered(
            old(self).wheels@,
            keys,
            parameters.engine_force as int,
        ));
    }

    /// Tells the wheels what the keys held in `inputs` ask for: reads the
    /// four drive keys and hands them to [`VehicleController::apply_drive_keys`].
    pub fn integrate_actions(
        &mut self,
        inputs: &ButtonInput<KeyCode>,
        parameters: &VehicleControllerParameters,
    )
        ensures
            final(self)@ == integrated(old(self)@, drive_keys_of(held_keys(*inputs)), *parameters),
            final(self).spec_chassis() == old(self).spec_chassis(),
            final(self).spec_index_up_axis() == old(self).spec_index_up_axis(),
            final(self).spec_index_forward_axis() == old(self).spec_index_forward_axis(),
    {
        let keys = drive_keys(inputs);
        self.apply_drive_keys(keys, parameters);
    }

    /// Tells the wheels what the held keys ask for, see [`integrated`].
    ///
    /// A crawler drives its two sides apart.  Otherwise the front wheels push
    /// with the engine force, forward or backward, and steer by
    /// [`STEERING_STEP`], left or right; opposite keys cancel, and the rear
    /// wheels keep what they had.
    pub fn apply_drive_keys(&mut self, keys: DriveKeys, parameters: &VehicleControllerParameters)
        ensures
            final(self)@ == integrated(old(self)@, keys, *parameters),
            final(self).spec_chassis() == old(self).spec_chassis(),
            final(self).spec_index_up_axis() == old(self).spec_index_up_axis(),
            final(self).spec_index_forward_axis() == old(self).spec_index_forward_axis(),
    {
        if parameters.crawler {
            self.integrate_actions_crawler(keys, parameters);
            return ;
        }
        proof {
            use_type_invariant(&*self);
        }
        let force: i64 = parameters.engine_force as i64;
        let forward: i64 = keys.forward();
        let leftward: i64 = keys.leftward();
        let engine_force: i64 = if forward > 0 {
            force
        } else if forward < 0 {
            -force
        } else {
            0
        };
        let steering_angle: i64 = if leftward > 0 {
            STEERING_STEP
        } else if leftward < 0 {
            -STEERING_STEP
        } else {
            0
        };
        proof {
            let f = parameters.engine_force as int;
            assert(engine_force == base_force(keys, f)) by (nonlinear_arith)
                requires
                    base_force(keys, f) == f * axis(keys.up, keys.down),
                    forward == axis(keys.up, keys.down),
                    -1 <= forward <= 1,
                    engine_force == (if forward > 0 { f } else if forward < 0 { -f } else { 0 }),
            ;
        }
        let mut w0 = self.wheels[0];
        let mut w1 = self.wheels[1];
        // Front wheels are powered and steering.
        w0.engine_force = engine_force;
        w0.steering_angle = steering_angle;
        w1.engine_force = engine_force;
        w1.steering_angle = steering_angle;
        self.wheels = vec![w0, w1, self.wheels[2], self.wheels[3]];
        assert(self.wheels@ =~= steered(old(self).wheels@, keys, parameters.engine_force as int));
    }

    /// Takes every engine force and steering angle back to zero, as when
    /// the vehicle loses the driver's attention.
    pub fn stop(&mut self)
        ensures
            final(self)@ == stopped(old(self)@),
            final(self).spec_chassis() == old(self).spec_chassis(),
            final(self).spec_index_up_axis() == old(self).spec_index_up_axis(),
            final(self).spec_index_forward_axis() == old(self).spec_index_forward_axis(),
    {
        proof {
            use_type_invariant(&*self);
        }
        let mut wheels: Vec<WheelState> = Vec::new();
        let mut i: usize = 0;
        while i < 4
            invariant
                i <= 4,
                self.wheels@.len() == 4,
                wheels@.len() == i,
                forall|j: int| 0 <= j < i ==> wheels@[j] == commanded(self.wheels@[j], 0, 0),
            decreases 4 - i,
        {
            let mut w = self.wheels[i];
            w.engine_force = 0;
            w.steering_angle = 0;
            wheels.push(w);
            i += 1;
        }
        self.wheels = wheels;
        assert(self.wheels@ =~= stopped(old(self).wheels@));
    }

    /// What this tick asks of the physics world under the usual filter: a
    /// suspension ray sees neither a dynamic body nor the chassis itself.
    /// The time step is handed on as it came.
    pub fn update_vehicle(&self, dt: u64) -> (request: UpdateRequest)
        ensures
            request.chassis == self.spec_chassis(),
            request.dt == dt,
            request.filter == (QueryFilter {
                exclude_dynamic: true,
                exclude_rigid_body: Some(self.spec_chassis()),
            }),
    {
        self.update_vehicle_with_filter(
            dt,
            QueryFilter::exclude_dynamic().exclude_rigid_body(self.chassis),
        )
    }

    /// What this tick asks of the physics world under `filter`.  The time
    /// step is handed on as it came.
    pub fn update_vehicle_with_filter(&self, dt: u64, filter: QueryFilter) -> (request:
        UpdateRequest)
        ensures
            request == (UpdateRequest { chassis: self.spec_chassis(), dt, filter }),
    {
        UpdateRequest { chassis: self.chassis, dt, filter }
    }

    /// Takes in what the four suspension rays of a tick found, see
    /// [`after_raycasts`]: a wheel whose ray found nothing is off the ground,
    /// with its suspension at rest.  No command changes.
    pub fn record_raycasts(&mut self, hits: &[Option<RayCastInfo>; 4])
        ensures
            final(self)@ == after_raycasts(old(self)@, hits@),
            final(self).spec_chassis() == old(self).spec_chassis(),
            final(self).spec_index_up_axis() == old(self).spec_index_up_axis(),
            final(self).spec_index_forward_axis() == old(self).spec_index_forward_axis(),
    {
        proof {
            use_type_invariant(&*self);
        }
        let mut wheels: Vec<WheelState> = Vec::new();
        let mut i: usize = 0;
        while i < 4
            invariant
                i <= 4,
                self.wheels@.len() == 4,
                wheels@.len() == i,
                forall|j: int| 0 <= j < i ==> wheels@[j] == after_raycast(self.wheels@[j], hits@[j]),
            decreases 4 - i,
        {
            let mut w = self.wheels[i];
            match hits[i] {
                Some(info) => {
                    w.is_in_contact = true;
                    w.contact_point_world = Some(info.contact_point_world);
                    w.suspension_length_current = info.suspension_length;
                },
                None => {
                    w.is_in_contact = false;
                    w.contact_point_world = None;
                    w.suspension_length_current = w.suspension_rest_length as i64;
                },
            }
            wheels.push(w);
            i += 1;
        }
        self.wheels = wheels;
        assert(self.wheels@ =~= after_raycasts(old(self).wheels@, hits@));
    }
}

} // verus!
