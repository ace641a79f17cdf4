//! Static configuration of a vehicle: wheel layout, tuning and drive mode.

use crate::units::{half, three_halves, Point3, Vec3};
use vstd::prelude::*;

verus! {

/// Parameters affecting the physical behaviour of a wheel, in thousandths.
#[derive(Clone, Copy, Debug, PartialEq, Eq, Structural)]
pub struct WheelTuning {
    /// The suspension stiffness.
    pub suspension_stiffness: i32,
    /// The suspension's damping while it is being compressed.
    pub suspension_compression: i32,
    /// The suspension's damping while it is being released.
    pub suspension_damping: i32,
    /// How far the suspension can travel before and after its rest length.
    pub max_suspension_travel: i32,
    /// The multiplier of friction between a tire and the ground under it.
    pub side_friction_stiffness: i32,
    /// How much traction the tire has.
    pub friction_slip: i32,
    /// The largest force that the suspension applies.
    pub max_suspension_force: i32,
}

impl WheelTuning {
    /// The tuning of a light passenger car.
    pub open spec fn standard() -> WheelTuning {
        WheelTuning {
            suspension_stiffness: 5_880,
            suspension_compression: 830,
            suspension_damping: 880,
            max_suspension_travel: 5_000,
            side_friction_stiffness: 1_000,
            friction_slip: 10_500,
            max_suspension_force: 6_000_000,
        }
    }
}

impl Default for WheelTuning {
    fn default() -> (t: WheelTuning)
        ensures
            t == WheelTuning::standard(),
    {
        WheelTuning {
            suspension_stiffness: 5_880,
            suspension_compression: 830,
            suspension_damping: 880,
            max_suspension_travel: 5_000,
            side_friction_stiffness: 1_000,
            friction_slip: 10_500,
            max_suspension_force: 6_000_000,
        }
    }
}

/// Parameters from which a vehicle controller is built.
///
/// Wheels `0` and `1` form the front axle, wheels `2` and `3` the rear axle;
/// even wheels are on the left, odd wheels on the right.
#[derive(Clone, Copy, Debug)]
pub struct VehicleControllerParameters {
    /// Where each wheel is mounted, relative to the chassis.
    pub wheel_positions: [Point3; 4],
    pub wheel_tuning: WheelTuning,
    pub suspension_rest_length: i32,
    pub wheel_radius: i32,
    /// If true, wheels do not steer: the vehicle turns by driving one side
    /// harder than the other, as continuous tracks do.
    pub crawler: bool,
    /// Braking of the front axle and of the rear axle.
    pub wheel_brake: [i32; 2],
    /// The force that one held drive key stands for.
    pub engine_force: i32,
}

/// The four mount points around a chassis of half extents `half_size`
/// (half width, half length, half height), lowered or raised by
/// `contact_offset`: one and a half half-widths to either side, a half
/// length to the front and to the rear, a half height below the centre.
pub open spec fn mount_points(half_size: Vec3, contact_offset: i32) -> Seq<Point3> {
    let w = three_halves(half_size.x as int) as i64;
    let l = half_size.y as i64;
    let z = (-(half_size.z as int) + contact_offset) as i64;
    seq![
        Point3 { x: (-w) as i64, y: l, z },
        Point3 { x: w, y: l, z },
        Point3 { x: (-w) as i64, y: (-l) as i64, z },
        Point3 { x: w, y: (-l) as i64, z },
    ]
}

impl VehicleControllerParameters {
    /// The neutral baseline of [`VehicleControllerParameters::empty`].
    pub open spec fn baseline(self) -> bool {
        &&& self.wheel_positions@ == Seq::new(4, |i: int| Point3 { x: 0, y: 0, z: 0 })
        &&& self.wheel_tuning == WheelTuning::standard()
        &&& self.suspension_rest_length == 0
        &&& self.wheel_radius == 500
        &&& !self.crawler
        &&& self.wheel_brake@ == seq![250i32, 250i32]
        &&& self.engine_force == 10_000
    }

    /// Whether a controller built from these parameters has wheels of a
    /// positive radius.
    pub open spec fn valid(self) -> bool {
        self.wheel_radius > 0
    }

    /// All wheels at the chassis origin, standard tuning, a wheel radius of a
    /// half, both axles braking by a quarter, an engine force of ten, wheels
    /// that steer.
    pub fn empty() -> (p: VehicleControllerParameters)
        ensures
            p.baseline(),
            p.valid(),
    {
        let o = Point3 { x: 0, y: 0, z: 0 };
        let p = VehicleControllerParameters {
            wheel_positions: [o, o, o, o],
            wheel_tuning: WheelTuning::default(),
            suspension_rest_length: 0,
            wheel_radius: 500,
            crawler: false,
            wheel_brake: [250, 250],
            engine_force: 10_000,
        };
        assert(p.wheel_positions@ =~= Seq::new(4, |i: int| Point3 { x: 0, y: 0, z: 0 }));
        assert(p.wheel_brake@ =~= seq![250i32, 250i32]);
        p
    }

    /// Places the wheels at [`mount_points`], makes the suspension as long
    /// as the chassis is half high and the wheels half of that in radius, and
    /// keeps everything else.
    pub fn with_wheel_positions_for_half_size(self, half_size: Vec3, contact_offset: i32) -> (p:
        VehicleControllerParameters)
        ensures
            p.wheel_positions@ == mount_points(half_size, contact_offset),
            p.suspension_rest_length == half_size.z,
            p.wheel_radius == half(half_size.z as int),
            p.wheel_tuning == self.wheel_tuning,
            p.crawler == self.crawler,
            p.wheel_brake == self.wheel_brake,
            p.engine_force == self.engine_force,
            p.valid() <==> half_size.z >= 2,
    {
        let w: i64 = (3 * (half_size.x as i64)) / 2;
        let l: i64 = half_size.y as i64;
        let z: i64 = -(half_size.z as i64) + (contact_offset as i64);
        let mut p = self;
        p.wheel_positions = [
            Point3 { x: -w, y: l, z },
            Point3 { x: w, y: l, z },
            Point3 { x: -w, y: -l, z },
            Point3 { x: w, y: -l, z },
        ];
        p.suspension_rest_length = half_size.z;
        p.wheel_radius = half_size.z / 2;
        assert(p.wheel_positions@ =~= mount_points(half_size, contact_offset));
        p
    }

    /// Replaces the tuning and keeps everything else.
    pub fn with_wheel_tuning(self, wheel_tuning: WheelTuning) -> (p: VehicleControllerParameters)
        ensures
            p == (VehicleControllerParameters { wheel_tuning, ..self }),
    {
        let mut p = self;
        p.wheel_tuning = wheel_tuning;
        p
    }

    /// Chooses between steering wheels and tracks and keeps everything else.
    pub fn with_crawler(self, is_crawler: bool) -> (p: VehicleControllerParameters)
        ensures
            p == (VehicleControllerParameters { crawler: is_crawler, ..self }),
    {
        let mut p = self;
        p.crawler = is_crawler;
        p
    }
}

impl Default for VehicleControllerParameters {
    /// The baseline with the wheels placed around a chassis of half extents
    /// `(0.3, 0.15, 0.3)`, one unit lower.
    fn default() -> (p: VehicleControllerParameters)
        ensures
            p.wheel_positions@ == mount_points(Vec3 { x: 300, y: 150, z: 300 }, -1000i32),
            p.suspension_rest_length == 300,
            p.wheel_radius == 150,
            p.wheel_tuning == WheelTuning::standard(),
            !p.crawler,
            p.wheel_brake@ == seq![250i32, 250i32],
            p.engine_force == 10_000,
    {
        VehicleControllerParameters::empty().with_wheel_positions_for_half_size(
            Vec3 { x: 300, y: 150, z: 300 },
            -1000,
        )
    }
}

} // verus!
