//! What each tick decides for a vehicle: which one is driven, when its
//! controller comes to be, what it is told and how long a step it takes.

use crate::controller::{
    fresh_wheels, integrated, stopped, QueryFilter, UpdateRequest, VehicleController,
};
use crate::input::{cycle_requested, drive_keys_of, fresh_keys, held_keys, DriveKey};
use crate::params::VehicleControllerParameters;
use bevy::input::ButtonInput;
use bevy::input::keyboard::KeyCode;
use bevy_rapier3d::rapier::dynamics::RigidBodyHandle;
use vstd::prelude::*;

verus! {

/// Names a vehicle.
#[derive(Clone, Copy, Debug, PartialEq, Eq, Structural)]
pub struct Entity {
    pub id: u64,
}

/// The vehicle that the driver's keys go to, if any.
#[derive(Clone, Copy, Debug, PartialEq, Eq, Structural)]
pub struct CurrentSelection {
    pub entity: Option<Entity>,
}

/// How the length of a physics step is chosen.  Times are in microseconds.
#[derive(Clone, Copy, Debug, PartialEq, Eq, Structural)]
pub enum TimestepMode {
    /// Every step has the same length.
    Fixed { dt: u64 },
    /// A step is as long as the frame took, up to `max_dt`.
    Variable { max_dt: u64 },
    /// Every step has the same length, and is skipped while the simulation
    /// is ahead of the clock.
    Interpolated { dt: u64 },
}

/// The first vehicle, if there is one.
pub open spec fn first_of(vehicles: Seq<Entity>) -> Option<Entity> {
    if vehicles.len() > 0 {
        Some(vehicles[0])
    } else {
        None
    }
}

/// Whether `i` is the first place at which `e` stands in `vehicles`.
pub open spec fn is_first_position(vehicles: Seq<Entity>, e: Entity, i: int) -> bool {
    &&& 0 <= i < vehicles.len()
    &&& vehicles[i] == e
    &&& forall|j: int| 0 <= j < i ==> vehicles[j] != e
}

/// The selection after the one at `current`: the first vehicle where none is
/// selected or the selected one is gone, else the vehicle after the selected
/// one, and the first after the last.
pub open spec fn next_selection(current: Option<Entity>, vehicles: Seq<Entity>) -> Option<Entity> {
    match current {
        None => first_of(vehicles),
        Some(e) => if vehicles.contains(e) {
            let i = choose|i: int| is_first_position(vehicles, e, i);
            Some(vehicles[(i + 1) % (vehicles.len() as int)])
        } else {
            first_of(vehicles)
        },
    }
}

/// The step that a frame of `delta` microseconds takes under `mode`: under a
/// variable step no more than its `max_dt`, else `delta` as it is.
pub open spec fn capped(mode: TimestepMode, delta: u64) -> u64 {
    match mode {
        TimestepMode::Variable { max_dt } => if delta <= max_dt {
            delta
        } else {
            max_dt
        },
        _ => delta,
    }
}

impl CurrentSelection {
    /// No vehicle selected.
    pub fn none() -> (s: CurrentSelection)
        ensures
            s.entity is None,
    {
        CurrentSelection { entity: None }
    }

    /// Moves the selection on, see [`next_selection`].
    pub fn cycle(&mut self, vehicles: &Vec<Entity>)
        ensures
            final(self).entity == next_selection(old(self).entity, vehicles@),
    {
        let first = if vehicles.len() > 0 { Some(vehicles[0]) } else { None };
        let current_entity = match self.entity {
            None => {
                self.entity = first;
                return ;
            },
            Some(e) => e,
        };
        let mut i: usize = 0;
        while i < vehicles.len()
            invariant
                i <= vehicles.len(),
                old(self).entity == Some(current_entity),
                forall|j: int| 0 <= j < i ==> vehicles@[j] != current_entity,
            decreases vehicles.len() - i,
        {
            if vehicles[i] == current_entity {
                proof {
                    assert(is_first_position(vehicles@, current_entity, i as int));
                    let k = choose|k: int| is_first_position(vehicles@, current_entity, k);
                    assert(k == i) by {
                        if k < i {
                            assert(vehicles@[k] != current_entity);
                        } else if i < k {
                            assert(vehicles@[i as int] != current_entity);
                        }
                    }
                    assert(vehicles@.contains(current_entity));
                    if i + 1 < vehicles.len() {
                        vstd::arithmetic::div_mod::lemma_small_mod(
                            (i + 1) as nat,
                            vehicles.len() as nat,
                        );
                    } else {
                        vstd::arithmetic::div_mod::lemma_mod_self_0(vehicles.len() as int);
                    }
                }
                let next = if i + 1 < vehicles.len() { i + 1 } else { 0 };
                self.entity = Some(vehicles[next]);
                return ;
            }
            i += 1;
        }
        self.entity = first;
    }
}

/// Moves the selection on when the cycling key went down since the last
/// tick, and leaves it otherwise.
pub fn ui_cycle_vehicles(
    inputs: &ButtonInput<KeyCode>,
    current_selection: &mut CurrentSelection,
    vehicles: &Vec<Entity>,
)
    ensures
        final(current_selection).entity == (if fresh_keys(*inputs).contains(DriveKey::Tab) {
            next_selection(old(current_selection).entity, vehicles@)
        } else {
            old(current_selection).entity
        }),
{
    if cycle_requested(inputs) {
        current_selection.cycle(vehicles);
    }
}

/// Builds the controller of a vehicle once its chassis exists, and nothing
/// before.
pub fn init_vehicle_controller(
    body_handle: Option<RigidBodyHandle>,
    vehicle_parameters: &VehicleControllerParameters,
) -> (controller: Option<VehicleController>)
    ensures
        body_handle is None <==> controller is None,
        controller matches Some(c) ==> {
            &&& c@ == fresh_wheels(*vehicle_parameters)
            &&& Some(c.spec_chassis()) == body_handle
            &&& c.spec_index_up_axis() == (if vehicle_parameters.crawler { 1usize } else { 2usize })
            &&& c.spec_index_forward_axis() == (if vehicle_parameters.crawler {
                0usize
            } else {
                1usize
            })
        },
{
    match body_handle {
        Some(handle) => Some(VehicleController::new(handle, vehicle_parameters)),
        None => None,
    }
}

/// Computes [`capped`].
pub fn capped_delta(timestep_mode: &TimestepMode, delta: u64) -> (dt: u64)
    ensures
        dt == capped(*timestep_mode, delta),
{
    match timestep_mode {
        TimestepMode::Variable { max_dt } => if delta <= *max_dt {
            delta
        } else {
            *max_dt
        },
        _ => delta,
    }
}

/// What a frame of `delta` microseconds asks of the physics world for one
/// vehicle: a step of the capped length, under the usual filter.
pub fn update_vehicle_controller(
    delta: u64,
    timestep_mode: &TimestepMode,
    vehicle_controller: &VehicleController,
) -> (request: UpdateRequest)
    ensures
        request.chassis == vehicle_controller.spec_chassis(),
        request.dt == capped(*timestep_mode, delta),
        request.filter == (QueryFilter {
            exclude_dynamic: true,
            exclude_rigid_body: Some(vehicle_controller.spec_chassis()),
        }),
{
    // A longer step would push the vehicle too far at once and make it hard
    // to control.
    let dt = capped_delta(timestep_mode, delta);
    vehicle_controller.update_vehicle(dt)
}

/// Hands the held keys to the vehicle `entity` if it is the selected one,
/// and stops it otherwise.
pub fn update_vehicle_controls(
    current_selection: &CurrentSelection,
    inputs: &ButtonInput<KeyCode>,
    entity: Entity,
    vehicle_controller: &mut VehicleController,
    parameters: &VehicleControllerParameters,
)
    ensures
        final(vehicle_controller)@ == (if current_selection.entity == Some(entity) {
            integrated(old(vehicle_controller)@, drive_keys_of(held_keys(*inputs)), *parameters)
        } else {
            stopped(old(vehicle_controller)@)
        }),
        final(vehicle_controller).spec_chassis() == old(vehicle_controller).spec_chassis(),
        final(vehicle_controller).spec_index_up_axis() == old(
            vehicle_controller,
        ).spec_index_up_axis(),
        final(vehicle_controller).spec_index_forward_axis() == old(
            vehicle_controller,
        ).spec_index_forward_axis(),
{
    let selected = match current_selection.entity {
        Some(e) => e == entity,
        None => false,
    };
    if !selected {
        vehicle_controller.stop();
    } else {
        vehicle_controller.integrate_actions(inputs, parameters);
    }
}

} // verus!
