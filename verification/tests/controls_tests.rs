use bevy::input::keyboard::KeyCode;
use bevy::input::ButtonInput;
use bevy_rapier3d::rapier::dynamics::RigidBodyHandle;
use vehicle_sim::controller::{QueryFilter, VehicleController};
use vehicle_sim::controls::{
    capped_delta, init_vehicle_controller, ui_cycle_vehicles, update_vehicle_controller,
    update_vehicle_controls, CurrentSelection, Entity, TimestepMode,
};
use vehicle_sim::input::cycle_requested;
use vehicle_sim::params::VehicleControllerParameters;

fn e(id: u64) -> Entity {
    Entity { id }
}

fn tab() -> ButtonInput<KeyCode> {
    let mut inputs = ButtonInput::<KeyCode>::default();
    inputs.press(KeyCode::Tab);
    inputs
}

#[test]
fn cycling_starts_at_the_first_vehicle() {
    let vehicles = vec![e(10), e(20), e(30)];
    let mut selection = CurrentSelection::none();
    assert_eq!(selection.entity, None);
    selection.cycle(&vehicles);
    assert_eq!(selection.entity, Some(e(10)));
    selection.cycle(&vehicles);
    assert_eq!(selection.entity, Some(e(20)));
    selection.cycle(&vehicles);
    assert_eq!(selection.entity, Some(e(30)));
    selection.cycle(&vehicles);
    assert_eq!(selection.entity, Some(e(10)));
}

#[test]
fn cycling_recovers_from_a_lost_vehicle() {
    let mut selection = CurrentSelection { entity: Some(e(99)) };
    selection.cycle(&vec![e(10), e(20)]);
    assert_eq!(selection.entity, Some(e(10)));
    let mut selection = CurrentSelection { entity: Some(e(99)) };
    selection.cycle(&Vec::new());
    assert_eq!(selection.entity, None);
    let mut selection = CurrentSelection::none();
    selection.cycle(&Vec::new());
    assert_eq!(selection.entity, None);
    let mut selection = CurrentSelection { entity: Some(e(10)) };
    selection.cycle(&vec![e(10)]);
    assert_eq!(selection.entity, Some(e(10)));
}

#[test]
fn cycling_goes_by_the_first_occurrence() {
    let vehicles = vec![e(1), e(2), e(1), e(3)];
    let mut selection = CurrentSelection { entity: Some(e(1)) };
    selection.cycle(&vehicles);
    assert_eq!(selection.entity, Some(e(2)));
    selection.cycle(&vehicles);
    assert_eq!(selection.entity, Some(e(1)));
}

#[test]
fn the_selection_moves_only_when_tab_went_down() {
    let vehicles = vec![e(10), e(20)];
    let mut selection = CurrentSelection::none();
    let mut inputs = tab();
    assert!(cycle_requested(&inputs));
    ui_cycle_vehicles(&inputs, &mut selection, &vehicles);
    assert_eq!(selection.entity, Some(e(10)));
    // Next tick: the key is still held, but it did not go down again.
    inputs.clear();
    assert!(inputs.pressed(KeyCode::Tab));
    assert!(!cycle_requested(&inputs));
    ui_cycle_vehicles(&inputs, &mut selection, &vehicles);
    assert_eq!(selection.entity, Some(e(10)));
    // Another key going down does not move it either.
    inputs.press(KeyCode::ArrowUp);
    ui_cycle_vehicles(&inputs, &mut selection, &vehicles);
    assert_eq!(selection.entity, Some(e(10)));
    inputs.release(KeyCode::Tab);
    inputs.clear();
    inputs.press(KeyCode::Tab);
    ui_cycle_vehicles(&inputs, &mut selection, &vehicles);
    assert_eq!(selection.entity, Some(e(20)));
}

#[test]
fn a_controller_comes_with_its_chassis() {
    let p = VehicleControllerParameters::default();
    assert!(init_vehicle_controller(None, &p).is_none());
    let handle = RigidBodyHandle::from_raw_parts(4, 9);
    let c = init_vehicle_controller(Some(handle), &p).unwrap();
    assert_eq!(c.chassis(), handle);
    assert_eq!(c.wheels().len(), 4);
    assert_eq!(c.wheels(), VehicleController::new(handle, &p).wheels());
    assert_eq!(c.index_up_axis(), 2);
}

#[test]
fn a_variable_step_is_capped() {
    let variable = TimestepMode::Variable { max_dt: 16_667 };
    assert_eq!(capped_delta(&variable, 5_000), 5_000);
    assert_eq!(capped_delta(&variable, 16_667), 16_667);
    assert_eq!(capped_delta(&variable, 16_668), 16_667);
    assert_eq!(capped_delta(&variable, u64::MAX), 16_667);
    assert_eq!(capped_delta(&TimestepMode::Variable { max_dt: 0 }, 9), 0);
}

#[test]
fn other_steps_are_left_alone() {
    assert_eq!(capped_delta(&TimestepMode::Fixed { dt: 16_667 }, 100_000), 100_000);
    assert_eq!(capped_delta(&TimestepMode::Interpolated { dt: 16_667 }, 100_000), 100_000);
    assert_eq!(capped_delta(&TimestepMode::Fixed { dt: 16_667 }, 0), 0);
}

#[test]
fn the_controller_is_asked_for_a_capped_step() {
    let handle = RigidBodyHandle::from_raw_parts(4, 9);
    let c = VehicleController::new(handle, &VehicleControllerParameters::default());
    let request =
        update_vehicle_controller(250_000, &TimestepMode::Variable { max_dt: 16_667 }, &c);
    assert_eq!(request.dt, 16_667);
    assert_eq!(request.chassis, handle);
    assert_eq!(
        request.filter,
        QueryFilter { exclude_dynamic: true, exclude_rigid_body: Some(handle) }
    );
    let request = update_vehicle_controller(250_000, &TimestepMode::Fixed { dt: 16_667 }, &c);
    assert_eq!(request.dt, 250_000);
}

#[test]
fn only_the_selected_vehicle_is_driven() {
    let p = VehicleControllerParameters::default();
    let handle = RigidBodyHandle::from_raw_parts(4, 9);
    let mut inputs = ButtonInput::<KeyCode>::default();
    inputs.press(KeyCode::ArrowUp);
    inputs.press(KeyCode::ArrowRight);
    let selection = CurrentSelection { entity: Some(e(2)) };

    let mut selected = VehicleController::new(handle, &p);
    update_vehicle_controls(&selection, &inputs, e(2), &mut selected, &p);
    assert_eq!(selected.wheels()[0].engine_force, 10_000);
    assert_eq!(selected.wheels()[1].engine_force, 10_000);
    assert_eq!(selected.wheels()[0].steering_angle, -700);
    assert_eq!(selected.wheels()[2].engine_force, 0);

    let mut other = VehicleController::new(handle, &p);
    other.integrate_actions(&inputs, &p);
    update_vehicle_controls(&selection, &inputs, e(3), &mut other, &p);
    for w in other.wheels().iter() {
        assert_eq!(w.engine_force, 0);
        assert_eq!(w.steering_angle, 0);
    }

    let nobody = CurrentSelection::none();
    update_vehicle_controls(&nobody, &inputs, e(2), &mut selected, &p);
    for w in selected.wheels().iter() {
        assert_eq!(w.engine_force, 0);
        assert_eq!(w.steering_angle, 0);
    }
}
