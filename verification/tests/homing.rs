//! The homing controller: clamped steps, convergence, skipped joints.

use kinfer_kbot::actuators::ActuatorState;
use kinfer_kbot::constants::home_position;
use kinfer_kbot::provider::{
    home_step, normalize_angle, HOME_ERROR_THRESHOLD_MICRORAD, MAX_HOME_STEP_MICRORAD,
    PI_MICRORAD, TWO_PI_MICRORAD,
};

fn state(id: u32, position: Option<i64>) -> ActuatorState {
    ActuatorState {
        actuator_id: id,
        position,
        velocity: None,
        torque: None,
        temperature: None,
        online: position.is_some(),
    }
}

/// A mocked robot whose actuators realize every command exactly.
fn states_at(positions: &[(u32, i64)]) -> Vec<ActuatorState> {
    positions.iter().map(|(id, p)| state(*id, Some(*p))).collect()
}

#[test]
fn actuator_at_target_plus_point_two_converges() {
    // every joint starts 0.2 rad above its home target
    let mut positions: Vec<(u32, i64)> =
        home_position().iter().map(|(id, t)| (*id, t + 200_000)).collect();

    let mut iterations = 0;
    loop {
        iterations += 1;
        assert!(iterations <= 10, "homing did not converge under the 4-degree step");
        let plan = home_step(&states_at(&positions));
        if plan.converged {
            break;
        }
        // the mock actuator moves exactly to the commanded position
        for (slot, cmd) in positions.iter_mut().zip(plan.commands.iter()) {
            if let Some(c) = cmd {
                slot.1 = c.position.unwrap();
            }
        }
    }
    // 200_000 -> 130_187 -> 60_374, under the 100_000 threshold: two steps
    // of motion, converged on the third reading
    assert_eq!(iterations, 3);
    for ((_, p), (_, t)) in positions.iter().zip(home_position().iter()) {
        assert!((p - t).abs() < HOME_ERROR_THRESHOLD_MICRORAD);
    }
}

#[test]
fn each_step_is_clamped_to_four_degrees() {
    let positions: Vec<(u32, i64)> =
        home_position().iter().map(|(id, t)| (*id, t + 200_000)).collect();
    let plan = home_step(&states_at(&positions));
    assert_eq!(plan.worst_error, 200_000);
    assert!(!plan.converged);
    assert_eq!(plan.commands.len(), 20);
    for ((_, p), cmd) in positions.iter().zip(plan.commands.iter()) {
        let c = cmd.as_ref().expect("every joint had feedback");
        assert_eq!(c.position.unwrap(), p - MAX_HOME_STEP_MICRORAD);
        assert_eq!(c.velocity, None);
        assert_eq!(c.torque, None);
    }
}

#[test]
fn error_under_the_step_limit_is_removed_whole() {
    let positions: Vec<(u32, i64)> =
        home_position().iter().map(|(id, t)| (*id, t + 50_000)).collect();
    let plan = home_step(&states_at(&positions));
    assert_eq!(plan.worst_error, 50_000);
    assert!(plan.converged);
    for ((_, t), cmd) in home_position().iter().zip(plan.commands.iter()) {
        // the command lands exactly on the target
        assert_eq!(cmd.as_ref().unwrap().position.unwrap(), *t);
    }
}

#[test]
fn joint_without_feedback_is_skipped_not_converged() {
    let mut positions: Vec<ActuatorState> = home_position()
        .iter()
        .map(|(id, t)| state(*id, Some(*t)))
        .collect();
    // one joint delivers no position this iteration
    positions[4].position = None;
    let plan = home_step(&positions);
    assert!(plan.skipped);
    assert!(!plan.converged);
    assert_eq!(plan.commands.iter().filter(|c| c.is_none()).count(), 1);
    assert!(plan.commands[4].is_none());
    // the others are at their targets already
    assert_eq!(plan.worst_error, 0);
}

#[test]
fn angles_normalize_into_the_principal_range() {
    assert_eq!(normalize_angle(0), 0);
    assert_eq!(normalize_angle(PI_MICRORAD), PI_MICRORAD);
    assert_eq!(normalize_angle(PI_MICRORAD + 1), PI_MICRORAD + 1 - TWO_PI_MICRORAD);
    assert_eq!(normalize_angle(TWO_PI_MICRORAD), 0);
    assert_eq!(normalize_angle(-TWO_PI_MICRORAD), 0);
    assert_eq!(normalize_angle(4_000_000), 4_000_000 - TWO_PI_MICRORAD);
    assert_eq!(normalize_angle(-4_000_000), TWO_PI_MICRORAD - 4_000_000);
    assert_eq!(normalize_angle(3 * TWO_PI_MICRORAD + 123), 123);
    assert_eq!(normalize_angle(-3 * TWO_PI_MICRORAD - 123), -123);
}

#[test]
fn homing_sees_through_full_turn_offsets() {
    // a joint whose encoder reads one full turn above its target converges
    // immediately: the normalized error is zero
    let positions: Vec<(u32, i64)> =
        home_position().iter().map(|(id, t)| (*id, t + TWO_PI_MICRORAD)).collect();
    let plan = home_step(&states_at(&positions));
    assert_eq!(plan.worst_error, 0);
    assert!(plan.converged);
}
