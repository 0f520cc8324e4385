//! Batch commands are best-effort: one actuator's failure never blocks the
//! others, and every command gets exactly one result.

use kinfer_kbot::actuators::{
    actuator_state_from_feedback, collect_action_results, plan_command_batch, plan_configure,
    ActuatorCommand, ConfigureRequest,
};
use kinfer_kbot::error::{ImuField, KbotError};

fn command(id: u32, position: i64) -> ActuatorCommand {
    ActuatorCommand { actuator_id: id, position: Some(position), velocity: None, torque: None }
}

#[test]
fn one_failure_in_three_marks_only_its_own_result() {
    let commands = vec![command(11, 1), command(12, 2), command(13, 3)];
    let outcomes: Vec<Option<String>> =
        vec![None, Some("actuator did not respond".to_owned()), None];
    let results = collect_action_results(&commands, &outcomes);
    assert_eq!(results.len(), 3);
    assert!(results[0].success);
    assert_eq!(results[0].actuator_id, 11);
    assert_eq!(results[0].error, None);
    assert!(!results[1].success);
    assert_eq!(results[1].actuator_id, 12);
    assert_eq!(results[1].error, Some("actuator did not respond".to_owned()));
    assert!(results[2].success);
    assert_eq!(results[2].actuator_id, 13);
}

#[test]
fn wire_commands_default_velocity_and_torque_to_zero() {
    let commands = vec![
        ActuatorCommand {
            actuator_id: 11,
            position: Some(5),
            velocity: Some(70),
            torque: None,
        },
        command(12, -6),
    ];
    let rows = plan_command_batch(&commands).unwrap();
    assert_eq!(rows.len(), 2);
    assert_eq!(rows[0].actuator_id, 11);
    assert_eq!(rows[0].position, 5);
    assert_eq!(rows[0].velocity, 70);
    assert_eq!(rows[0].torque, 0);
    assert_eq!(rows[1].velocity, 0);
    assert_eq!(rows[1].torque, 0);
}

#[test]
fn a_command_without_a_position_fails_the_plan() {
    let commands = vec![
        command(11, 1),
        ActuatorCommand { actuator_id: 12, position: None, velocity: None, torque: None },
    ];
    assert!(matches!(
        plan_command_batch(&commands),
        Err(KbotError::NoCommandPosition(12))
    ));
}

#[test]
fn configure_plans_default_gains_to_zero() {
    let plan = plan_configure(&ConfigureRequest {
        actuator_id: 31,
        kp: None,
        kd: Some(3_419_000),
        max_torque: Some(84_000_000),
        torque_enabled: Some(true),
        zero_position: None,
        new_actuator_id: None,
        max_velocity: None,
        max_current: None,
    });
    assert_eq!(plan.actuator_id, 31);
    assert_eq!(plan.kp, 0);
    assert_eq!(plan.kd, 3_419_000);
    assert_eq!(plan.max_torque, Some(84_000_000));
    assert_eq!(plan.torque_switch, Some(true));
    assert!(!plan.zero_position);
    assert_eq!(plan.new_actuator_id, None);
}

#[test]
fn every_error_describes_its_cause() {
    let cases = vec![
        (KbotError::UnknownJointName("dof_tail_01".to_owned()), "joint name"),
        (KbotError::MissingPosition(11), "position"),
        (KbotError::MissingVelocity(11), "velocity"),
        (KbotError::MissingImuField(ImuField::Accelerometer), "accelerometer"),
        (KbotError::MissingImuField(ImuField::Gyroscope), "gyroscope"),
        (KbotError::MissingImuField(ImuField::Orientation), "quaternion"),
        (KbotError::ZeroOrientation, "zero magnitude"),
        (KbotError::NoCommandPosition(11), "no position"),
        (KbotError::UnsupportedInput, "not produced"),
        (KbotError::UnsupportedCommandWidth(5), "width"),
    ];
    for (error, needle) in cases {
        let text = error.describe();
        assert!(text.contains(needle), "{:?} described as {:?}", error, text);
    }
}

#[test]
fn feedback_decodes_to_online_state_and_silence_to_offline() {
    let s = actuator_state_from_feedback(23, Some((100, 200, 300, 25_000_000)));
    assert!(s.online);
    assert_eq!(s.actuator_id, 23);
    assert_eq!(s.position, Some(100));
    assert_eq!(s.velocity, Some(200));
    assert_eq!(s.torque, Some(300));
    assert_eq!(s.temperature, Some(25_000_000));

    let off = actuator_state_from_feedback(23, None);
    assert!(!off.online);
    assert_eq!(off.position, None);
    assert_eq!(off.velocity, None);
    assert_eq!(off.torque, None);
    assert_eq!(off.temperature, None);
}
