//! Snapshot assembly and command translation: one state batch and one IMU
//! sample in, every requested policy input out.

use kinfer_kbot::actuators::ActuatorState;
use kinfer_kbot::error::KbotError;
use kinfer_kbot::imu::{ImuSample, Quat, Vec3};
use kinfer_kbot::provider::{
    assemble_inputs, build_action_commands, get_command_internal,
    get_joint_angles_from_state, get_joint_angular_velocities_from_state,
    startup_configure_request, InputKind,
};
use kinfer_kbot::teleop::TeleopChannel;

fn state(id: u32, position: Option<i64>, velocity: Option<i64>) -> ActuatorState {
    ActuatorState {
        actuator_id: id,
        position,
        velocity,
        torque: Some(0),
        temperature: Some(25_000_000),
        online: true,
    }
}

fn sample() -> ImuSample {
    ImuSample {
        accel: Vec3 { x: 10_000, y: -20_000, z: -9_790_000 },
        gyro: Vec3 { x: 1_000, y: 2_000, z: 3_000 },
        orientation: Quat { w: 1_000_000, x: 0, y: 0, z: 0 },
    }
}

#[test]
fn one_snapshot_serves_every_requested_field() {
    let states = vec![
        state(11, Some(100_000), Some(-5_000)),
        state(12, Some(-200_000), Some(7_000)),
    ];
    let mut ch = TeleopChannel::new();
    ch.set_command(0, 150_000);
    let requested = vec![
        InputKind::JointAngles,
        InputKind::JointAngularVelocities,
        InputKind::Accelerometer,
        InputKind::Gyroscope,
        InputKind::ProjectedGravity,
        InputKind::Time,
        InputKind::Command,
    ];
    let out = assemble_inputs(&requested, &states, &sample(), 2_500_000, &ch, 3).unwrap();
    assert_eq!(out.len(), 7);
    assert_eq!(out[0], (InputKind::JointAngles, vec![100_000, -200_000]));
    assert_eq!(out[1], (InputKind::JointAngularVelocities, vec![-5_000, 7_000]));
    assert_eq!(out[2], (InputKind::Accelerometer, vec![10_000, -20_000, -9_790_000]));
    assert_eq!(out[3], (InputKind::Gyroscope, vec![1_000, 2_000, 3_000]));
    // identity orientation: gravity is unchanged in the body frame
    assert_eq!(out[4], (InputKind::ProjectedGravity, vec![0, 0, -9_810_000]));
    assert_eq!(out[5], (InputKind::Time, vec![2_500_000]));
    assert_eq!(out[6], (InputKind::Command, vec![150_000, 0, 0]));
}

#[test]
fn missing_position_fails_the_snapshot_with_the_joint() {
    let states = vec![state(11, Some(1), Some(1)), state(12, None, Some(1))];
    match get_joint_angles_from_state(&states) {
        Err(KbotError::MissingPosition(id)) => assert_eq!(id, 12),
        other => panic!("expected a missing-position error, got {:?}", other),
    }
    let requested = vec![InputKind::JointAngles];
    assert!(matches!(
        assemble_inputs(&requested, &states, &sample(), 0, &TeleopChannel::new(), 0),
        Err(KbotError::MissingPosition(12))
    ));
}

#[test]
fn missing_velocity_fails_the_snapshot_with_the_joint() {
    let states = vec![state(21, Some(1), None)];
    match get_joint_angular_velocities_from_state(&states) {
        Err(KbotError::MissingVelocity(id)) => assert_eq!(id, 21),
        other => panic!("expected a missing-velocity error, got {:?}", other),
    }
}

#[test]
fn carry_and_raw_kinds_are_not_produced_here() {
    let states: Vec<ActuatorState> = Vec::new();
    for kind in [InputKind::Carry, InputKind::InitialHeading, InputKind::Quaternion] {
        assert_eq!(
            assemble_inputs(&vec![kind], &states, &sample(), 0, &TeleopChannel::new(), 0),
            Err(KbotError::UnsupportedInput)
        );
    }
}

#[test]
fn command_vector_widths_follow_the_documented_layouts() {
    let mut ch = TeleopChannel::new();
    ch.set_command(0, 1);
    ch.set_command(1, 2);
    ch.set_command(2, 3);
    ch.set_command(3, 4);
    ch.set_command(4, 5);
    ch.set_command(5, 6);
    ch.set_command(6, 7);
    ch.set_command(7, 8);
    assert_eq!(get_command_internal(&ch, 0).unwrap(), Vec::<i64>::new());
    assert_eq!(get_command_internal(&ch, 3).unwrap(), vec![1, 2, 3]);
    assert_eq!(get_command_internal(&ch, 6).unwrap(), vec![1, 2, 3, 4, 5, 6]);
    assert_eq!(get_command_internal(&ch, 7).unwrap(), vec![1, 2, 3, 4, 5, 6, 7]);
    assert_eq!(get_command_internal(&ch, 8).unwrap(), vec![1, 2, 3, 4, 5, 6, 7, 8]);
    assert_eq!(
        get_command_internal(&ch, 5),
        Err(KbotError::UnsupportedCommandWidth(5))
    );
}

#[test]
fn actions_translate_to_position_mode_commands() {
    let names = vec![
        "dof_left_shoulder_pitch_03".to_owned(),
        "dof_right_knee_04".to_owned(),
    ];
    let cmds = build_action_commands(&names, &vec![123_000, -456_000]).unwrap();
    assert_eq!(cmds.len(), 2);
    assert_eq!(cmds[0].actuator_id, 11);
    assert_eq!(cmds[0].position, Some(123_000));
    assert_eq!(cmds[0].velocity, None);
    assert_eq!(cmds[0].torque, None);
    assert_eq!(cmds[1].actuator_id, 44);
    assert_eq!(cmds[1].position, Some(-456_000));
}

#[test]
fn an_unknown_action_joint_aborts_the_translation() {
    let names = vec!["dof_left_shoulder_pitch_03".to_owned(), "dof_tail_01".to_owned()];
    match build_action_commands(&names, &vec![0, 0]) {
        Err(KbotError::UnknownJointName(n)) => assert_eq!(n, "dof_tail_01"),
        other => panic!("expected a configuration error, got {:?}", other),
    }
}

#[test]
fn startup_configuration_scales_the_torque_limit() {
    // full scale: the raw gain row
    let req = startup_configure_request(11, true, 1_000_000).unwrap();
    assert_eq!(req.actuator_id, 11);
    assert_eq!(req.kp, Some(100_000_000));
    assert_eq!(req.kd, Some(8_284_000));
    assert_eq!(req.max_torque, Some(42_000_000));
    assert_eq!(req.torque_enabled, Some(true));
    assert_eq!(req.zero_position, None);
    assert_eq!(req.new_actuator_id, None);

    // half scale halves the torque limit and nothing else
    let half = startup_configure_request(11, false, 500_000).unwrap();
    assert_eq!(half.max_torque, Some(21_000_000));
    assert_eq!(half.kp, Some(100_000_000));
    assert_eq!(half.torque_enabled, Some(false));

    // an actuator without a gain row gets no request
    assert!(startup_configure_request(99, true, 1_000_000).is_none());
}
