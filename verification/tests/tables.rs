//! The static tables: the joint-name mapping round trip, the gain rows,
//! the home pose and the actuator configuration table.

use kinfer_kbot::actuators::{
    classify_port, create_kbot_actuators, found_motors, unknown_motor_ids, ActuatorKind,
    PortKind,
};
use kinfer_kbot::constants::{
    all_actuator_ids, gains_for_id, get_actuator_ids, home_position, joint_id_for_name,
    joint_name_for_id,
};
use kinfer_kbot::error::KbotError;

#[test]
fn every_table_name_round_trips() {
    let ids = all_actuator_ids();
    assert_eq!(ids.len(), 20);
    for id in ids {
        let name = joint_name_for_id(id).expect("every table id has a name");
        let back = joint_id_for_name(name.as_str()).expect("every table name has an id");
        assert_eq!(back, id);
    }
}

#[test]
fn known_names_map_to_their_ids() {
    assert_eq!(joint_id_for_name("dof_left_shoulder_pitch_03"), Some(11));
    assert_eq!(joint_id_for_name("dof_right_wrist_00"), Some(25));
    assert_eq!(joint_id_for_name("dof_left_knee_04"), Some(34));
    assert_eq!(joint_id_for_name("dof_right_ankle_02"), Some(45));
}

#[test]
fn unknown_name_is_a_hard_error_never_a_default_id() {
    assert_eq!(joint_id_for_name("dof_left_toe_99"), None);
    assert_eq!(joint_id_for_name(""), None);

    let names = vec![
        "dof_left_shoulder_pitch_03".to_owned(),
        "dof_left_toe_99".to_owned(),
        "dof_right_wrist_00".to_owned(),
    ];
    match get_actuator_ids(&names) {
        Err(KbotError::UnknownJointName(n)) => assert_eq!(n, "dof_left_toe_99"),
        other => panic!("expected a configuration error, got {:?}", other),
    }
}

#[test]
fn resolving_all_names_yields_table_order_ids() {
    let names = vec![
        "dof_left_hip_pitch_04".to_owned(),
        "dof_left_hip_roll_03".to_owned(),
        "dof_right_knee_04".to_owned(),
    ];
    assert_eq!(get_actuator_ids(&names).unwrap(), vec![31, 32, 44]);
}

#[test]
fn gain_rows_match_the_actuator_types() {
    // left shoulder pitch: kp 100, kd 8.284, tau 42 (micro-units)
    assert_eq!(gains_for_id(11), Some((100_000_000, 8_284_000, 42_000_000)));
    // left wrist: kp 20, kd 0.295, tau 9.8
    assert_eq!(gains_for_id(15), Some((20_000_000, 295_000, 9_800_000)));
    // right hip roll: kp 200, kd 26.387, tau 42
    assert_eq!(gains_for_id(42), Some((200_000_000, 26_387_000, 42_000_000)));
    // right knee: kp 150, kd 8.654, tau 84
    assert_eq!(gains_for_id(44), Some((150_000_000, 8_654_000, 84_000_000)));
    assert_eq!(gains_for_id(99), None);
}

#[test]
fn home_pose_has_all_twenty_joints() {
    let table = home_position();
    assert_eq!(table.len(), 20);
    assert_eq!(table[0], (21, 0));
    assert_eq!(table[1], (22, -174_533)); // -10 degrees
    assert_eq!(table[3], (24, 1_570_796)); // 90 degrees
    assert_eq!(table[8], (14, -1_570_796)); // -90 degrees
    assert_eq!(table[13], (44, -872_665)); // -50 degrees
    assert_eq!(table[14], (45, 523_599)); // 30 degrees
    let mut seen: Vec<u32> = table.iter().map(|(id, _)| *id).collect();
    seen.sort();
    let mut expected = all_actuator_ids();
    expected.sort();
    assert_eq!(seen, expected);
}

#[test]
fn actuator_table_lists_twenty_motors_with_their_kinds() {
    let table = create_kbot_actuators();
    assert_eq!(table.len(), 20);
    assert_eq!(table[0].0, 11);
    assert_eq!(table[0].1.kind, ActuatorKind::RobStride03);
    assert_eq!(table[2].1.kind, ActuatorKind::RobStride02);
    assert_eq!(table[10].0, 31);
    assert_eq!(table[10].1.kind, ActuatorKind::RobStride04);
    for (_, cfg) in table {
        assert_eq!(cfg.max_angle_change, Some(5_000_000)); // 5 percent
        assert_eq!(cfg.max_velocity, Some(174_533)); // 10 deg/s
        assert_eq!(cfg.command_rate, Some(50_000_000)); // 50 Hz
    }
}

#[test]
fn port_names_classify_by_prefix() {
    assert_eq!(classify_port("/dev/ttyUSB0"), PortKind::SerialCh341);
    assert_eq!(classify_port("/dev/ttyCH341USB0"), PortKind::SerialCh341);
    assert_eq!(classify_port("can0"), PortKind::SocketCan);
    assert_eq!(classify_port("can4"), PortKind::SocketCan);
    assert_eq!(classify_port("vcan0"), PortKind::Invalid);
    assert_eq!(classify_port("/dev/sda"), PortKind::Invalid);
    assert_eq!(classify_port(""), PortKind::Invalid);
    assert_eq!(classify_port("ca"), PortKind::Invalid);
}

#[test]
fn bus_scan_marks_found_and_unknown_motors() {
    let configured: Vec<u8> = vec![11, 12, 13];
    let discovered: Vec<u8> = vec![12, 99, 11, 98];
    assert_eq!(found_motors(&configured, &discovered), vec![true, true, false]);
    assert_eq!(unknown_motor_ids(&discovered, &configured), vec![99, 98]);
}
