//! The teleoperation channel: writes, reads, key bindings, shutdown.

use kinfer_kbot::teleop::{
    cleanup_keyboard, is_keyboard_running, is_shutdown_requested, KeyPhase, TeleopChannel,
    TeleopKey,
};

#[test]
fn a_read_after_a_write_observes_the_new_value() {
    let mut ch = TeleopChannel::new();
    assert_eq!(ch.get_commands(), vec![0; 8]);
    ch.set_command(0, 200_000);
    ch.set_command(7, 6_000_000);
    let read = ch.get_commands();
    assert_eq!(read[0], 200_000);
    assert_eq!(read[7], 6_000_000);
    // the slots in between are untouched
    assert_eq!(&read[1..7], &[0, 0, 0, 0, 0, 0]);
    // the newest write wins
    ch.set_command(0, -200_000);
    assert_eq!(ch.get_commands()[0], -200_000);
}

#[test]
fn an_out_of_range_slot_changes_nothing() {
    let mut ch = TeleopChannel::new();
    ch.set_command(8, 42);
    ch.set_command(1000, 42);
    assert_eq!(ch.get_commands(), vec![0; 8]);
}

#[test]
fn movement_keys_set_and_release_their_axis() {
    let mut ch = TeleopChannel::new();
    ch.apply_key_event(TeleopKey::KeyW, KeyPhase::Press);
    assert_eq!(ch.x_vel, 200_000);
    ch.apply_key_event(TeleopKey::KeyW, KeyPhase::Release);
    assert_eq!(ch.x_vel, 0);
    ch.apply_key_event(TeleopKey::KeyS, KeyPhase::Press);
    assert_eq!(ch.x_vel, -200_000);
    ch.apply_key_event(TeleopKey::KeyA, KeyPhase::Press);
    assert_eq!(ch.y_vel, 200_000);
    ch.apply_key_event(TeleopKey::KeyD, KeyPhase::Press);
    assert_eq!(ch.y_vel, -200_000);
    ch.apply_key_event(TeleopKey::KeyD, KeyPhase::Release);
    assert_eq!(ch.y_vel, 0);
}

#[test]
fn yaw_keys_accumulate_yaw_and_set_the_rate() {
    let mut ch = TeleopChannel::new();
    ch.apply_key_event(TeleopKey::KeyQ, KeyPhase::Press);
    ch.apply_key_event(TeleopKey::KeyQ, KeyPhase::Press);
    assert_eq!(ch.yaw_rate, 100_000);
    assert_eq!(ch.yaw, 200_000);
    ch.apply_key_event(TeleopKey::KeyE, KeyPhase::Press);
    assert_eq!(ch.yaw_rate, -100_000);
    assert_eq!(ch.yaw, 100_000);
    ch.apply_key_event(TeleopKey::KeyQ, KeyPhase::Release);
    assert_eq!(ch.yaw_rate, 0);
    // releasing leaves the accumulated yaw alone
    assert_eq!(ch.yaw, 100_000);
}

#[test]
fn attitude_keys_step_roll_and_pitch() {
    let mut ch = TeleopChannel::new();
    ch.apply_key_event(TeleopKey::KeyR, KeyPhase::Press);
    ch.apply_key_event(TeleopKey::KeyR, KeyPhase::Press);
    ch.apply_key_event(TeleopKey::KeyF, KeyPhase::Press);
    assert_eq!(ch.roll, 100_000);
    ch.apply_key_event(TeleopKey::KeyT, KeyPhase::Press);
    ch.apply_key_event(TeleopKey::KeyG, KeyPhase::Press);
    ch.apply_key_event(TeleopKey::KeyG, KeyPhase::Press);
    assert_eq!(ch.pitch, -100_000);
}

#[test]
fn digits_pick_a_mode_and_two_resets_the_rest() {
    let mut ch = TeleopChannel::new();
    ch.apply_key_event(TeleopKey::Key7, KeyPhase::Press);
    assert_eq!(ch.mode_index, 7_000_000);
    ch.apply_key_event(TeleopKey::Key9, KeyPhase::Press);
    assert_eq!(ch.mode_index, 9_000_000);
    ch.apply_key_event(TeleopKey::KeyW, KeyPhase::Press);
    ch.apply_key_event(TeleopKey::KeyQ, KeyPhase::Press);
    ch.apply_key_event(TeleopKey::Key2, KeyPhase::Press);
    // every command is back to zero but the mode index
    assert_eq!(ch.get_commands(), vec![0, 0, 0, 0, 0, 0, 0, 9_000_000]);
}

#[test]
fn escape_requests_a_graceful_shutdown() {
    let mut ch = TeleopChannel::new();
    ch.start_keyboard();
    assert!(is_keyboard_running(&ch));
    assert!(!is_shutdown_requested(&ch));
    ch.apply_key_event(TeleopKey::Esc, KeyPhase::Press);
    assert!(is_shutdown_requested(&ch));
    assert!(!is_keyboard_running(&ch));
}

#[test]
fn cleanup_stops_the_listener_without_touching_commands() {
    let mut ch = TeleopChannel::new();
    ch.start_keyboard();
    ch.apply_key_event(TeleopKey::KeyW, KeyPhase::Press);
    cleanup_keyboard(&mut ch);
    assert!(!is_keyboard_running(&ch));
    assert_eq!(ch.x_vel, 200_000);
}

#[test]
fn unbound_keys_change_nothing() {
    let mut ch = TeleopChannel::new();
    ch.apply_key_event(TeleopKey::Other, KeyPhase::Press);
    ch.apply_key_event(TeleopKey::Esc, KeyPhase::Release);
    ch.apply_key_event(TeleopKey::Key6, KeyPhase::Release);
    assert_eq!(ch, TeleopChannel::new());
}
