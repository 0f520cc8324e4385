//! The scheduler's sub-step interpolation and magnitude throttle.

use kinfer_kbot::actuators::ActuatorState;
use kinfer_kbot::runtime::{initial_baseline, substep_command, ModelRuntime};

fn runtime(slowdown: u32, magnitude_ppm: u32) -> ModelRuntime {
    let mut rt = ModelRuntime::new(20, false);
    rt.set_slowdown_factor(slowdown);
    rt.set_magnitude_factor(magnitude_ppm);
    rt
}

#[test]
fn interpolation_quarters_the_step() {
    // slowdown 4, baseline 0.0, target 1.0, magnitude 1.0
    let rt = runtime(4, 1_000_000);
    let (cmds, next) = rt.tick_commands(&vec![0], &vec![1_000_000]);
    let flat: Vec<i64> = cmds.iter().map(|c| c[0]).collect();
    assert_eq!(flat, vec![250_000, 500_000, 750_000, 1_000_000]);
    assert_eq!(next, vec![1_000_000]);
}

#[test]
fn magnitude_throttle_halves_each_command() {
    // same inputs with magnitude 0.5
    let rt = runtime(4, 500_000);
    let (cmds, next) = rt.tick_commands(&vec![0], &vec![1_000_000]);
    let flat: Vec<i64> = cmds.iter().map(|c| c[0]).collect();
    assert_eq!(flat, vec![125_000, 250_000, 375_000, 500_000]);
    // the next baseline is the raw policy output, not the throttled command
    assert_eq!(next, vec![1_000_000]);
}

#[test]
fn one_substep_jumps_straight_to_the_target() {
    let rt = runtime(1, 1_000_000);
    let (cmds, next) = rt.tick_commands(&vec![300_000, -200_000], &vec![500_000, 400_000]);
    assert_eq!(cmds.len(), 1);
    assert_eq!(cmds[0], vec![500_000, 400_000]);
    assert_eq!(next, vec![500_000, 400_000]);
}

#[test]
fn interpolation_moves_between_negative_values() {
    let flat: Vec<i64> = (1..=2).map(|i| substep_command(-1_000_000, 0, i, 2)).collect();
    assert_eq!(flat, vec![-500_000, 0]);
}

#[test]
fn defaults_follow_the_startup_surface() {
    let rt = ModelRuntime::new(20, true);
    assert_eq!(rt.dt_ms, 20);
    assert_eq!(rt.slowdown_factor, 1);
    assert_eq!(rt.magnitude_factor_ppm, 1_000_000);
    assert!(rt.keyboard_enabled);
    assert!(!rt.running);
}

#[test]
fn start_and_stop_toggle_the_cooperative_flag() {
    let mut rt = ModelRuntime::new(20, false);
    rt.start();
    assert!(rt.running);
    rt.stop();
    assert!(!rt.running);
}

fn state(id: u32, position: Option<i64>) -> ActuatorState {
    ActuatorState {
        actuator_id: id,
        position,
        velocity: None,
        torque: None,
        temperature: None,
        online: position.is_some(),
    }
}

#[test]
fn initial_baseline_comes_from_live_state() {
    let states = vec![state(11, Some(123_456)), state(12, None), state(13, Some(-70_000))];
    assert_eq!(initial_baseline(&states), vec![123_456, 0, -70_000]);
}
