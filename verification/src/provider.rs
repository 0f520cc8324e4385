//! The sensor-fusion and actuation facade: deriving policy inputs from one
//! per-tick snapshot, translating policy output into actuator commands, and
//! the homing controller's per-iteration step.
//!
//! The snapshot data — one actuator-state batch and one IMU sample — is
//! acquired by the facade's owner in a single concurrent pair of reads and
//! handed in here whole, so every input of a snapshot derives from the same
//! acquisition window and no field can be staler than another.

use vstd::prelude::*;

use crate::actuators::{ActuatorCommand, ActuatorState};
use crate::constants;
use crate::error::KbotError;
use crate::fixed::{abs_int, clamp_int, VALUE_LIMIT};
use crate::fixed;
use crate::imu::{ImuSample, Vec3};
use crate::imu;
use crate::teleop::{command_seq_spec, TeleopChannel};
use vstd::arithmetic::div_mod::{lemma_fundamental_div_mod, lemma_fundamental_div_mod_converse};

verus! {

/// Half a turn in microradians.
pub const PI_MICRORAD: i64 = 3_141_593;

/// A full turn in microradians.
pub const TWO_PI_MICRORAD: i64 = 6_283_186;

/// The largest angle one homing iteration may command, in microradians
/// (about four degrees).
pub const MAX_HOME_STEP_MICRORAD: i64 = 69_813;

/// Homing is converged when every joint's angle error is below this bound
/// (0.1 radians).
pub const HOME_ERROR_THRESHOLD_MICRORAD: i64 = 100_000;

/// The world-frame gravity vector, in micro-(m/s^2).
pub open spec fn world_gravity_spec() -> Vec3 {
    Vec3 { x: 0, y: 0, z: (-9_810_000) as i64 }
}

/// The kinds of input a policy can request each tick.
#[derive(Clone, Copy, Debug, PartialEq, Eq, Structural)]
pub enum InputKind {
    JointAngles,
    JointAngularVelocities,
    Accelerometer,
    Gyroscope,
    ProjectedGravity,
    Time,
    Command,
    Carry,
    InitialHeading,
    Quaternion,
}

/// Every position in `states` is present and within the value bound.
pub open spec fn positions_bounded(states: Seq<ActuatorState>) -> bool {
    forall|i: int|
        0 <= i < states.len() ==> ((#[trigger] states[i]).position matches Some(p)
            ==> -VALUE_LIMIT <= p <= VALUE_LIMIT)
}

/// Every velocity in `states` is within the value bound.
pub open spec fn velocities_bounded(states: Seq<ActuatorState>) -> bool {
    forall|i: int|
        0 <= i < states.len() ==> ((#[trigger] states[i]).velocity matches Some(v)
            ==> -VALUE_LIMIT <= v <= VALUE_LIMIT)
}

/// The joint angles of a snapshot: the position of each state, in order.
/// Fails with the id of the first actuator that delivered no position —
/// a zero is never substituted.
pub fn get_joint_angles_from_state(states: &Vec<ActuatorState>) -> (r: Result<
    Vec<i64>,
    KbotError,
>)
    ensures
        r is Ok <==> (forall|i: int|
            0 <= i < states.len() ==> (#[trigger] states[i].position) is Some),
        r matches Ok(v) ==> {
            &&& v.len() == states.len()
            &&& forall|i: int|
                0 <= i < states.len() ==> #[trigger] v[i] == states[i].position->Some_0
        },
        r matches Err(e) ==> {
            &&& e matches KbotError::MissingPosition(id)
            &&& exists|i: int|
                0 <= i < states.len() && (#[trigger] states[i].position) is None
                    && states[i].actuator_id == id
        },
{
    let mut v: Vec<i64> = Vec::new();
    let mut i: usize = 0;
    while i < states.len()
        invariant
            0 <= i <= states.len(),
            v.len() == i,
            forall|k: int| 0 <= k < i ==> (#[trigger] states[k].position) is Some,
            forall|k: int| 0 <= k < i ==> #[trigger] v[k] == states[k].position->Some_0,
        decreases states.len() - i,
    {
        match states[i].position {
            Some(p) => {
                v.push(p);
            },
            None => {
                return Err(KbotError::MissingPosition(states[i].actuator_id));
            },
        }
        i = i + 1;
    }
    Ok(v)
}

/// The joint angular velocities of a snapshot: the velocity of each state,
/// in order. Fails with the id of the first actuator that delivered no
/// velocity — a zero is never substituted.
pub fn get_joint_angular_velocities_from_state(states: &Vec<ActuatorState>) -> (r: Result<
    Vec<i64>,
    KbotError,
>)
    ensures
        r is Ok <==> (forall|i: int|
            0 <= i < states.len() ==> (#[trigger] states[i].velocity) is Some),
        r matches Ok(v) ==> {
            &&& v.len() == states.len()
            &&& forall|i: int|
                0 <= i < states.len() ==> #[trigger] v[i] == states[i].velocity->Some_0
        },
        r matches Err(e) ==> {
            &&& e matches KbotError::MissingVelocity(id)
            &&& exists|i: int|
                0 <= i < states.len() && (#[trigger] states[i].velocity) is None
                    && states[i].actuator_id == id
        },
{
    let mut v: Vec<i64> = Vec::new();
    let mut i: usize = 0;
    while i < states.len()
        invariant
            0 <= i <= states.len(),
            v.len() == i,
            forall|k: int| 0 <= k < i ==> (#[trigger] states[k].velocity) is Some,
            forall|k: int| 0 <= k < i ==> #[trigger] v[k] == states[k].velocity->Some_0,
        decreases states.len() - i,
    {
        match states[i].velocity {
            Some(w) => {
                v.push(w);
            },
            None => {
                return Err(KbotError::MissingVelocity(states[i].actuator_id));
            },
        }
        i = i + 1;
    }
    Ok(v)
}

/// The accelerometer reading of a sample, as the three components in order.
pub fn get_accelerometer_from_values(sample: &ImuSample) -> (r: Vec<i64>)
    ensures
        r@ == seq![sample.accel.x, sample.accel.y, sample.accel.z],
{
    let r: Vec<i64> = vec![sample.accel.x, sample.accel.y, sample.accel.z];
    proof {
        assert(r@ =~= seq![sample.accel.x, sample.accel.y, sample.accel.z]);
    }
    r
}

/// The gyroscope reading of a sample, as the three components in order.
pub fn get_gyroscope_from_values(sample: &ImuSample) -> (r: Vec<i64>)
    ensures
        r@ == seq![sample.gyro.x, sample.gyro.y, sample.gyro.z],
{
    let r: Vec<i64> = vec![sample.gyro.x, sample.gyro.y, sample.gyro.z];
    proof {
        assert(r@ =~= seq![sample.gyro.x, sample.gyro.y, sample.gyro.z]);
    }
    r
}

/// World gravity rotated into the body frame of the sample's orientation.
pub open spec fn projected_gravity_spec(sample: ImuSample) -> Vec3 {
    imu::rotate_inverse_spec(imu::quat_normalize_spec(sample.orientation), world_gravity_spec())
}

/// Rotates world gravity into the body frame: the orientation quaternion is
/// normalized first, and a quaternion of zero magnitude — an IMU that has
/// not yet produced a valid sample — is rejected rather than turned into an
/// undefined direction.
pub fn get_projected_gravity_from_values(sample: &ImuSample) -> (r: Result<Vec<i64>, KbotError>)
    requires
        sample.wf(),
    ensures
        r is Ok <==> imu::quat_mag(sample.orientation) > 0,
        r matches Ok(v) ==> {
            &&& v@ == seq![
                projected_gravity_spec(*sample).x,
                projected_gravity_spec(*sample).y,
                projected_gravity_spec(*sample).z,
            ]
        },
        r matches Err(e) ==> e == KbotError::ZeroOrientation,
{
    let gravity = Vec3 { x: 0, y: 0, z: -9_810_000 };
    match imu::normalize_quat(&sample.orientation) {
        Some(n) => {
            let g: Vec3 = imu::rotate_vector_inverse(&n, &gravity);
            let v: Vec<i64> = vec![g.x, g.y, g.z];
            proof {
                assert(v@ =~= seq![
                    projected_gravity_spec(*sample).x,
                    projected_gravity_spec(*sample).y,
                    projected_gravity_spec(*sample).z,
                ]);
            }
            Ok(v)
        },
        None => Err(KbotError::ZeroOrientation),
    }
}

/// The widths of the operator command vector with a documented layout:
/// the empty vector, the planar triple (x velocity, y velocity, yaw rate),
/// and its extensions by yaw and height and roll (six), pitch (seven), and
/// the mode index (eight).
pub open spec fn supported_command_width(n: int) -> bool {
    n == 0 || n == 3 || n == 6 || n == 7 || n == 8
}

/// The operator command vector for a policy that declares `num_commands`
/// inputs: the first `num_commands` entries of the channel's vector in its
/// documented order. A width with no documented layout is a configuration
/// error carrying the width.
pub fn get_command_internal(ch: &TeleopChannel, num_commands: usize) -> (r: Result<
    Vec<i64>,
    KbotError,
>)
    ensures
        r is Ok <==> supported_command_width(num_commands as int),
        r matches Ok(v) ==> v@ == command_seq_spec(*ch).subrange(0, num_commands as int),
        r matches Err(e) ==> e == KbotError::UnsupportedCommandWidth(num_commands),
{
    if num_commands == 0 {
        let v: Vec<i64> = Vec::new();
        proof {
            assert(v@ =~= command_seq_spec(*ch).subrange(0, 0));
        }
        Ok(v)
    } else if num_commands == 3 || num_commands == 6 || num_commands == 7 || num_commands
        == 8 {
        let full: Vec<i64> = ch.get_commands();
        let mut v: Vec<i64> = Vec::new();
        let mut i: usize = 0;
        while i < num_commands
            invariant
                0 <= i <= num_commands,
                num_commands <= 8,
                full@ == command_seq_spec(*ch),
                v@ == command_seq_spec(*ch).subrange(0, i as int),
            decreases num_commands - i,
        {
            v.push(full[i]);
            proof {
                assert(v@ =~= command_seq_spec(*ch).subrange(0, i + 1));
            }
            i = i + 1;
        }
        Ok(v)
    } else {
        Err(KbotError::UnsupportedCommandWidth(num_commands))
    }
}

/// One position-mode command per joint, in order: joint `i` gets target
/// `action[i]`. Any joint name outside the static table fails the whole
/// translation with a configuration error carrying the name.
pub fn build_action_commands(joint_names: &Vec<String>, action: &Vec<i64>) -> (r: Result<
    Vec<ActuatorCommand>,
    KbotError,
>)
    requires
        joint_names.len() == action.len(),
    ensures
        r is Ok <==> (forall|i: int|
            0 <= i < joint_names.len() ==> (#[trigger] constants::joint_id_spec(
                joint_names[i]@,
            )) is Some),
        r matches Ok(cmds) ==> {
            &&& cmds.len() == joint_names.len()
            &&& forall|i: int|
                0 <= i < joint_names.len() ==> #[trigger] cmds[i] == (ActuatorCommand {
                    actuator_id: constants::joint_id_spec(joint_names[i]@)->Some_0,
                    position: Some(action[i]),
                    velocity: None,
                    torque: None,
                })
        },
        r matches Err(e) ==> {
            &&& e matches KbotError::UnknownJointName(n)
            &&& exists|i: int|
                0 <= i < joint_names.len() && constants::joint_id_spec(
                    #[trigger] joint_names[i]@,
                ) is None && n@ == joint_names[i]@
        },
{
    let mut cmds: Vec<ActuatorCommand> = Vec::new();
    let mut i: usize = 0;
    while i < joint_names.len()
        invariant
            0 <= i <= joint_names.len(),
            joint_names.len() == action.len(),
            cmds.len() == i,
            forall|k: int|
                0 <= k < i ==> (#[trigger] constants::joint_id_spec(joint_names[k]@)) is Some,
            forall|k: int|
                0 <= k < i ==> #[trigger] cmds[k] == (ActuatorCommand {
                    actuator_id: constants::joint_id_spec(joint_names[k]@)->Some_0,
                    position: Some(action[k]),
                    velocity: None,
                    torque: None,
                }),
        decreases joint_names.len() - i,
    {
        match constants::joint_id_for_name(joint_names[i].as_str()) {
            Some(id) => {
                cmds.push(
                    ActuatorCommand {
                        actuator_id: id,
                        position: Some(action[i]),
                        velocity: None,
                        torque: None,
                    },
                );
            },
            None => {
                return Err(KbotError::UnknownJointName(joint_names[i].clone()));
            },
        }
        i = i + 1;
    }
    Ok(cmds)
}

/// Whether `kind` can be derived from the given snapshot: joint data needs
/// every per-joint field present, projected gravity needs a normalizable
/// orientation, the operator command vector needs a documented width, and
/// the recurrent carry, initial heading and raw quaternion are not produced
/// by this provider at all (the carry comes back through the policy step).
pub open spec fn input_available(
    kind: InputKind,
    states: Seq<ActuatorState>,
    sample: ImuSample,
    num_commands: int,
) -> bool {
    match kind {
        InputKind::JointAngles => forall|i: int|
            0 <= i < states.len() ==> (#[trigger] states[i].position) is Some,
        InputKind::JointAngularVelocities => forall|i: int|
            0 <= i < states.len() ==> (#[trigger] states[i].velocity) is Some,
        InputKind::Accelerometer => true,
        InputKind::Gyroscope => true,
        InputKind::ProjectedGravity => imu::quat_mag(sample.orientation) > 0,
        InputKind::Time => true,
        InputKind::Command => supported_command_width(num_commands),
        InputKind::Carry => false,
        InputKind::InitialHeading => false,
        InputKind::Quaternion => false,
    }
}

/// The value of one available input, as a flat vector in micro-units.
pub open spec fn input_value_spec(
    kind: InputKind,
    states: Seq<ActuatorState>,
    sample: ImuSample,
    elapsed_micros: i64,
    ch: TeleopChannel,
    num_commands: int,
) -> Seq<i64>
    recommends
        input_available(kind, states, sample, num_commands),
{
    match kind {
        InputKind::JointAngles => Seq::new(states.len(), |i: int| states[i].position->Some_0),
        InputKind::JointAngularVelocities => Seq::new(
            states.len(),
            |i: int| states[i].velocity->Some_0,
        ),
        InputKind::Accelerometer => seq![sample.accel.x, sample.accel.y, sample.accel.z],
        InputKind::Gyroscope => seq![sample.gyro.x, sample.gyro.y, sample.gyro.z],
        InputKind::ProjectedGravity => seq![
            projected_gravity_spec(sample).x,
            projected_gravity_spec(sample).y,
            projected_gravity_spec(sample).z,
        ],
        InputKind::Time => seq![elapsed_micros],
        InputKind::Command => command_seq_spec(ch).subrange(0, num_commands),
        InputKind::Carry => Seq::empty(),
        InputKind::InitialHeading => Seq::empty(),
        InputKind::Quaternion => Seq::empty(),
    }
}

/// Whether `e` is the error an unavailable `kind` produces.
pub open spec fn input_error_explains(
    e: KbotError,
    kind: InputKind,
    states: Seq<ActuatorState>,
    num_commands: int,
) -> bool {
    match kind {
        InputKind::JointAngles => {
            &&& e matches KbotError::MissingPosition(id)
            &&& exists|k: int|
                0 <= k < states.len() && (#[trigger] states[k].position) is None
                    && states[k].actuator_id == id
        },
        InputKind::JointAngularVelocities => {
            &&& e matches KbotError::MissingVelocity(id)
            &&& exists|k: int|
                0 <= k < states.len() && (#[trigger] states[k].velocity) is None
                    && states[k].actuator_id == id
        },
        InputKind::ProjectedGravity => e == KbotError::ZeroOrientation,
        InputKind::Command => e matches KbotError::UnsupportedCommandWidth(n) && n
            == num_commands,
        InputKind::Carry => e == KbotError::UnsupportedInput,
        InputKind::InitialHeading => e == KbotError::UnsupportedInput,
        InputKind::Quaternion => e == KbotError::UnsupportedInput,
        _ => false,
    }
}

/// Derives every requested input from one snapshot: one actuator-state
/// batch, one IMU sample, the elapsed time since loop start (microseconds)
/// and the operator channel, all acquired in the same window. The whole
/// snapshot fails on the first input that cannot be derived — data is never
/// silently replaced by zeroes.
pub fn assemble_inputs(
    requested: &Vec<InputKind>,
    states: &Vec<ActuatorState>,
    sample: &ImuSample,
    elapsed_micros: i64,
    ch: &TeleopChannel,
    num_commands: usize,
) -> (r: Result<Vec<(InputKind, Vec<i64>)>, KbotError>)
    requires
        sample.wf(),
    ensures
        r is Ok <==> (forall|i: int|
            0 <= i < requested.len() ==> input_available(
                #[trigger] requested[i],
                states@,
                *sample,
                num_commands as int,
            )),
        r matches Ok(v) ==> {
            &&& v.len() == requested.len()
            &&& forall|i: int|
                0 <= i < requested.len() ==> (#[trigger] v[i]).0 == requested[i]
            &&& forall|i: int|
                0 <= i < requested.len() ==> (#[trigger] v[i]).1@ == input_value_spec(
                    requested[i],
                    states@,
                    *sample,
                    elapsed_micros,
                    *ch,
                    num_commands as int,
                )
        },
        r matches Err(e) ==> exists|i: int|
            0 <= i < requested.len() && !input_available(
                #[trigger] requested[i],
                states@,
                *sample,
                num_commands as int,
            ) && input_error_explains(e, requested[i], states@, num_commands as int),
{
    let mut out: Vec<(InputKind, Vec<i64>)> = Vec::new();
    let mut i: usize = 0;
    while i < requested.len()
        invariant
            0 <= i <= requested.len(),
            sample.wf(),
            out.len() == i,
            forall|k: int|
                0 <= k < i ==> input_available(
                    #[trigger] requested[k],
                    states@,
                    *sample,
                    num_commands as int,
                ),
            forall|k: int|
                0 <= k < i ==> (#[trigger] out[k]).0 == requested[k],
            forall|k: int|
                0 <= k < i ==> (#[trigger] out[k]).1@ == input_value_spec(
                    requested[k],
                    states@,
                    *sample,
                    elapsed_micros,
                    *ch,
                    num_commands as int,
                ),
        decreases requested.len() - i,
    {
        let kind: InputKind = requested[i];
        let value: Vec<i64> = match kind {
            InputKind::JointAngles => {
                match get_joint_angles_from_state(states) {
                    Ok(v) => {
                        proof {
                            assert(v@ =~= input_value_spec(
                                kind,
                                states@,
                                *sample,
                                elapsed_micros,
                                *ch,
                                num_commands as int,
                            ));
                        }
                        v
                    },
                    Err(e) => {
                        return Err(e);
                    },
                }
            },
            InputKind::JointAngularVelocities => {
                match get_joint_angular_velocities_from_state(states) {
                    Ok(v) => {
                        proof {
                            assert(v@ =~= input_value_spec(
                                kind,
                                states@,
                                *sample,
                                elapsed_micros,
                                *ch,
                                num_commands as int,
                            ));
                        }
                        v
                    },
                    Err(e) => {
                        return Err(e);
                    },
                }
            },
            InputKind::Accelerometer => get_accelerometer_from_values(sample),
            InputKind::Gyroscope => get_gyroscope_from_values(sample),
            InputKind::ProjectedGravity => {
                match get_projected_gravity_from_values(sample) {
                    Ok(v) => v,
                    Err(e) => {
                        return Err(e);
                    },
                }
            },
            InputKind::Time => {
                let v: Vec<i64> = vec![elapsed_micros];
                proof {
                    assert(v@ =~= seq![elapsed_micros]);
                }
                v
            },
            InputKind::Command => {
                match get_command_internal(ch, num_commands) {
                    Ok(v) => v,
                    Err(e) => {
                        return Err(e);
                    },
                }
            },
            InputKind::Carry => {
                return Err(KbotError::UnsupportedInput);
            },
            InputKind::InitialHeading => {
                return Err(KbotError::UnsupportedInput);
            },
            InputKind::Quaternion => {
                return Err(KbotError::UnsupportedInput);
            },
        };
        out.push((kind, value));
        i = i + 1;
    }
    Ok(out)
}

/// The configuration written to one actuator at startup, before torque is
/// enabled: the gain row of its type, with the torque limit scaled by
/// `torque_scale_ppm` (parts per million, truncating). An actuator without
/// a gain row gets no request; its owner logs and skips it.
pub fn startup_configure_request(id: u32, torque_enabled: bool, torque_scale_ppm: u32) -> (r:
    Option<crate::actuators::ConfigureRequest>)
    ensures
        r is Some <==> constants::gains_spec(id) is Some,
        r matches Some(req) ==> req == (crate::actuators::ConfigureRequest {
            actuator_id: id,
            kp: Some(constants::gains_spec(id)->Some_0.0),
            kd: Some(constants::gains_spec(id)->Some_0.1),
            max_torque: Some(
                fixed::div_trunc(
                    constants::gains_spec(id)->Some_0.2 * torque_scale_ppm,
                    crate::fixed::MICRO as int,
                ) as i64,
            ),
            torque_enabled: Some(torque_enabled),
            zero_position: None,
            new_actuator_id: None,
            max_velocity: None,
            max_current: None,
        }),
{
    match constants::gains_for_id(id) {
        Some((kp, kd, tau)) => {
            proof {
                assert(abs_int(tau as int) * torque_scale_ppm <= VALUE_LIMIT * (
                crate::fixed::MICRO as int)) by (nonlinear_arith)
                    requires
                        0 <= tau <= 100_000_000,
                        torque_scale_ppm <= 0xffff_ffffu32,
                        VALUE_LIMIT == 1_000_000_000_000,
                        crate::fixed::MICRO == 1_000_000,
                ;
            }
            let scaled_tau: i64 = fixed::scale_trunc(tau, torque_scale_ppm, crate::fixed::MICRO
                as u32);
            Some(
                crate::actuators::ConfigureRequest {
                    actuator_id: id,
                    kp: Some(kp),
                    kd: Some(kd),
                    max_torque: Some(scaled_tau),
                    torque_enabled: Some(torque_enabled),
                    zero_position: None,
                    new_actuator_id: None,
                    max_velocity: None,
                    max_current: None,
                },
            )
        },
        None => None,
    }
}

/// An angle reduced to the principal range: congruent to `a` modulo a full
/// turn and lying in `(-PI, PI]`, in microradians.
pub open spec fn norm_angle_spec(a: int) -> int {
    let m = a % (TWO_PI_MICRORAD as int);
    if m > PI_MICRORAD {
        m - TWO_PI_MICRORAD
    } else {
        m
    }
}

/// Normalizes an angle to the principal range `(-PI, PI]`.
pub fn normalize_angle(a: i64) -> (r: i64)
    requires
        -VALUE_LIMIT <= a <= VALUE_LIMIT,
    ensures
        r == norm_angle_spec(a as int),
        -PI_MICRORAD < r <= PI_MICRORAD,
{
    let t: u64 = TWO_PI_MICRORAD as u64;
    let mag: u64 = if a >= 0 {
        a as u64
    } else {
        (-a) as u64
    };
    let q: u64 = mag / t;
    let m: u64 = mag % t;
    proof {
        lemma_fundamental_div_mod(mag as int, t as int);
    }
    let b: u64 = if a >= 0 {
        m
    } else if m == 0 {
        0
    } else {
        t - m
    };
    proof {
        if a >= 0 {
            assert(a == q * t + m);
            lemma_fundamental_div_mod_converse(a as int, t as int, q as int, m as int);
        } else if m == 0 {
            assert(a as int == (-(q as int)) * (t as int) + 0);
            lemma_fundamental_div_mod_converse(a as int, t as int, -(q as int), 0);
        } else {
            assert(a as int == (-(q as int) - 1) * (t as int) + (t - m));
            lemma_fundamental_div_mod_converse(
                a as int,
                t as int,
                -(q as int) - 1,
                t as int - m as int,
            );
        }
        assert(b == a as int % (t as int));
    }
    if b > PI_MICRORAD as u64 {
        (b as i64) - TWO_PI_MICRORAD
    } else {
        b as i64
    }
}

/// The first state in `states` carrying `id`, if any.
pub open spec fn find_state_spec(states: Seq<ActuatorState>, id: u32) -> Option<ActuatorState>
    decreases states.len(),
{
    if states.len() == 0 {
        None
    } else if states[0].actuator_id == id {
        Some(states[0])
    } else {
        find_state_spec(states.drop_first(), id)
    }
}

/// Finds the first state carrying `id`.
pub fn find_state(states: &Vec<ActuatorState>, id: u32) -> (r: Option<ActuatorState>)
    ensures
        r == find_state_spec(states@, id),
{
    let mut i: usize = 0;
    proof {
        assert(states@.skip(0) =~= states@);
    }
    while i < states.len()
        invariant
            0 <= i <= states.len(),
            find_state_spec(states@, id) == find_state_spec(states@.skip(i as int), id),
        decreases states.len() - i,
    {
        proof {
            assert(states@.skip(i as int)[0] == states@[i as int]);
            assert(states@.skip(i as int).drop_first() =~= states@.skip(i + 1));
        }
        if states[i].actuator_id == id {
            return Some(states[i]);
        }
        i = i + 1;
    }
    proof {
        assert(states@.skip(states.len() as int).len() == 0);
    }
    None
}

/// What one homing iteration does for one home-table row: `None` when the
/// actuator delivered no position this iteration (the joint is skipped, not
/// treated as converged); otherwise the commanded position and the absolute
/// angle error. The commanded position moves from the current position
/// toward the target by the error, clamped to the per-iteration step limit.
pub open spec fn home_row_outcome(states: Seq<ActuatorState>, id: u32, target: i64) -> Option<
    (int, int),
> {
    match find_state_spec(states, id) {
        Some(s) => match s.position {
            Some(p) => {
                let err = norm_angle_spec(p as int) - target;
                let step = clamp_int(
                    err,
                    -MAX_HOME_STEP_MICRORAD as int,
                    MAX_HOME_STEP_MICRORAD as int,
                );
                Some((p - step, abs_int(err)))
            },
            None => None,
        },
        None => None,
    }
}

/// The plan of one homing iteration.
pub struct HomeStep {
    /// One slot per home-table row, in table order: the command for the row,
    /// or `None` for a joint without position feedback this iteration.
    pub commands: Vec<Option<ActuatorCommand>>,
    /// The largest absolute angle error among the rows with feedback; zero
    /// when none had feedback.
    pub worst_error: i64,
    /// Whether some row had no position feedback this iteration.
    pub skipped: bool,
    /// Whether homing is done: every joint delivered feedback and the worst
    /// error is under the threshold. A skipped joint is never treated as
    /// converged.
    pub converged: bool,
}

/// Computes one homing iteration from a fresh state batch: for each home
/// row, the angle error normalized to `(-PI, PI]`, the step clamped to the
/// per-iteration limit, and the stepped command. The iteration's owner
/// dispatches the commands, reads fresh state and repeats until `converged`.
pub fn home_step(states: &Vec<ActuatorState>) -> (r: HomeStep)
    requires
        positions_bounded(states@),
        forall|j: int|
            0 <= j < constants::home_position_spec().len()
                ==> find_state_spec(states@, (#[trigger] constants::home_position_spec()[j]).0)
                is Some,
    ensures
        r.commands.len() == constants::home_position_spec().len(),
        forall|j: int|
            0 <= j < r.commands.len() ==> #[trigger] r.commands[j] == match home_row_outcome(
                states@,
                constants::home_position_spec()[j].0,
                constants::home_position_spec()[j].1,
            ) {
                Some(o) => Some(ActuatorCommand {
                    actuator_id: constants::home_position_spec()[j].0,
                    position: Some(o.0 as i64),
                    velocity: None,
                    torque: None,
                }),
                None => None,
            },
        forall|j: int|
            0 <= j < r.commands.len() ==> (home_row_outcome(
                states@,
                (#[trigger] constants::home_position_spec()[j]).0,
                constants::home_position_spec()[j].1,
            ) matches Some(o) ==> o.1 <= r.worst_error),
        r.skipped <==> (exists|j: int|
            0 <= j < constants::home_position_spec().len() && home_row_outcome(
                states@,
                (#[trigger] constants::home_position_spec()[j]).0,
                constants::home_position_spec()[j].1,
            ) is None),
        r.worst_error == 0 || (exists|j: int|
            0 <= j < constants::home_position_spec().len() && (home_row_outcome(
                states@,
                (#[trigger] constants::home_position_spec()[j]).0,
                constants::home_position_spec()[j].1,
            ) matches Some(o) && o.1 == r.worst_error)),
        r.converged <==> (!r.skipped && r.worst_error < HOME_ERROR_THRESHOLD_MICRORAD),
{
    let table: Vec<(u32, i64)> = constants::home_position();
    let mut commands: Vec<Option<ActuatorCommand>> = Vec::new();
    let mut worst_error: i64 = 0;
    let mut skipped: bool = false;
    let mut j: usize = 0;
    while j < table.len()
        invariant
            0 <= j <= table.len(),
            table@ == constants::home_position_spec(),
            positions_bounded(states@),
            commands.len() == j,
            0 <= worst_error,
            forall|k: int|
                0 <= k < j ==> #[trigger] commands[k] == match home_row_outcome(
                    states@,
                    constants::home_position_spec()[k].0,
                    constants::home_position_spec()[k].1,
                ) {
                    Some(o) => Some(ActuatorCommand {
                        actuator_id: constants::home_position_spec()[k].0,
                        position: Some(o.0 as i64),
                        velocity: None,
                        torque: None,
                    }),
                    None => None,
                },
            forall|k: int|
                0 <= k < j ==> (home_row_outcome(
                    states@,
                    (#[trigger] constants::home_position_spec()[k]).0,
                    constants::home_position_spec()[k].1,
                ) matches Some(o) ==> o.1 <= worst_error),
            skipped <==> (exists|k: int|
                0 <= k < j && home_row_outcome(
                    states@,
                    (#[trigger] constants::home_position_spec()[k]).0,
                    constants::home_position_spec()[k].1,
                ) is None),
            worst_error == 0 || (exists|k: int|
                0 <= k < j && (home_row_outcome(
                    states@,
                    (#[trigger] constants::home_position_spec()[k]).0,
                    constants::home_position_spec()[k].1,
                ) matches Some(o) && o.1 == worst_error)),
        decreases table.len() - j,
    {
        let (id, target): (u32, i64) = table[j];
        match find_state(states, id) {
            Some(s) => {
                proof {
                    assert(find_state_spec(states@, id) is Some);
                }
                match s.position {
                    Some(p) => {
                        proof {
                            lemma_find_state_position_bounded(states@, id);
                        }
                        let normalized: i64 = normalize_angle(p);
                        let err: i64 = normalized - target;
                        let step: i64 = fixed::clamp_i64(
                            err,
                            -MAX_HOME_STEP_MICRORAD,
                            MAX_HOME_STEP_MICRORAD,
                        );
                        let abs_err: i64 = if err >= 0 {
                            err
                        } else {
                            -err
                        };
                        if abs_err > worst_error {
                            worst_error = abs_err;
                        }
                        commands.push(
                            Some(
                                ActuatorCommand {
                                    actuator_id: id,
                                    position: Some(p - step),
                                    velocity: None,
                                    torque: None,
                                },
                            ),
                        );
                    },
                    None => {
                        skipped = true;
                        commands.push(None);
                    },
                }
            },
            None => {
                // excluded by the precondition: every home row has a state
                skipped = true;
                commands.push(None);
            },
        }
        j = j + 1;
    }
    let converged: bool = !skipped && worst_error < HOME_ERROR_THRESHOLD_MICRORAD;
    HomeStep { commands, worst_error, skipped, converged }
}

/// The position a found state carries is within the value bound.
proof fn lemma_find_state_position_bounded(states: Seq<ActuatorState>, id: u32)
    requires
        positions_bounded(states),
    ensures
        find_state_spec(states, id) matches Some(s) ==> (s.position matches Some(p)
            ==> -VALUE_LIMIT <= p <= VALUE_LIMIT),
    decreases states.len(),
{
    if states.len() > 0 && states[0].actuator_id != id {
        assert(positions_bounded(states.drop_first())) by {
            assert(forall|i: int|
                0 <= i < states.drop_first().len() ==> #[trigger] states.drop_first()[i]
                    == states[i + 1]);
        }
        lemma_find_state_position_bounded(states.drop_first(), id);
    }
}

/// Each homing iteration shrinks a joint's absolute angle error by exactly
/// the step limit until the error reaches zero: an error above the limit
/// loses one full step, an error within the limit is removed whole. With
/// an actuator that realizes its commands, the error therefore falls under
/// any positive threshold after finitely many iterations.
pub proof fn lemma_home_step_error_decrease(err: int)
    ensures
        abs_int(
            err - clamp_int(err, -MAX_HOME_STEP_MICRORAD as int, MAX_HOME_STEP_MICRORAD as int),
        ) == if abs_int(err) <= MAX_HOME_STEP_MICRORAD {
            0
        } else {
            abs_int(err) - MAX_HOME_STEP_MICRORAD
        },
{
}

} // verus!
