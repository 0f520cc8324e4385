//! Actuator-facing data types and the decision logic of the bus facade:
//! batch command planning, per-actuator result collection, configuration
//! planning, feedback decoding, port classification, and the static
//! actuator-configuration table.
//!
//! The bus transport itself (CAN or serial) lives outside the library; it
//! receives the plans computed here and hands back one outcome per actuator.

use vstd::prelude::*;

use crate::error::KbotError;
use vstd::string::StringSliceAdditionalSpecFns;

verus! {

/// One position-mode command: target position, and optional velocity and
/// torque that default to zero when absent. Micro-units throughout.
#[derive(Clone, Copy, Debug, PartialEq, Eq, Structural)]
pub struct ActuatorCommand {
    pub actuator_id: u32,
    pub position: Option<i64>,
    pub velocity: Option<i64>,
    pub torque: Option<i64>,
}

/// A configuration request for one actuator; absent gains default to zero,
/// absent limits are left unchanged on the motor.
#[derive(Clone, Copy, Debug, PartialEq, Eq, Structural)]
pub struct ConfigureRequest {
    pub actuator_id: u32,
    pub kp: Option<i64>,
    pub kd: Option<i64>,
    pub max_torque: Option<i64>,
    pub torque_enabled: Option<bool>,
    pub zero_position: Option<bool>,
    pub new_actuator_id: Option<u32>,
    pub max_velocity: Option<i64>,
    pub max_current: Option<i64>,
}

/// The outcome of one actuator's command within a batch: a batch is
/// best-effort, so each actuator carries its own success flag and error.
#[derive(Clone, Debug, PartialEq, Eq)]
pub struct ActionResult {
    pub actuator_id: u32,
    pub success: bool,
    pub error: Option<String>,
}

/// The outcome of a configuration request.
#[derive(Clone, Debug, PartialEq, Eq)]
pub struct ActionResponse {
    pub success: bool,
    pub error: Option<String>,
}

/// The last known state of one actuator. Every field but `online` is
/// optional: an actuator that delivered no feedback is online = false with
/// no data, never zeroes. Micro-units throughout.
#[derive(Clone, Copy, Debug, PartialEq, Eq, Structural)]
pub struct ActuatorState {
    pub actuator_id: u32,
    pub position: Option<i64>,
    pub velocity: Option<i64>,
    pub torque: Option<i64>,
    pub temperature: Option<i64>,
    pub online: bool,
}

/// One planned wire command: actuator id, position, velocity and torque,
/// with the optional fields already defaulted.
#[derive(Clone, Copy, Debug, PartialEq, Eq, Structural)]
pub struct WireCommand {
    pub actuator_id: u32,
    pub position: i64,
    pub velocity: i64,
    pub torque: i64,
}

/// Plans the wire form of a command batch. Velocity and torque default to
/// zero when unspecified; a command without a position fails the whole plan,
/// since a position-mode command cannot be formed from it.
pub fn plan_command_batch(commands: &Vec<ActuatorCommand>) -> (r: Result<
    Vec<WireCommand>,
    KbotError,
>)
    ensures
        r is Ok <==> (forall|i: int|
            0 <= i < commands.len() ==> (#[trigger] commands[i].position) is Some),
        r matches Ok(rows) ==> {
            &&& rows.len() == commands.len()
            &&& forall|i: int|
                0 <= i < commands.len() ==> #[trigger] rows[i] == (WireCommand {
                    actuator_id: commands[i].actuator_id,
                    position: commands[i].position->Some_0,
                    velocity: if commands[i].velocity is Some {
                        commands[i].velocity->Some_0
                    } else {
                        0
                    },
                    torque: if commands[i].torque is Some {
                        commands[i].torque->Some_0
                    } else {
                        0
                    },
                })
        },
        r matches Err(e) ==> {
            &&& e matches KbotError::NoCommandPosition(id)
            &&& exists|i: int|
                0 <= i < commands.len() && (#[trigger] commands[i].position) is None
                    && commands[i].actuator_id == id
        },
{
    let mut rows: Vec<WireCommand> = Vec::new();
    let mut i: usize = 0;
    while i < commands.len()
        invariant
            0 <= i <= commands.len(),
            rows.len() == i,
            forall|k: int| 0 <= k < i ==> (#[trigger] commands[k].position) is Some,
            forall|k: int|
                0 <= k < i ==> #[trigger] rows[k] == (WireCommand {
                    actuator_id: commands[k].actuator_id,
                    position: commands[k].position->Some_0,
                    velocity: if commands[k].velocity is Some {
                        commands[k].velocity->Some_0
                    } else {
                        0
                    },
                    torque: if commands[k].torque is Some {
                        commands[k].torque->Some_0
                    } else {
                        0
                    },
                }),
        decreases commands.len() - i,
    {
        let c = commands[i];
        match c.position {
            Some(position) => {
                let velocity: i64 = match c.velocity {
                    Some(v) => v,
                    None => 0,
                };
                let torque: i64 = match c.torque {
                    Some(t) => t,
                    None => 0,
                };
                rows.push(
                    WireCommand { actuator_id: c.actuator_id, position, velocity, torque },
                );
            },
            None => {
                return Err(KbotError::NoCommandPosition(c.actuator_id));
            },
        }
        i = i + 1;
    }
    Ok(rows)
}

/// Pairs each command of a batch with its outcome. The batch is best-effort:
/// every command gets a result, an actuator's failure is recorded in its own
/// result and never disturbs the others.
pub fn collect_action_results(commands: &Vec<ActuatorCommand>, outcomes: &Vec<Option<String>>) -> (r:
    Vec<ActionResult>)
    requires
        commands.len() == outcomes.len(),
    ensures
        r.len() == commands.len(),
        forall|i: int|
            0 <= i < r.len() ==> {
                &&& (#[trigger] r[i]).actuator_id == commands[i].actuator_id
                &&& r[i].success == (outcomes[i] is None)
                &&& r[i].error == outcomes[i]
            },
{
    let mut results: Vec<ActionResult> = Vec::new();
    let mut i: usize = 0;
    while i < commands.len()
        invariant
            0 <= i <= commands.len(),
            commands.len() == outcomes.len(),
            results.len() == i,
            forall|k: int|
                0 <= k < i ==> {
                    &&& (#[trigger] results[k]).actuator_id == commands[k].actuator_id
                    &&& results[k].success == (outcomes[k] is None)
                    &&& results[k].error == outcomes[k]
                },
        decreases commands.len() - i,
    {
        let error: Option<String> = match &outcomes[i] {
            Some(e) => Some(e.clone()),
            None => None,
        };
        let success: bool = error.is_none();
        results.push(
            ActionResult { actuator_id: commands[i].actuator_id, success, error },
        );
        i = i + 1;
    }
    results
}

/// The fully defaulted plan of one configuration request: the control gains
/// to write, and which of the optional actions to take afterwards.
#[derive(Clone, Copy, Debug, PartialEq, Eq, Structural)]
pub struct ConfigurePlan {
    pub actuator_id: u32,
    pub kp: i64,
    pub kd: i64,
    pub max_torque: Option<i64>,
    pub max_velocity: Option<i64>,
    pub max_current: Option<i64>,
    /// `Some(true)` enables torque, `Some(false)` disables it, `None` leaves
    /// it as it is.
    pub torque_switch: Option<bool>,
    /// Whether to zero the position after configuring.
    pub zero_position: bool,
    /// A new id to assign, if any.
    pub new_actuator_id: Option<u32>,
}

/// Plans a configuration request: unspecified gains default to zero, the
/// optional post-configuration actions fire exactly when requested.
pub fn plan_configure(req: &ConfigureRequest) -> (r: ConfigurePlan)
    ensures
        r.actuator_id == req.actuator_id,
        r.kp == if req.kp is Some {
            req.kp->Some_0
        } else {
            0
        },
        r.kd == if req.kd is Some {
            req.kd->Some_0
        } else {
            0
        },
        r.max_torque == req.max_torque,
        r.max_velocity == req.max_velocity,
        r.max_current == req.max_current,
        r.torque_switch == req.torque_enabled,
        r.zero_position == (req.zero_position == Some(true)),
        r.new_actuator_id == req.new_actuator_id,
{
    ConfigurePlan {
        actuator_id: req.actuator_id,
        kp: match req.kp {
            Some(kp) => kp,
            None => 0,
        },
        kd: match req.kd {
            Some(kd) => kd,
            None => 0,
        },
        max_torque: req.max_torque,
        max_velocity: req.max_velocity,
        max_current: req.max_current,
        torque_switch: req.torque_enabled,
        zero_position: match req.zero_position {
            Some(z) => z,
            None => false,
        },
        new_actuator_id: req.new_actuator_id,
    }
}

/// The actuator models on the robot.
#[derive(Clone, Copy, Debug, PartialEq, Eq, Structural)]
pub enum ActuatorKind {
    RobStride00,
    RobStride02,
    RobStride03,
    RobStride04,
}

/// The static configuration of one actuator: its model, the largest angle
/// change one command may ask for (micro-percent), its velocity limit
/// (microradians per second), and its command rate (micro-hertz).
#[derive(Clone, Copy, Debug, PartialEq, Eq, Structural)]
pub struct ActuatorConfig {
    pub kind: ActuatorKind,
    pub max_angle_change: Option<i64>,
    pub max_velocity: Option<i64>,
    pub command_rate: Option<i64>,
}

/// The shared limits every actuator on the robot is configured with: a 5%
/// angle change cap, a velocity cap of 10 degrees per second, and a 50 Hz
/// command rate.
pub open spec fn robot_limits_config(kind: ActuatorKind) -> ActuatorConfig {
    ActuatorConfig {
        kind,
        max_angle_change: Some(5_000_000i64),
        max_velocity: Some(174_533i64),
        command_rate: Some(50_000_000i64),
    }
}

/// The static actuator table of the robot: each motor id with its model and
/// limits. Arms are ids 11-15 and 21-25, legs 31-35 and 41-45.
pub open spec fn kbot_actuators_spec() -> Seq<(u8, ActuatorConfig)> {
    seq![
        (11u8, robot_limits_config(ActuatorKind::RobStride03)),
        (12u8, robot_limits_config(ActuatorKind::RobStride03)),
        (13u8, robot_limits_config(ActuatorKind::RobStride02)),
        (14u8, robot_limits_config(ActuatorKind::RobStride02)),
        (15u8, robot_limits_config(ActuatorKind::RobStride02)),
        (21u8, robot_limits_config(ActuatorKind::RobStride03)),
        (22u8, robot_limits_config(ActuatorKind::RobStride03)),
        (23u8, robot_limits_config(ActuatorKind::RobStride02)),
        (24u8, robot_limits_config(ActuatorKind::RobStride02)),
        (25u8, robot_limits_config(ActuatorKind::RobStride02)),
        (31u8, robot_limits_config(ActuatorKind::RobStride04)),
        (32u8, robot_limits_config(ActuatorKind::RobStride03)),
        (33u8, robot_limits_config(ActuatorKind::RobStride03)),
        (34u8, robot_limits_config(ActuatorKind::RobStride04)),
        (35u8, robot_limits_config(ActuatorKind::RobStride02)),
        (41u8, robot_limits_config(ActuatorKind::RobStride04)),
        (42u8, robot_limits_config(ActuatorKind::RobStride03)),
        (43u8, robot_limits_config(ActuatorKind::RobStride03)),
        (44u8, robot_limits_config(ActuatorKind::RobStride04)),
        (45u8, robot_limits_config(ActuatorKind::RobStride02)),
    ]
}

/// Builds one actuator configuration with the robot's shared limits.
fn make_limits_config(kind: ActuatorKind) -> (r: ActuatorConfig)
    ensures
        r == robot_limits_config(kind),
{
    ActuatorConfig {
        kind,
        max_angle_change: Some(5_000_000),
        max_velocity: Some(174_533),
        command_rate: Some(50_000_000),
    }
}

/// The static actuator table of the robot, in table order.
pub fn create_kbot_actuators() -> (r: Vec<(u8, ActuatorConfig)>)
    ensures
        r@ == kbot_actuators_spec(),
{
    let rs02 = make_limits_config(ActuatorKind::RobStride02);
    let rs03 = make_limits_config(ActuatorKind::RobStride03);
    let rs04 = make_limits_config(ActuatorKind::RobStride04);
    let r: Vec<(u8, ActuatorConfig)> = vec![
        (11u8, rs03),
        (12u8, rs03),
        (13u8, rs02),
        (14u8, rs02),
        (15u8, rs02),
        (21u8, rs03),
        (22u8, rs03),
        (23u8, rs02),
        (24u8, rs02),
        (25u8, rs02),
        (31u8, rs04),
        (32u8, rs03),
        (33u8, rs03),
        (34u8, rs04),
        (35u8, rs02),
        (41u8, rs04),
        (42u8, rs03),
        (43u8, rs03),
        (44u8, rs04),
        (45u8, rs02),
    ];
    proof {
        assert(r@ =~= kbot_actuators_spec());
    }
    r
}

/// The transport family a port name selects.
#[derive(Clone, Copy, Debug, PartialEq, Eq, Structural)]
pub enum PortKind {
    /// A serial device: the name starts with "/dev/tty".
    SerialCh341,
    /// A CAN interface: the name starts with "can".
    SocketCan,
    /// Anything else; opening such a port is a hard error.
    Invalid,
}

/// The bytes of the prefix "/dev/tty".
pub open spec fn serial_prefix() -> Seq<u8> {
    seq![47u8, 100u8, 101u8, 118u8, 47u8, 116u8, 116u8, 121u8]
}

/// The bytes of the prefix "can".
pub open spec fn can_prefix() -> Seq<u8> {
    seq![99u8, 97u8, 110u8]
}

/// The transport family of a port name, by its byte prefix.
pub open spec fn port_kind_spec(bytes: Seq<u8>) -> PortKind {
    if bytes.len() >= 8 && bytes.subrange(0, 8) == serial_prefix() {
        PortKind::SerialCh341
    } else if bytes.len() >= 3 && bytes.subrange(0, 3) == can_prefix() {
        PortKind::SocketCan
    } else {
        PortKind::Invalid
    }
}

/// Classifies a port name into its transport family.
pub fn classify_port(port: &str) -> (r: PortKind)
    ensures
        r == port_kind_spec(port.spec_bytes()),
{
    let b: &[u8] = port.as_bytes();
    if b.len() >= 8 && b[0] == 47 && b[1] == 100 && b[2] == 101 && b[3] == 118 && b[4] == 47
        && b[5] == 116 && b[6] == 116 && b[7] == 121 {
        proof {
            assert(b@.subrange(0, 8) =~= serial_prefix());
        }
        PortKind::SerialCh341
    } else if b.len() >= 3 && b[0] == 99 && b[1] == 97 && b[2] == 110 {
        proof {
            if b@.len() >= 8 {
                assert(b@.subrange(0, 8)[0] == b@[0]);
            }
            assert(b@.subrange(0, 3) =~= can_prefix());
        }
        PortKind::SocketCan
    } else {
        proof {
            if b@.len() >= 8 && b@.subrange(0, 8) == serial_prefix() {
                assert(b@[0] == b@.subrange(0, 8)[0]);
                assert(b@[1] == b@.subrange(0, 8)[1]);
                assert(b@[2] == b@.subrange(0, 8)[2]);
                assert(b@[3] == b@.subrange(0, 8)[3]);
                assert(b@[4] == b@.subrange(0, 8)[4]);
                assert(b@[5] == b@.subrange(0, 8)[5]);
                assert(b@[6] == b@.subrange(0, 8)[6]);
                assert(b@[7] == b@.subrange(0, 8)[7]);
            }
            if b@.len() >= 3 && b@.subrange(0, 3) == can_prefix() {
                assert(b@[0] == b@.subrange(0, 3)[0]);
                assert(b@[1] == b@.subrange(0, 3)[1]);
                assert(b@[2] == b@.subrange(0, 3)[2]);
            }
        }
        PortKind::Invalid
    }
}

/// Whether `x` occurs in `ids`.
pub fn contains_id(ids: &Vec<u8>, x: u8) -> (r: bool)
    ensures
        r == ids@.contains(x),
{
    let mut i: usize = 0;
    while i < ids.len()
        invariant
            0 <= i <= ids.len(),
            forall|k: int| 0 <= k < i ==> ids[k] != x,
        decreases ids.len() - i,
    {
        if ids[i] == x {
            return true;
        }
        i = i + 1;
    }
    false
}

/// For each configured motor, whether the bus scan discovered it.
pub fn found_motors(configured: &Vec<u8>, discovered: &Vec<u8>) -> (r: Vec<bool>)
    ensures
        r.len() == configured.len(),
        forall|i: int|
            0 <= i < configured.len() ==> #[trigger] r[i] == discovered@.contains(
                configured[i],
            ),
{
    let mut found: Vec<bool> = Vec::new();
    let mut i: usize = 0;
    while i < configured.len()
        invariant
            0 <= i <= configured.len(),
            found.len() == i,
            forall|k: int|
                0 <= k < i ==> #[trigger] found[k] == discovered@.contains(configured[k]),
        decreases configured.len() - i,
    {
        found.push(contains_id(discovered, configured[i]));
        i = i + 1;
    }
    found
}

/// The discovered motor ids that no configured entry accounts for, in
/// discovery order.
pub fn unknown_motor_ids(discovered: &Vec<u8>, configured: &Vec<u8>) -> (r: Vec<u8>)
    ensures
        r@ == discovered@.filter(|id: u8| !configured@.contains(id)),
{
    let mut unknown: Vec<u8> = Vec::new();
    let mut i: usize = 0;
    while i < discovered.len()
        invariant
            0 <= i <= discovered.len(),
            unknown@ == discovered@.subrange(0, i as int).filter(
                |id: u8| !configured@.contains(id),
            ),
        decreases discovered.len() - i,
    {
        let x: u8 = discovered[i];
        proof {
            let pred = |id: u8| !configured@.contains(id);
            let s = discovered@.subrange(0, i as int);
            let s2 = discovered@.subrange(0, i + 1);
            assert(s2.drop_last() =~= s);
            assert(s2.last() == x);
            reveal(Seq::filter);
            assert(s2.filter(pred) == if pred(x) {
                s.filter(pred).push(x)
            } else {
                s.filter(pred)
            });
        }
        if !contains_id(configured, x) {
            unknown.push(x);
        }
        i = i + 1;
    }
    proof {
        assert(discovered@.subrange(0, discovered.len() as int) =~= discovered@);
    }
    unknown
}

/// Decodes one actuator's feedback into its state: feedback present means
/// online with every field filled from the same reading; feedback absent
/// means offline with no data, never substituted zeroes.
pub fn actuator_state_from_feedback(actuator_id: u32, feedback: Option<(i64, i64, i64, i64)>) -> (r:
    ActuatorState)
    ensures
        r.actuator_id == actuator_id,
        feedback matches Some(f) ==> r == (ActuatorState {
            actuator_id,
            position: Some(f.0),
            velocity: Some(f.1),
            torque: Some(f.2),
            temperature: Some(f.3),
            online: true,
        }),
        feedback is None ==> r == (ActuatorState {
            actuator_id,
            position: None,
            velocity: None,
            torque: None,
            temperature: None,
            online: false,
        }),
{
    match feedback {
        Some((position, velocity, torque, temperature)) => ActuatorState {
            actuator_id,
            position: Some(position),
            velocity: Some(velocity),
            torque: Some(torque),
            temperature: Some(temperature),
            online: true,
        },
        None => ActuatorState {
            actuator_id,
            position: None,
            velocity: None,
            torque: None,
            temperature: None,
            online: false,
        },
    }
}

} // verus!
