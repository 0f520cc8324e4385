//! The teleoperation command channel.
//!
//! The channel holds the latest operator command vector — planar velocity,
//! yaw rate, absolute yaw, height, roll, pitch and a mode index — plus the
//! listener-running and graceful-shutdown flags. The newest write always
//! wins; there is no queue. The input-polling execution context owns the
//! shared handle and mirrors this state word for word into its atomics, so
//! every decision about what a key does to the vector is made and checked
//! here.
//!
//! Values are micro-units: a forward command of `200_000` stands for 0.2.

use vstd::prelude::*;

use crate::fixed::{clamp_int, VALUE_LIMIT};
use crate::fixed;

verus! {

/// The velocity a movement key commands, in micro-units (0.2).
pub const TELEOP_VELOCITY_STEP: i64 = 200_000;

/// The increment an angle key commands, in micro-units (0.1).
pub const TELEOP_ANGLE_STEP: i64 = 100_000;

/// The latest operator command vector and the listener's flags.
#[derive(Clone, Copy, Debug, PartialEq, Eq, Structural)]
pub struct TeleopChannel {
    pub x_vel: i64,
    pub y_vel: i64,
    pub yaw_rate: i64,
    pub yaw: i64,
    pub height: i64,
    pub roll: i64,
    pub pitch: i64,
    pub mode_index: i64,
    pub keyboard_running: bool,
    pub shutdown_requested: bool,
}

/// The keys the listener reacts to.
#[derive(Clone, Copy, Debug, PartialEq, Eq, Structural)]
pub enum TeleopKey {
    /// `w` / `s`: forward / backward velocity.
    KeyW,
    KeyS,
    /// `a` / `d`: left / right velocity.
    KeyA,
    KeyD,
    /// `q` / `e`: yaw rate and accumulated yaw, left / right.
    KeyQ,
    KeyE,
    /// `r` / `f`: roll up / down.
    KeyR,
    KeyF,
    /// `t` / `g`: pitch up / down.
    KeyT,
    KeyG,
    /// `6`..`9`: select a mode index.
    Key6,
    Key7,
    Key8,
    Key9,
    /// `2`: reset every command but the mode index to zero.
    Key2,
    /// Escape: request a graceful shutdown.
    Esc,
    /// Any key without a binding.
    Other,
}

/// Whether a key went down or up.
#[derive(Clone, Copy, Debug, PartialEq, Eq, Structural)]
pub enum KeyPhase {
    Press,
    Release,
}

impl TeleopChannel {
    /// Every command value stays within the global value bound.
    pub open spec fn wf(self) -> bool {
        &&& -VALUE_LIMIT <= self.x_vel <= VALUE_LIMIT
        &&& -VALUE_LIMIT <= self.y_vel <= VALUE_LIMIT
        &&& -VALUE_LIMIT <= self.yaw_rate <= VALUE_LIMIT
        &&& -VALUE_LIMIT <= self.yaw <= VALUE_LIMIT
        &&& -VALUE_LIMIT <= self.height <= VALUE_LIMIT
        &&& -VALUE_LIMIT <= self.roll <= VALUE_LIMIT
        &&& -VALUE_LIMIT <= self.pitch <= VALUE_LIMIT
        &&& -VALUE_LIMIT <= self.mode_index <= VALUE_LIMIT
    }

    /// A fresh channel: every command zero, no listener, no shutdown
    /// request. The channel resets to this state at process startup.
    pub fn new() -> (r: TeleopChannel)
        ensures
            r == (TeleopChannel {
                x_vel: 0,
                y_vel: 0,
                yaw_rate: 0,
                yaw: 0,
                height: 0,
                roll: 0,
                pitch: 0,
                mode_index: 0,
                keyboard_running: false,
                shutdown_requested: false,
            }),
            r.wf(),
    {
        TeleopChannel {
            x_vel: 0,
            y_vel: 0,
            yaw_rate: 0,
            yaw: 0,
            height: 0,
            roll: 0,
            pitch: 0,
            mode_index: 0,
            keyboard_running: false,
            shutdown_requested: false,
        }
    }

    /// The command vector in its documented order: x velocity, y velocity,
    /// yaw rate, yaw, height, roll, pitch, mode index.
    pub fn get_commands(&self) -> (r: Vec<i64>)
        ensures
            r@ == command_seq_spec(*self),
    {
        let r: Vec<i64> = vec![
            self.x_vel,
            self.y_vel,
            self.yaw_rate,
            self.yaw,
            self.height,
            self.roll,
            self.pitch,
            self.mode_index,
        ];
        proof {
            assert(r@ =~= command_seq_spec(*self));
        }
        r
    }

    /// Stores `value` into the command slot `index` (in the documented
    /// order); an index outside the vector changes nothing. A read that
    /// follows this write observes the new value.
    pub fn set_command(&mut self, index: usize, value: i64)
        requires
            old(self).wf(),
            -VALUE_LIMIT <= value <= VALUE_LIMIT,
        ensures
            *final(self) == set_command_spec(*old(self), index as int, value),
            final(self).wf(),
    {
        match index {
            0 => {
                self.x_vel = value;
            },
            1 => {
                self.y_vel = value;
            },
            2 => {
                self.yaw_rate = value;
            },
            3 => {
                self.yaw = value;
            },
            4 => {
                self.height = value;
            },
            5 => {
                self.roll = value;
            },
            6 => {
                self.pitch = value;
            },
            7 => {
                self.mode_index = value;
            },
            _ => {},
        }
    }

    /// Applies one key event to the channel, exactly as the listener's
    /// bindings say: see `key_event_spec` for the full table.
    pub fn apply_key_event(&mut self, key: TeleopKey, phase: KeyPhase)
        requires
            old(self).wf(),
        ensures
            *final(self) == key_event_spec(*old(self), key, phase),
            final(self).wf(),
    {
        match (phase, key) {
            (KeyPhase::Press, TeleopKey::KeyW) => {
                self.x_vel = TELEOP_VELOCITY_STEP;
            },
            (KeyPhase::Press, TeleopKey::KeyS) => {
                self.x_vel = -TELEOP_VELOCITY_STEP;
            },
            (KeyPhase::Press, TeleopKey::KeyA) => {
                self.y_vel = TELEOP_VELOCITY_STEP;
            },
            (KeyPhase::Press, TeleopKey::KeyD) => {
                self.y_vel = -TELEOP_VELOCITY_STEP;
            },
            (KeyPhase::Press, TeleopKey::KeyQ) => {
                self.yaw_rate = TELEOP_ANGLE_STEP;
                self.yaw = fixed::clamp_i64(
                    self.yaw + TELEOP_ANGLE_STEP,
                    -VALUE_LIMIT,
                    VALUE_LIMIT,
                );
            },
            (KeyPhase::Press, TeleopKey::KeyE) => {
                self.yaw_rate = -TELEOP_ANGLE_STEP;
                self.yaw = fixed::clamp_i64(
                    self.yaw - TELEOP_ANGLE_STEP,
                    -VALUE_LIMIT,
                    VALUE_LIMIT,
                );
            },
            (KeyPhase::Press, TeleopKey::KeyR) => {
                self.roll = fixed::clamp_i64(
                    self.roll + TELEOP_ANGLE_STEP,
                    -VALUE_LIMIT,
                    VALUE_LIMIT,
                );
            },
            (KeyPhase::Press, TeleopKey::KeyF) => {
                self.roll = fixed::clamp_i64(
                    self.roll - TELEOP_ANGLE_STEP,
                    -VALUE_LIMIT,
                    VALUE_LIMIT,
                );
            },
            (KeyPhase::Press, TeleopKey::KeyT) => {
                self.pitch = fixed::clamp_i64(
                    self.pitch + TELEOP_ANGLE_STEP,
                    -VALUE_LIMIT,
                    VALUE_LIMIT,
                );
            },
            (KeyPhase::Press, TeleopKey::KeyG) => {
                self.pitch = fixed::clamp_i64(
                    self.pitch - TELEOP_ANGLE_STEP,
                    -VALUE_LIMIT,
                    VALUE_LIMIT,
                );
            },
            (KeyPhase::Press, TeleopKey::Key6) => {
                self.mode_index = 6_000_000;
            },
            (KeyPhase::Press, TeleopKey::Key7) => {
                self.mode_index = 7_000_000;
            },
            (KeyPhase::Press, TeleopKey::Key8) => {
                self.mode_index = 8_000_000;
            },
            (KeyPhase::Press, TeleopKey::Key9) => {
                self.mode_index = 9_000_000;
            },
            (KeyPhase::Press, TeleopKey::Key2) => {
                self.x_vel = 0;
                self.y_vel = 0;
                self.yaw = 0;
                self.yaw_rate = 0;
                self.height = 0;
                self.pitch = 0;
                self.roll = 0;
            },
            (KeyPhase::Press, TeleopKey::Esc) => {
                self.shutdown_requested = true;
                self.keyboard_running = false;
            },
            (KeyPhase::Release, TeleopKey::KeyW) | (KeyPhase::Release, TeleopKey::KeyS) => {
                self.x_vel = 0;
            },
            (KeyPhase::Release, TeleopKey::KeyA) | (KeyPhase::Release, TeleopKey::KeyD) => {
                self.y_vel = 0;
            },
            (KeyPhase::Release, TeleopKey::KeyQ) | (KeyPhase::Release, TeleopKey::KeyE) => {
                self.yaw_rate = 0;
            },
            _ => {},
        }
    }

    /// Marks the listener as running.
    pub fn start_keyboard(&mut self)
        ensures
            *final(self) == (TeleopChannel { keyboard_running: true, ..*old(self) }),
    {
        self.keyboard_running = true;
    }
}

/// The command vector of a channel, in its documented order.
pub open spec fn command_seq_spec(ch: TeleopChannel) -> Seq<i64> {
    seq![ch.x_vel, ch.y_vel, ch.yaw_rate, ch.yaw, ch.height, ch.roll, ch.pitch, ch.mode_index]
}

/// What storing `value` at `index` does: slot `index` takes the value, the
/// rest stays; an index outside the vector changes nothing.
pub open spec fn set_command_spec(ch: TeleopChannel, index: int, value: i64) -> TeleopChannel {
    if index == 0 {
        TeleopChannel { x_vel: value, ..ch }
    } else if index == 1 {
        TeleopChannel { y_vel: value, ..ch }
    } else if index == 2 {
        TeleopChannel { yaw_rate: value, ..ch }
    } else if index == 3 {
        TeleopChannel { yaw: value, ..ch }
    } else if index == 4 {
        TeleopChannel { height: value, ..ch }
    } else if index == 5 {
        TeleopChannel { roll: value, ..ch }
    } else if index == 6 {
        TeleopChannel { pitch: value, ..ch }
    } else if index == 7 {
        TeleopChannel { mode_index: value, ..ch }
    } else {
        ch
    }
}

/// The full key-binding table. Pressing a movement key sets the velocity of
/// its axis; releasing it returns that axis to zero. The yaw keys set the
/// yaw rate and accumulate the absolute yaw, saturating at the value bound.
/// The digit keys select a mode; `2` resets every command but the mode.
/// Escape requests a graceful shutdown and stops the listener. Every other
/// combination leaves the channel unchanged.
pub open spec fn key_event_spec(ch: TeleopChannel, key: TeleopKey, phase: KeyPhase) -> TeleopChannel {
    match (phase, key) {
        (KeyPhase::Press, TeleopKey::KeyW) => TeleopChannel {
            x_vel: TELEOP_VELOCITY_STEP,
            ..ch
        },
        (KeyPhase::Press, TeleopKey::KeyS) => TeleopChannel {
            x_vel: (-TELEOP_VELOCITY_STEP) as i64,
            ..ch
        },
        (KeyPhase::Press, TeleopKey::KeyA) => TeleopChannel {
            y_vel: TELEOP_VELOCITY_STEP,
            ..ch
        },
        (KeyPhase::Press, TeleopKey::KeyD) => TeleopChannel {
            y_vel: (-TELEOP_VELOCITY_STEP) as i64,
            ..ch
        },
        (KeyPhase::Press, TeleopKey::KeyQ) => TeleopChannel {
            yaw_rate: TELEOP_ANGLE_STEP,
            yaw: clamp_int(ch.yaw + TELEOP_ANGLE_STEP, -VALUE_LIMIT as int, VALUE_LIMIT as int)
                as i64,
            ..ch
        },
        (KeyPhase::Press, TeleopKey::KeyE) => TeleopChannel {
            yaw_rate: (-TELEOP_ANGLE_STEP) as i64,
            yaw: clamp_int(ch.yaw - TELEOP_ANGLE_STEP, -VALUE_LIMIT as int, VALUE_LIMIT as int)
                as i64,
            ..ch
        },
        (KeyPhase::Press, TeleopKey::KeyR) => TeleopChannel {
            roll: clamp_int(ch.roll + TELEOP_ANGLE_STEP, -VALUE_LIMIT as int, VALUE_LIMIT as int)
                as i64,
            ..ch
        },
        (KeyPhase::Press, TeleopKey::KeyF) => TeleopChannel {
            roll: clamp_int(ch.roll - TELEOP_ANGLE_STEP, -VALUE_LIMIT as int, VALUE_LIMIT as int)
                as i64,
            ..ch
        },
        (KeyPhase::Press, TeleopKey::KeyT) => TeleopChannel {
            pitch: clamp_int(ch.pitch + TELEOP_ANGLE_STEP, -VALUE_LIMIT as int, VALUE_LIMIT as int)
                as i64,
            ..ch
        },
        (KeyPhase::Press, TeleopKey::KeyG) => TeleopChannel {
            pitch: clamp_int(ch.pitch - TELEOP_ANGLE_STEP, -VALUE_LIMIT as int, VALUE_LIMIT as int)
                as i64,
            ..ch
        },
        (KeyPhase::Press, TeleopKey::Key6) => TeleopChannel { mode_index: 6_000_000, ..ch },
        (KeyPhase::Press, TeleopKey::Key7) => TeleopChannel { mode_index: 7_000_000, ..ch },
        (KeyPhase::Press, TeleopKey::Key8) => TeleopChannel { mode_index: 8_000_000, ..ch },
        (KeyPhase::Press, TeleopKey::Key9) => TeleopChannel { mode_index: 9_000_000, ..ch },
        (KeyPhase::Press, TeleopKey::Key2) => TeleopChannel {
            x_vel: 0,
            y_vel: 0,
            yaw_rate: 0,
            yaw: 0,
            height: 0,
            roll: 0,
            pitch: 0,
            ..ch
        },
        (KeyPhase::Press, TeleopKey::Esc) => TeleopChannel {
            shutdown_requested: true,
            keyboard_running: false,
            ..ch
        },
        (KeyPhase::Release, TeleopKey::KeyW) | (KeyPhase::Release, TeleopKey::KeyS) => {
            TeleopChannel { x_vel: 0, ..ch }
        },
        (KeyPhase::Release, TeleopKey::KeyA) | (KeyPhase::Release, TeleopKey::KeyD) => {
            TeleopChannel { y_vel: 0, ..ch }
        },
        (KeyPhase::Release, TeleopKey::KeyQ) | (KeyPhase::Release, TeleopKey::KeyE) => {
            TeleopChannel { yaw_rate: 0, ..ch }
        },
        _ => ch,
    }
}

/// Whether the keyboard listener is running on this channel.
pub fn is_keyboard_running(ch: &TeleopChannel) -> (r: bool)
    ensures
        r == ch.keyboard_running,
{
    ch.keyboard_running
}

/// Whether a graceful shutdown has been requested on this channel.
pub fn is_shutdown_requested(ch: &TeleopChannel) -> (r: bool)
    ensures
        r == ch.shutdown_requested,
{
    ch.shutdown_requested
}

/// Stops the keyboard listener; the terminal itself is restored by the
/// listener's owner.
pub fn cleanup_keyboard(ch: &mut TeleopChannel)
    ensures
        *final(ch) == (TeleopChannel { keyboard_running: false, ..*old(ch) }),
{
    ch.keyboard_running = false;
}

/// A write followed by a read: the read observes exactly the written value.
/// The channel never hands back a staler command than the newest stored one.
pub proof fn lemma_teleop_read_after_write(ch: TeleopChannel, index: int, value: i64)
    requires
        0 <= index < 8,
    ensures
        command_seq_spec(set_command_spec(ch, index, value))[index] == value,
        forall|j: int|
            0 <= j < 8 && j != index ==> command_seq_spec(set_command_spec(ch, index, value))[j]
                == command_seq_spec(ch)[j],
{
}

} // verus!
