//! The library's typed errors.

use vstd::prelude::*;

verus! {

/// The IMU field that a sample failed to deliver.
#[derive(Clone, Copy, Debug, PartialEq, Eq, Structural)]
pub enum ImuField {
    Accelerometer,
    Gyroscope,
    Orientation,
}

/// Why an operation of the control core failed.
///
/// Configuration faults (an unmapped joint name, an operator-vector width
/// with no documented layout) are fatal at startup; snapshot faults (missing
/// per-joint or IMU data) are fatal to the tick that observed them.
/// Per-actuator dispatch faults are never carried here: they are recorded in
/// the per-actuator results of a batch and do not abort it.
#[derive(Clone, Debug, PartialEq, Eq)]
pub enum KbotError {
    /// A joint name that the static table does not map; carries the name.
    UnknownJointName(String),
    /// An actuator delivered no position feedback; carries the actuator id.
    MissingPosition(u32),
    /// An actuator delivered no velocity feedback; carries the actuator id.
    MissingVelocity(u32),
    /// The IMU sample lacked one of its fields.
    MissingImuField(ImuField),
    /// The orientation quaternion has (near-)zero magnitude and cannot be
    /// normalized.
    ZeroOrientation,
    /// A batch command without a target position; carries the actuator id.
    NoCommandPosition(u32),
    /// An input kind this provider cannot produce on its own.
    UnsupportedInput,
    /// An operator command vector width with no documented field ordering;
    /// carries the requested width.
    UnsupportedCommandWidth(usize),
}

impl KbotError {
    /// A human-readable cause, for reporting at the boundary.
    pub fn describe(&self) -> String {
        match self {
            KbotError::UnknownJointName(_) => {
                "joint name not found in the static table".to_owned()
            },
            KbotError::MissingPosition(_) => "position not available for actuator".to_owned(),
            KbotError::MissingVelocity(_) => "velocity not available for actuator".to_owned(),
            KbotError::MissingImuField(field) => match field {
                ImuField::Accelerometer => "failed to read accelerometer".to_owned(),
                ImuField::Gyroscope => "failed to read gyroscope".to_owned(),
                ImuField::Orientation => "failed to read quaternion".to_owned(),
            },
            KbotError::ZeroOrientation => {
                "orientation quaternion has zero magnitude".to_owned()
            },
            KbotError::NoCommandPosition(_) => {
                "no position specified for actuator".to_owned()
            },
            KbotError::UnsupportedInput => {
                "input kind is not produced by this provider".to_owned()
            },
            KbotError::UnsupportedCommandWidth(_) => {
                "no documented operator-vector layout of this width".to_owned()
            },
        }
    }
}

} // verus!
