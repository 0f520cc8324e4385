//! Verified core of a legged-robot actuation pipeline.
//!
//! The library holds the logic of the control runtime: the fixed-period
//! scheduling arithmetic with sub-step interpolation, the sensor-fusion rules
//! that turn actuator and IMU readings into policy inputs, the homing
//! convergence controller, the quaternion/gravity-projection math, and the
//! teleoperation command channel. Hardware transports (CAN bus, serial IMU,
//! the inference engine) live outside the library and exchange plain values
//! with it.
//!
//! All physical quantities are carried as fixed-point integers in micro-units
//! (one unit equals `1_000_000`): angles in microradians, angular velocity in
//! microradians per second, acceleration in micro-(m/s^2), time in
//! microseconds, and dimensionless factors in parts per million.

pub mod actuators;
pub mod constants;
pub mod error;
pub mod fixed;
pub mod imu;
pub mod provider;
pub mod runtime;
pub mod teleop;
