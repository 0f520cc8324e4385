//! Quaternion math: gravity projection, normalization, composition.

use kinfer_kbot::error::KbotError;
use kinfer_kbot::imu::{
    imu_sample_from_parts, normalize_quat, rotate_quat, rotate_vector_inverse, ImuSample, Quat,
    Vec3,
};
use kinfer_kbot::provider::get_projected_gravity_from_values;

fn vec3(x: i64, y: i64, z: i64) -> Vec3 {
    Vec3 { x, y, z }
}

fn quat(w: i64, x: i64, y: i64, z: i64) -> Quat {
    Quat { w, x, y, z }
}

fn sample_with(orientation: Quat) -> ImuSample {
    ImuSample { accel: vec3(0, 0, 0), gyro: vec3(0, 0, 0), orientation }
}

#[test]
fn identity_orientation_leaves_world_gravity_unchanged() {
    let sample = sample_with(quat(1_000_000, 0, 0, 0));
    let g = get_projected_gravity_from_values(&sample).unwrap();
    assert_eq!(g, vec![0, 0, -9_810_000]);
}

#[test]
fn half_turn_about_x_flips_gravity() {
    // the unit quaternion (0, 1, 0, 0): a half turn about the body x axis
    let sample = sample_with(quat(0, 1_000_000, 0, 0));
    let g = get_projected_gravity_from_values(&sample).unwrap();
    assert_eq!(g, vec![0, 0, 9_810_000]);
}

#[test]
fn an_unnormalized_orientation_is_normalized_before_use() {
    // twice the unit length: the projection first brings it back to unit
    // scale, so the result matches the identity case exactly
    let sample = sample_with(quat(2_000_000, 0, 0, 0));
    let g = get_projected_gravity_from_values(&sample).unwrap();
    assert_eq!(g, vec![0, 0, -9_810_000]);
}

#[test]
fn zero_orientation_is_rejected_not_propagated() {
    let sample = sample_with(quat(0, 0, 0, 0));
    assert_eq!(
        get_projected_gravity_from_values(&sample),
        Err(KbotError::ZeroOrientation)
    );
}

#[test]
fn normalization_rescales_a_long_quaternion() {
    // twice the unit length comes back to the unit scale
    assert_eq!(
        normalize_quat(&quat(2_000_000, 0, 0, 0)),
        Some(quat(1_000_000, 0, 0, 0))
    );
    assert_eq!(normalize_quat(&quat(0, 0, 0, 0)), None);
    // a tiny but non-zero quaternion still normalizes by its own magnitude
    assert_eq!(normalize_quat(&quat(0, 0, 5, 0)), Some(quat(0, 0, 1_000_000, 0)));
}

#[test]
fn rotating_by_the_identity_keeps_the_vector() {
    let v = vec3(123, -456, 789_000);
    assert_eq!(rotate_vector_inverse(&quat(1_000_000, 0, 0, 0), &v), v);
}

#[test]
fn composing_with_the_identity_keeps_the_rotation() {
    let id = quat(1_000_000, 0, 0, 0);
    let q = quat(0, 1_000_000, 0, 0);
    assert_eq!(rotate_quat(id, q), q);
    assert_eq!(rotate_quat(q, id), q);
    // a half turn about x composed with itself is a full turn
    assert_eq!(rotate_quat(q, q), quat(-1_000_000, 0, 0, 0));
}

#[test]
fn sample_needs_every_field_of_one_reading() {
    let a = Some(vec3(1, 2, 3));
    let g = Some(vec3(4, 5, 6));
    let q = Some(quat(1_000_000, 0, 0, 0));
    let s = imu_sample_from_parts(a, g, q).unwrap();
    assert_eq!(s.accel, vec3(1, 2, 3));
    assert_eq!(s.gyro, vec3(4, 5, 6));
    assert_eq!(s.orientation, quat(1_000_000, 0, 0, 0));

    assert!(matches!(
        imu_sample_from_parts(None, g, q),
        Err(KbotError::MissingImuField(kinfer_kbot::error::ImuField::Accelerometer))
    ));
    assert!(matches!(
        imu_sample_from_parts(a, None, q),
        Err(KbotError::MissingImuField(kinfer_kbot::error::ImuField::Gyroscope))
    ));
    assert!(matches!(
        imu_sample_from_parts(a, g, None),
        Err(KbotError::MissingImuField(kinfer_kbot::error::ImuField::Orientation))
    ));
}
