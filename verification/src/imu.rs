//! Orientation math and the IMU sample model.
//!
//! A quaternion is carried with each component scaled by `MICRO`, so the
//! identity rotation is `(1_000_000, 0, 0, 0)`. A vector is carried in
//! micro-units of its physical dimension. All formulas are the exact
//! integer forms of the real ones, truncated toward zero; rotating by the
//! identity quaternion is exact.

use vstd::prelude::*;

use crate::error::{ImuField, KbotError};
use crate::fixed::{div_trunc, isqrt_spec, MICRO, VALUE_LIMIT};
use crate::fixed;

verus! {

/// Bound on the magnitude of a raw quaternion component: ten units. A real
/// orientation quaternion is (close to) one unit long.
pub const QUAT_LIMIT: i64 = 10_000_000;

/// Bound on the magnitude of a vector handed to a rotation, small enough
/// that the rotated result stays within `VALUE_LIMIT`.
pub const ROTATE_INPUT_LIMIT: i64 = 62_500_000_000;

/// A three-component vector in micro-units.
#[derive(Clone, Copy, Debug, PartialEq, Eq, Structural)]
pub struct Vec3 {
    pub x: i64,
    pub y: i64,
    pub z: i64,
}

/// An orientation quaternion, components scaled by `MICRO`.
#[derive(Clone, Copy, Debug, PartialEq, Eq, Structural)]
pub struct Quat {
    pub w: i64,
    pub x: i64,
    pub y: i64,
    pub z: i64,
}

/// Every component of `v` lies in `[-limit, limit]`.
pub open spec fn vec_within(v: Vec3, limit: int) -> bool {
    &&& -limit <= v.x <= limit
    &&& -limit <= v.y <= limit
    &&& -limit <= v.z <= limit
}

/// Every component of `q` lies in `[-limit, limit]`.
pub open spec fn quat_within(q: Quat, limit: int) -> bool {
    &&& -limit <= q.w <= limit
    &&& -limit <= q.x <= limit
    &&& -limit <= q.y <= limit
    &&& -limit <= q.z <= limit
}

/// The squared magnitude of `q`, in squared micro-units.
pub open spec fn quat_mag_sq(q: Quat) -> int {
    q.w * q.w + q.x * q.x + q.y * q.y + q.z * q.z
}

/// The `w` component of the Hamilton product of `a` and `b`, before
/// rescaling by `MICRO`.
pub open spec fn quat_prod_w(a: Quat, b: Quat) -> int {
    a.w * b.w - a.x * b.x - a.y * b.y - a.z * b.z
}

/// The `x` component of the Hamilton product, before rescaling.
pub open spec fn quat_prod_x(a: Quat, b: Quat) -> int {
    a.w * b.x + a.x * b.w + a.y * b.z - a.z * b.y
}

/// The `y` component of the Hamilton product, before rescaling.
pub open spec fn quat_prod_y(a: Quat, b: Quat) -> int {
    a.w * b.y - a.x * b.z + a.y * b.w + a.z * b.x
}

/// The `z` component of the Hamilton product, before rescaling.
pub open spec fn quat_prod_z(a: Quat, b: Quat) -> int {
    a.w * b.z + a.x * b.y - a.y * b.x + a.z * b.w
}

/// The Hamilton product of two quaternions in the `MICRO` scale: each raw
/// product component carries the scale twice, so it is divided by `MICRO`
/// once, truncating toward zero.
pub open spec fn quat_mul_spec(a: Quat, b: Quat) -> Quat {
    Quat {
        w: div_trunc(quat_prod_w(a, b), MICRO as int) as i64,
        x: div_trunc(quat_prod_x(a, b), MICRO as int) as i64,
        y: div_trunc(quat_prod_y(a, b), MICRO as int) as i64,
        z: div_trunc(quat_prod_z(a, b), MICRO as int) as i64,
    }
}

/// The product of two bounded quaternion components, exactly, in 128 bits.
fn prod_i128(a: i64, b: i64, bound: i64) -> (r: i128)
    requires
        0 < bound <= QUAT_LIMIT,
        -bound <= a <= bound,
        -bound <= b <= bound,
    ensures
        r == a as int * b as int,
        -(bound as int) * (bound as int) <= r <= (bound as int) * (bound as int),
        a == b ==> r >= 0,
{
    proof {
        assert(-(bound as int) * (bound as int) <= a as int * b as int <= (bound as int) * (
        bound as int) && -(QUAT_LIMIT as int) * (QUAT_LIMIT as int) <= a as int * b as int
            <= (QUAT_LIMIT as int) * (QUAT_LIMIT as int)) by (nonlinear_arith)
            requires
                0 < bound <= QUAT_LIMIT,
                -bound <= a <= bound,
                -bound <= b <= bound,
                QUAT_LIMIT == 10_000_000,
        ;
        assert(a as int * a as int >= 0) by (nonlinear_arith);
    }
    (a as i128) * (b as i128)
}

/// One rescaled Hamilton-product component, computed exactly in 128 bits.
fn quat_prod_component(p1: i128, p2: i128, p3: i128, p4: i128) -> (r: i64)
    requires
        -QUAT_LIMIT * QUAT_LIMIT <= p1 <= QUAT_LIMIT * QUAT_LIMIT,
        -QUAT_LIMIT * QUAT_LIMIT <= p2 <= QUAT_LIMIT * QUAT_LIMIT,
        -QUAT_LIMIT * QUAT_LIMIT <= p3 <= QUAT_LIMIT * QUAT_LIMIT,
        -QUAT_LIMIT * QUAT_LIMIT <= p4 <= QUAT_LIMIT * QUAT_LIMIT,
    ensures
        r as int == div_trunc(p1 + p2 + p3 + p4, MICRO as int),
{
    let num: i128 = p1 + p2 + p3 + p4;
    let q: i128 = fixed::div_trunc_i128(num, MICRO as u64);
    proof {
        fixed::lemma_div_trunc_bound(
            num as int,
            MICRO as int,
            4 * QUAT_LIMIT * QUAT_LIMIT / MICRO as int,
        );
    }
    q as i64
}

/// Composes the rotations `quat1` and `quat2`: their Hamilton product,
/// rescaled back to the `MICRO` scale.
pub fn rotate_quat(quat1: Quat, quat2: Quat) -> (r: Quat)
    requires
        quat_within(quat1, QUAT_LIMIT as int),
        quat_within(quat2, QUAT_LIMIT as int),
    ensures
        r == quat_mul_spec(quat1, quat2),
{
    let ww: i128 = prod_i128(quat1.w, quat2.w, QUAT_LIMIT);
    let wx: i128 = prod_i128(quat1.w, quat2.x, QUAT_LIMIT);
    let wy: i128 = prod_i128(quat1.w, quat2.y, QUAT_LIMIT);
    let wz: i128 = prod_i128(quat1.w, quat2.z, QUAT_LIMIT);
    let xw: i128 = prod_i128(quat1.x, quat2.w, QUAT_LIMIT);
    let xx: i128 = prod_i128(quat1.x, quat2.x, QUAT_LIMIT);
    let xy: i128 = prod_i128(quat1.x, quat2.y, QUAT_LIMIT);
    let xz: i128 = prod_i128(quat1.x, quat2.z, QUAT_LIMIT);
    let yw: i128 = prod_i128(quat1.y, quat2.w, QUAT_LIMIT);
    let yx: i128 = prod_i128(quat1.y, quat2.x, QUAT_LIMIT);
    let yy: i128 = prod_i128(quat1.y, quat2.y, QUAT_LIMIT);
    let yz: i128 = prod_i128(quat1.y, quat2.z, QUAT_LIMIT);
    let zw: i128 = prod_i128(quat1.z, quat2.w, QUAT_LIMIT);
    let zx: i128 = prod_i128(quat1.z, quat2.x, QUAT_LIMIT);
    let zy: i128 = prod_i128(quat1.z, quat2.y, QUAT_LIMIT);
    let zz: i128 = prod_i128(quat1.z, quat2.z, QUAT_LIMIT);
    Quat {
        w: quat_prod_component(ww, -xx, -yy, -zz),
        x: quat_prod_component(wx, xw, yz, -zy),
        y: quat_prod_component(wy, -xz, yw, zx),
        z: quat_prod_component(wz, xy, -yx, zw),
    }
}

/// The magnitude of `q` in micro-units: the integer square root of the
/// squared magnitude.
pub open spec fn quat_mag(q: Quat) -> int {
    isqrt_spec(quat_mag_sq(q) as nat) as int
}

/// `q` normalized to (integer) unit length: each component scaled by
/// `MICRO / quat_mag(q)`, truncating toward zero. Meaningful only for a
/// quaternion of positive magnitude.
pub open spec fn quat_normalize_spec(q: Quat) -> Quat
    recommends
        quat_mag(q) > 0,
{
    Quat {
        w: div_trunc(q.w * MICRO, quat_mag(q)) as i64,
        x: div_trunc(q.x * MICRO, quat_mag(q)) as i64,
        y: div_trunc(q.y * MICRO, quat_mag(q)) as i64,
        z: div_trunc(q.z * MICRO, quat_mag(q)) as i64,
    }
}

/// The square of a bounded component, as an unsigned 64-bit value.
fn square_u64(a: i64) -> (r: u64)
    requires
        -QUAT_LIMIT <= a <= QUAT_LIMIT,
    ensures
        r == a as int * a as int,
        r <= QUAT_LIMIT * QUAT_LIMIT,
{
    let m: u64 = if a >= 0 {
        a as u64
    } else {
        (-a) as u64
    };
    proof {
        assert(m * m == a as int * a as int && m * m <= QUAT_LIMIT
            * QUAT_LIMIT) by (nonlinear_arith)
            requires
                m == fixed::abs_int(a as int),
                -QUAT_LIMIT <= a <= QUAT_LIMIT,
        ;
    }
    m * m
}

/// One component of the normalization: `c * MICRO / mag`, truncated.
fn normalize_component(c: i64, mag: u64) -> (r: i64)
    requires
        mag > 0,
        -QUAT_LIMIT <= c <= QUAT_LIMIT,
        -(mag as int) <= c <= mag as int,
    ensures
        r as int == div_trunc(c as int * MICRO, mag as int),
        -MICRO <= r <= MICRO,
{
    proof {
        assert(fixed::abs_int(c as int * MICRO) <= MICRO * mag) by (nonlinear_arith)
            requires
                -(mag as int) <= c <= mag as int,
                MICRO == 1_000_000,
        ;
    }
    let num: i128 = (c as i128) * (MICRO as i128);
    let q: i128 = fixed::div_trunc_i128(num, mag);
    proof {
        fixed::lemma_div_trunc_bound(num as int, mag as int, MICRO as int);
    }
    q as i64
}

/// Normalizes `q` to unit length, or returns `None` when its magnitude
/// truncates to zero: a not-yet-valid sample is rejected rather than turned
/// into an undefined direction.
pub fn normalize_quat(q: &Quat) -> (r: Option<Quat>)
    requires
        quat_within(*q, QUAT_LIMIT as int),
    ensures
        r is Some <==> quat_mag(*q) > 0,
        r matches Some(n) ==> n == quat_normalize_spec(*q),
        r matches Some(n) ==> quat_within(n, MICRO as int),
{
    let ww: u64 = square_u64(q.w);
    let xx: u64 = square_u64(q.x);
    let yy: u64 = square_u64(q.y);
    let zz: u64 = square_u64(q.z);
    let mag_sq: u64 = ww + xx + yy + zz;
    assert(mag_sq == quat_mag_sq(*q));
    let mag: u64 = fixed::isqrt_u64(mag_sq);
    if mag == 0 {
        proof {
            assert(quat_mag(*q) == 0);
        }
        None
    } else {
        proof {
            assert(quat_mag(*q) == mag as int);
            lemma_components_within_mag(*q, mag as int);
        }
        Some(
            Quat {
                w: normalize_component(q.w, mag),
                x: normalize_component(q.x, mag),
                y: normalize_component(q.y, mag),
                z: normalize_component(q.z, mag),
            },
        )
    }
}

/// No component of a quaternion exceeds its integer magnitude.
proof fn lemma_components_within_mag(q: Quat, mag: int)
    requires
        mag * mag <= quat_mag_sq(q) < (mag + 1) * (mag + 1),
        mag >= 0,
    ensures
        -mag <= q.w <= mag,
        -mag <= q.x <= mag,
        -mag <= q.y <= mag,
        -mag <= q.z <= mag,
{
    assert(-mag <= q.w <= mag && -mag <= q.x <= mag && -mag <= q.y <= mag && -mag <= q.z
        <= mag) by (nonlinear_arith)
        requires
            mag * mag <= quat_mag_sq(q) < (mag + 1) * (mag + 1),
            mag >= 0,
    ;
}

/// The `x` component of `v` rotated by the inverse of the unit quaternion
/// `q` (world frame to body frame), before rescaling by `MICRO * MICRO`.
pub open spec fn rot_inv_num_x(q: Quat, v: Vec3) -> int {
    (MICRO * MICRO - 2 * (q.y * q.y + q.z * q.z)) * v.x + 2 * (q.x * q.y + q.w * q.z) * v.y + 2
        * (q.x * q.z - q.w * q.y) * v.z
}

/// The `y` component of the inverse rotation, before rescaling.
pub open spec fn rot_inv_num_y(q: Quat, v: Vec3) -> int {
    2 * (q.x * q.y - q.w * q.z) * v.x + (MICRO * MICRO - 2 * (q.x * q.x + q.z * q.z)) * v.y + 2
        * (q.y * q.z + q.w * q.x) * v.z
}

/// The `z` component of the inverse rotation, before rescaling.
pub open spec fn rot_inv_num_z(q: Quat, v: Vec3) -> int {
    2 * (q.x * q.z + q.w * q.y) * v.x + 2 * (q.y * q.z - q.w * q.x) * v.y + (MICRO * MICRO - 2
        * (q.x * q.x + q.y * q.y)) * v.z
}

/// `v` rotated by the inverse of the unit quaternion `q`: the exact integer
/// form of `q^-1 * v * q`, each component truncated toward zero.
pub open spec fn rotate_inverse_spec(q: Quat, v: Vec3) -> Vec3 {
    Vec3 {
        x: div_trunc(rot_inv_num_x(q, v), MICRO * MICRO) as i64,
        y: div_trunc(rot_inv_num_y(q, v), MICRO * MICRO) as i64,
        z: div_trunc(rot_inv_num_z(q, v), MICRO * MICRO) as i64,
    }
}

/// One rotation component: `(c1 * a + c2 * b + c3 * c) / MICRO^2`, with the
/// coefficients bounded by `4 * MICRO^2` as the scaled rotation-matrix
/// entries of a unit-bounded quaternion are.
fn rot_component(c1: i128, c2: i128, c3: i128, a: i64, b: i64, c: i64) -> (r: i64)
    requires
        fixed::abs_int(c1 as int) <= 4 * MICRO * MICRO,
        fixed::abs_int(c2 as int) <= 4 * MICRO * MICRO,
        fixed::abs_int(c3 as int) <= 4 * MICRO * MICRO,
        -ROTATE_INPUT_LIMIT <= a <= ROTATE_INPUT_LIMIT,
        -ROTATE_INPUT_LIMIT <= b <= ROTATE_INPUT_LIMIT,
        -ROTATE_INPUT_LIMIT <= c <= ROTATE_INPUT_LIMIT,
    ensures
        r as int == div_trunc(c1 * a + c2 * b + c3 * c, MICRO * MICRO),
        -VALUE_LIMIT <= r <= VALUE_LIMIT,
{
    proof {
        assert(fixed::abs_int(c1 as int * a as int) <= 4 * MICRO * MICRO
            * ROTATE_INPUT_LIMIT) by (nonlinear_arith)
            requires
                fixed::abs_int(c1 as int) <= 4 * MICRO * MICRO,
                -ROTATE_INPUT_LIMIT <= a <= ROTATE_INPUT_LIMIT,
        ;
        assert(fixed::abs_int(c2 as int * b as int) <= 4 * MICRO * MICRO
            * ROTATE_INPUT_LIMIT) by (nonlinear_arith)
            requires
                fixed::abs_int(c2 as int) <= 4 * MICRO * MICRO,
                -ROTATE_INPUT_LIMIT <= b <= ROTATE_INPUT_LIMIT,
        ;
        assert(fixed::abs_int(c3 as int * c as int) <= 4 * MICRO * MICRO
            * ROTATE_INPUT_LIMIT) by (nonlinear_arith)
            requires
                fixed::abs_int(c3 as int) <= 4 * MICRO * MICRO,
                -ROTATE_INPUT_LIMIT <= c <= ROTATE_INPUT_LIMIT,
        ;
    }
    let num: i128 = c1 * (a as i128) + c2 * (b as i128) + c3 * (c as i128);
    proof {
        assert(12 * MICRO * MICRO * ROTATE_INPUT_LIMIT <= VALUE_LIMIT * (MICRO * MICRO));
        assert(fixed::abs_int(num as int) <= VALUE_LIMIT * (MICRO * MICRO));
    }
    let q: i128 = fixed::div_trunc_i128(num, (MICRO * MICRO) as u64);
    proof {
        fixed::lemma_div_trunc_bound(num as int, MICRO * MICRO, VALUE_LIMIT as int);
    }
    q as i64
}

/// Rotates `v` from the world frame into the body frame of the unit
/// quaternion `q`: the exact integer form of `q^-1 * v * q`. Rotating by
/// the identity quaternion returns `v` unchanged.
pub fn rotate_vector_inverse(q: &Quat, v: &Vec3) -> (r: Vec3)
    requires
        quat_within(*q, MICRO as int),
        vec_within(*v, ROTATE_INPUT_LIMIT as int),
    ensures
        r == rotate_inverse_spec(*q, *v),
        vec_within(r, VALUE_LIMIT as int),
{
    let xx: i128 = prod_i128(q.x, q.x, MICRO);
    let yy: i128 = prod_i128(q.y, q.y, MICRO);
    let zz: i128 = prod_i128(q.z, q.z, MICRO);
    let xy: i128 = prod_i128(q.x, q.y, MICRO);
    let xz: i128 = prod_i128(q.x, q.z, MICRO);
    let yz: i128 = prod_i128(q.y, q.z, MICRO);
    let wx: i128 = prod_i128(q.w, q.x, MICRO);
    let wy: i128 = prod_i128(q.w, q.y, MICRO);
    let wz: i128 = prod_i128(q.w, q.z, MICRO);
    let s2: i128 = (MICRO as i128) * (MICRO as i128);
    let cxx: i128 = s2 - 2 * (yy + zz);
    let cxy: i128 = 2 * (xy + wz);
    let cxz: i128 = 2 * (xz - wy);
    let cyx: i128 = 2 * (xy - wz);
    let cyy: i128 = s2 - 2 * (xx + zz);
    let cyz: i128 = 2 * (yz + wx);
    let czx: i128 = 2 * (xz + wy);
    let czy: i128 = 2 * (yz - wx);
    let czz: i128 = s2 - 2 * (xx + yy);
    Vec3 {
        x: rot_component(cxx, cxy, cxz, v.x, v.y, v.z),
        y: rot_component(cyx, cyy, cyz, v.x, v.y, v.z),
        z: rot_component(czx, czy, czz, v.x, v.y, v.z),
    }
}

/// The identity rotation: one unit around no axis.
pub open spec fn identity_quat() -> Quat {
    Quat { w: MICRO, x: 0, y: 0, z: 0 }
}

/// The identity quaternion is already normalized: normalizing it changes
/// nothing.
pub proof fn lemma_identity_normalize()
    ensures
        quat_mag(identity_quat()) == MICRO,
        quat_normalize_spec(identity_quat()) == identity_quat(),
{
    let q = identity_quat();
    assert(quat_mag_sq(q) == MICRO * MICRO) by (nonlinear_arith)
        requires
            q.w == MICRO && q.x == 0 && q.y == 0 && q.z == 0,
    ;
    assert((MICRO as nat) * (MICRO as nat) <= quat_mag_sq(q) as nat && (quat_mag_sq(q) as nat)
        < ((MICRO as nat) + 1) * ((MICRO as nat) + 1)) by (nonlinear_arith)
        requires
            quat_mag_sq(q) == MICRO * MICRO,
            MICRO == 1_000_000,
    ;
    assert(exists|r: nat|
        (#[trigger] (r * r) <= quat_mag_sq(q) as nat && (quat_mag_sq(q) as nat) < (r + 1) * (r
            + 1))) by {
        assert((MICRO as nat) * (MICRO as nat) <= quat_mag_sq(q) as nat && (quat_mag_sq(q)
            as nat) < ((MICRO as nat) + 1) * ((MICRO as nat) + 1));
    }
    crate::fixed::lemma_isqrt_unique(
        quat_mag_sq(q) as nat,
        MICRO as nat,
        crate::fixed::isqrt_spec(quat_mag_sq(q) as nat),
    );
    assert(quat_mag(q) == MICRO);
    assert(q.w * MICRO / (MICRO as int) == MICRO) by (nonlinear_arith)
        requires
            q.w == MICRO,
            MICRO == 1_000_000,
    ;
}

/// Rotating any bounded vector by the identity quaternion returns it
/// unchanged: in particular, the world gravity vector is unchanged in the
/// body frame of an identity orientation.
pub proof fn lemma_identity_rotation(v: Vec3)
    requires
        vec_within(v, ROTATE_INPUT_LIMIT as int),
    ensures
        rotate_inverse_spec(identity_quat(), v) == v,
{
    let q = identity_quat();
    assert(rot_inv_num_x(q, v) == (MICRO * MICRO) * v.x) by (nonlinear_arith)
        requires
            q.w == MICRO && q.x == 0 && q.y == 0 && q.z == 0,
    ;
    assert(rot_inv_num_y(q, v) == (MICRO * MICRO) * v.y) by (nonlinear_arith)
        requires
            q.w == MICRO && q.x == 0 && q.y == 0 && q.z == 0,
    ;
    assert(rot_inv_num_z(q, v) == (MICRO * MICRO) * v.z) by (nonlinear_arith)
        requires
            q.w == MICRO && q.x == 0 && q.y == 0 && q.z == 0,
    ;
    lemma_multiple_div_identity(v.x as int);
    lemma_multiple_div_identity(v.y as int);
    lemma_multiple_div_identity(v.z as int);
}

/// Dividing `MICRO^2 * c` by `MICRO^2` gives back `c`, truncating or not.
proof fn lemma_multiple_div_identity(c: int)
    ensures
        div_trunc((MICRO * MICRO) * c, MICRO * MICRO) == c,
{
    if c >= 0 {
        assert(((MICRO * MICRO) * c) / (MICRO * MICRO) == c) by (nonlinear_arith);
    } else {
        assert(-((MICRO * MICRO) * c) == (MICRO * MICRO) * (-c)) by (nonlinear_arith);
        assert(((MICRO * MICRO) * (-c)) / (MICRO * MICRO) == -c) by (nonlinear_arith);
    }
}

/// One consistent IMU sample: acceleration (micro-m/s^2), angular rate
/// (microradians per second), and the orientation quaternion, all from the
/// same physical reading.
#[derive(Clone, Copy, Debug, PartialEq, Eq, Structural)]
pub struct ImuSample {
    pub accel: Vec3,
    pub gyro: Vec3,
    pub orientation: Quat,
}

impl ImuSample {
    /// The orientation components stay within the raw quaternion bound.
    pub open spec fn wf(self) -> bool {
        quat_within(self.orientation, QUAT_LIMIT as int)
    }
}

/// Combines the parts of one hardware reading into a sample. Every part
/// must come from the same reading; a missing part fails the whole sample
/// with an error naming the first missing field, in the order accelerometer,
/// gyroscope, orientation — data is never silently substituted.
pub fn imu_sample_from_parts(
    accel: Option<Vec3>,
    gyro: Option<Vec3>,
    orientation: Option<Quat>,
) -> (r: Result<ImuSample, KbotError>)
    requires
        orientation matches Some(q) ==> quat_within(q, QUAT_LIMIT as int),
    ensures
        r is Ok <==> (accel is Some && gyro is Some && orientation is Some),
        r matches Ok(s) ==> {
            &&& Some(s.accel) == accel
            &&& Some(s.gyro) == gyro
            &&& Some(s.orientation) == orientation
            &&& s.wf()
        },
        r matches Err(e) ==> e == if accel is None {
            KbotError::MissingImuField(ImuField::Accelerometer)
        } else if gyro is None {
            KbotError::MissingImuField(ImuField::Gyroscope)
        } else {
            KbotError::MissingImuField(ImuField::Orientation)
        },
{
    let accel = match accel {
        Some(a) => a,
        None => {
            return Err(KbotError::MissingImuField(ImuField::Accelerometer));
        },
    };
    let gyro = match gyro {
        Some(g) => g,
        None => {
            return Err(KbotError::MissingImuField(ImuField::Gyroscope));
        },
    };
    let orientation = match orientation {
        Some(q) => q,
        None => {
            return Err(KbotError::MissingImuField(ImuField::Orientation));
        },
    };
    Ok(ImuSample { accel, gyro, orientation })
}

} // verus!
