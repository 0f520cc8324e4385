//! The static configuration tables: the joint-name/actuator-id mapping, the
//! per-actuator gain rows, and the home pose.
//!
//! All tables are fixed at build time and read-only at runtime. Angles are
//! microradians, gains and torques micro-units (one unit is `1_000_000`).

use vstd::prelude::*;

use crate::error::KbotError;

verus! {

/// The actuator id mapped to a joint name, or `None` for a name outside the
/// static table.
pub open spec fn joint_id_spec(name: Seq<char>) -> Option<u32> {
    if name == "dof_left_shoulder_pitch_03"@ {
        Some(11u32)
    } else if name == "dof_left_shoulder_roll_03"@ {
        Some(12u32)
    } else if name == "dof_left_shoulder_yaw_02"@ {
        Some(13u32)
    } else if name == "dof_left_elbow_02"@ {
        Some(14u32)
    } else if name == "dof_left_wrist_00"@ {
        Some(15u32)
    } else if name == "dof_right_shoulder_pitch_03"@ {
        Some(21u32)
    } else if name == "dof_right_shoulder_roll_03"@ {
        Some(22u32)
    } else if name == "dof_right_shoulder_yaw_02"@ {
        Some(23u32)
    } else if name == "dof_right_elbow_02"@ {
        Some(24u32)
    } else if name == "dof_right_wrist_00"@ {
        Some(25u32)
    } else if name == "dof_left_hip_pitch_04"@ {
        Some(31u32)
    } else if name == "dof_left_hip_roll_03"@ {
        Some(32u32)
    } else if name == "dof_left_hip_yaw_03"@ {
        Some(33u32)
    } else if name == "dof_left_knee_04"@ {
        Some(34u32)
    } else if name == "dof_left_ankle_02"@ {
        Some(35u32)
    } else if name == "dof_right_hip_pitch_04"@ {
        Some(41u32)
    } else if name == "dof_right_hip_roll_03"@ {
        Some(42u32)
    } else if name == "dof_right_hip_yaw_03"@ {
        Some(43u32)
    } else if name == "dof_right_knee_04"@ {
        Some(44u32)
    } else if name == "dof_right_ankle_02"@ {
        Some(45u32)
    } else {
        None
    }
}

/// The joint name mapped to an actuator id, or `None` for an id outside the
/// static table.
pub open spec fn joint_name_spec(id: u32) -> Option<Seq<char>> {
    if id == 11u32 {
        Some("dof_left_shoulder_pitch_03"@)
    } else if id == 12u32 {
        Some("dof_left_shoulder_roll_03"@)
    } else if id == 13u32 {
        Some("dof_left_shoulder_yaw_02"@)
    } else if id == 14u32 {
        Some("dof_left_elbow_02"@)
    } else if id == 15u32 {
        Some("dof_left_wrist_00"@)
    } else if id == 21u32 {
        Some("dof_right_shoulder_pitch_03"@)
    } else if id == 22u32 {
        Some("dof_right_shoulder_roll_03"@)
    } else if id == 23u32 {
        Some("dof_right_shoulder_yaw_02"@)
    } else if id == 24u32 {
        Some("dof_right_elbow_02"@)
    } else if id == 25u32 {
        Some("dof_right_wrist_00"@)
    } else if id == 31u32 {
        Some("dof_left_hip_pitch_04"@)
    } else if id == 32u32 {
        Some("dof_left_hip_roll_03"@)
    } else if id == 33u32 {
        Some("dof_left_hip_yaw_03"@)
    } else if id == 34u32 {
        Some("dof_left_knee_04"@)
    } else if id == 35u32 {
        Some("dof_left_ankle_02"@)
    } else if id == 41u32 {
        Some("dof_right_hip_pitch_04"@)
    } else if id == 42u32 {
        Some("dof_right_hip_roll_03"@)
    } else if id == 43u32 {
        Some("dof_right_hip_yaw_03"@)
    } else if id == 44u32 {
        Some("dof_right_knee_04"@)
    } else if id == 45u32 {
        Some("dof_right_ankle_02"@)
    } else {
        None
    }
}

/// Looks a joint name up in the static table.
pub fn joint_id_for_name(name: &str) -> (r: Option<u32>)
    ensures
        r == joint_id_spec(name@),
{
    let n: String = name.to_owned();
    if n == "dof_left_shoulder_pitch_03".to_owned() {
        Some(11)
    } else if n == "dof_left_shoulder_roll_03".to_owned() {
        Some(12)
    } else if n == "dof_left_shoulder_yaw_02".to_owned() {
        Some(13)
    } else if n == "dof_left_elbow_02".to_owned() {
        Some(14)
    } else if n == "dof_left_wrist_00".to_owned() {
        Some(15)
    } else if n == "dof_right_shoulder_pitch_03".to_owned() {
        Some(21)
    } else if n == "dof_right_shoulder_roll_03".to_owned() {
        Some(22)
    } else if n == "dof_right_shoulder_yaw_02".to_owned() {
        Some(23)
    } else if n == "dof_right_elbow_02".to_owned() {
        Some(24)
    } else if n == "dof_right_wrist_00".to_owned() {
        Some(25)
    } else if n == "dof_left_hip_pitch_04".to_owned() {
        Some(31)
    } else if n == "dof_left_hip_roll_03".to_owned() {
        Some(32)
    } else if n == "dof_left_hip_yaw_03".to_owned() {
        Some(33)
    } else if n == "dof_left_knee_04".to_owned() {
        Some(34)
    } else if n == "dof_left_ankle_02".to_owned() {
        Some(35)
    } else if n == "dof_right_hip_pitch_04".to_owned() {
        Some(41)
    } else if n == "dof_right_hip_roll_03".to_owned() {
        Some(42)
    } else if n == "dof_right_hip_yaw_03".to_owned() {
        Some(43)
    } else if n == "dof_right_knee_04".to_owned() {
        Some(44)
    } else if n == "dof_right_ankle_02".to_owned() {
        Some(45)
    } else {
        None
    }
}

/// Looks an actuator id up in the static table and returns its joint name.
pub fn joint_name_for_id(id: u32) -> (r: Option<String>)
    ensures
        r is Some <==> joint_name_spec(id) is Some,
        r matches Some(s) ==> joint_name_spec(id) == Some(s@),
{
    if id == 11 {
        Some("dof_left_shoulder_pitch_03".to_owned())
    } else if id == 12 {
        Some("dof_left_shoulder_roll_03".to_owned())
    } else if id == 13 {
        Some("dof_left_shoulder_yaw_02".to_owned())
    } else if id == 14 {
        Some("dof_left_elbow_02".to_owned())
    } else if id == 15 {
        Some("dof_left_wrist_00".to_owned())
    } else if id == 21 {
        Some("dof_right_shoulder_pitch_03".to_owned())
    } else if id == 22 {
        Some("dof_right_shoulder_roll_03".to_owned())
    } else if id == 23 {
        Some("dof_right_shoulder_yaw_02".to_owned())
    } else if id == 24 {
        Some("dof_right_elbow_02".to_owned())
    } else if id == 25 {
        Some("dof_right_wrist_00".to_owned())
    } else if id == 31 {
        Some("dof_left_hip_pitch_04".to_owned())
    } else if id == 32 {
        Some("dof_left_hip_roll_03".to_owned())
    } else if id == 33 {
        Some("dof_left_hip_yaw_03".to_owned())
    } else if id == 34 {
        Some("dof_left_knee_04".to_owned())
    } else if id == 35 {
        Some("dof_left_ankle_02".to_owned())
    } else if id == 41 {
        Some("dof_right_hip_pitch_04".to_owned())
    } else if id == 42 {
        Some("dof_right_hip_roll_03".to_owned())
    } else if id == 43 {
        Some("dof_right_hip_yaw_03".to_owned())
    } else if id == 44 {
        Some("dof_right_knee_04".to_owned())
    } else if id == 45 {
        Some("dof_right_ankle_02".to_owned())
    } else {
        None
    }
}

/// Every name the static table maps comes back unchanged after a round trip
/// through its actuator id; a name outside the table maps to no id at all,
/// never to a default one.
pub proof fn lemma_joint_name_round_trip(name: Seq<char>)
    ensures
        joint_id_spec(name) matches Some(id) ==> joint_name_spec(id) == Some(name),
{
}

/// The actuator ids of the static table, in table order.
pub open spec fn actuator_ids_spec() -> Seq<u32> {
    seq![
        11u32, 12u32, 13u32, 14u32, 15u32,
        21u32, 22u32, 23u32, 24u32, 25u32,
        31u32, 32u32, 33u32, 34u32, 35u32,
        41u32, 42u32, 43u32, 44u32, 45u32,
    ]
}

/// The actuator ids of the static table, in table order.
pub fn all_actuator_ids() -> (r: Vec<u32>)
    ensures
        r@ == actuator_ids_spec(),
{
    let r: Vec<u32> = vec![
        11u32, 12u32, 13u32, 14u32, 15u32,
        21u32, 22u32, 23u32, 24u32, 25u32,
        31u32, 32u32, 33u32, 34u32, 35u32,
        41u32, 42u32, 43u32, 44u32, 45u32,
    ];
    proof {
        assert(r@ =~= actuator_ids_spec());
    }
    r
}

/// The gain row of an actuator: proportional gain, derivative gain, and the
/// soft torque limit of its actuator type, all in micro-units.
pub open spec fn gains_spec(id: u32) -> Option<(i64, i64, i64)> {
    if id == 11u32 || id == 21u32 {
        Some((100_000_000i64, 8_284_000i64, 42_000_000i64))
    } else if id == 12u32 || id == 22u32 {
        Some((100_000_000i64, 8_257_000i64, 42_000_000i64))
    } else if id == 13u32 || id == 23u32 {
        Some((40_000_000i64, 945_000i64, 11_900_000i64))
    } else if id == 14u32 || id == 24u32 {
        Some((40_000_000i64, 1_266_000i64, 11_900_000i64))
    } else if id == 15u32 || id == 25u32 {
        Some((20_000_000i64, 295_000i64, 9_800_000i64))
    } else if id == 31u32 || id == 41u32 {
        Some((150_000_000i64, 24_722_000i64, 84_000_000i64))
    } else if id == 32u32 || id == 42u32 {
        Some((200_000_000i64, 26_387_000i64, 42_000_000i64))
    } else if id == 33u32 || id == 43u32 {
        Some((100_000_000i64, 3_419_000i64, 42_000_000i64))
    } else if id == 34u32 || id == 44u32 {
        Some((150_000_000i64, 8_654_000i64, 84_000_000i64))
    } else if id == 35u32 || id == 45u32 {
        Some((40_000_000i64, 990_000i64, 11_900_000i64))
    } else {
        None
    }
}

/// Looks the gain row of an actuator up, or `None` for an id with no row.
pub fn gains_for_id(id: u32) -> (r: Option<(i64, i64, i64)>)
    ensures
        r == gains_spec(id),
{
    if id == 11 || id == 21 {
        Some((100_000_000, 8_284_000, 42_000_000))
    } else if id == 12 || id == 22 {
        Some((100_000_000, 8_257_000, 42_000_000))
    } else if id == 13 || id == 23 {
        Some((40_000_000, 945_000, 11_900_000))
    } else if id == 14 || id == 24 {
        Some((40_000_000, 1_266_000, 11_900_000))
    } else if id == 15 || id == 25 {
        Some((20_000_000, 295_000, 9_800_000))
    } else if id == 31 || id == 41 {
        Some((150_000_000, 24_722_000, 84_000_000))
    } else if id == 32 || id == 42 {
        Some((200_000_000, 26_387_000, 42_000_000))
    } else if id == 33 || id == 43 {
        Some((100_000_000, 3_419_000, 42_000_000))
    } else if id == 34 || id == 44 {
        Some((150_000_000, 8_654_000, 84_000_000))
    } else if id == 35 || id == 45 {
        Some((40_000_000, 990_000, 11_900_000))
    } else {
        None
    }
}

/// The home pose: each actuator id of the static table paired with its
/// target angle in microradians, in the order homing visits them.
pub open spec fn home_position_spec() -> Seq<(u32, i64)> {
    seq![
        (21u32, 0i64),
        (22u32, -174_533i64),  // -10 degrees
        (23u32, 0i64),
        (24u32, 1_570_796i64),  // 90 degrees
        (25u32, 0i64),
        (11u32, 0i64),
        (12u32, 174_533i64),  // 10 degrees
        (13u32, 0i64),
        (14u32, -1_570_796i64),  // -90 degrees
        (15u32, 0i64),
        (41u32, -349_066i64),  // -20 degrees
        (42u32, 0i64),
        (43u32, 0i64),
        (44u32, -872_665i64),  // -50 degrees
        (45u32, 523_599i64),  // 30 degrees
        (31u32, 349_066i64),  // 20 degrees
        (32u32, 0i64),
        (33u32, 0i64),
        (34u32, 872_665i64),  // 50 degrees
        (35u32, -523_599i64),  // -30 degrees
    ]
}

/// The home pose as a vector of (actuator id, target angle) rows.
pub fn home_position() -> (r: Vec<(u32, i64)>)
    ensures
        r@ == home_position_spec(),
{
    let r: Vec<(u32, i64)> = vec![
        (21u32, 0i64),
        (22u32, -174_533i64),
        (23u32, 0i64),
        (24u32, 1_570_796i64),
        (25u32, 0i64),
        (11u32, 0i64),
        (12u32, 174_533i64),
        (13u32, 0i64),
        (14u32, -1_570_796i64),
        (15u32, 0i64),
        (41u32, -349_066i64),
        (42u32, 0i64),
        (43u32, 0i64),
        (44u32, -872_665i64),
        (45u32, 523_599i64),
        (31u32, 349_066i64),
        (32u32, 0i64),
        (33u32, 0i64),
        (34u32, 872_665i64),
        (35u32, -523_599i64),
    ];
    proof {
        assert(r@ =~= home_position_spec());
    }
    r
}

/// Resolves each joint name to its actuator id, in order. Fails fast with a
/// configuration error carrying the offending name as soon as any name is
/// outside the static table: an unmapped name is a hard error, never a
/// default id and never a silently skipped joint.
pub fn get_actuator_ids(joint_names: &Vec<String>) -> (r: Result<Vec<u32>, KbotError>)
    ensures
        r is Ok <==> (forall|i: int|
            0 <= i < joint_names.len() ==> (#[trigger] joint_id_spec(joint_names[i]@)) is Some),
        r matches Ok(ids) ==> {
            &&& ids.len() == joint_names.len()
            &&& forall|i: int|
                0 <= i < joint_names.len() ==> Some(#[trigger] ids[i]) == joint_id_spec(
                    joint_names[i]@,
                )
        },
        r matches Err(e) ==> {
            &&& e matches KbotError::UnknownJointName(n)
            &&& exists|i: int|
                0 <= i < joint_names.len() && joint_id_spec(#[trigger] joint_names[i]@) is None
                    && n@ == joint_names[i]@
        },
{
    let mut ids: Vec<u32> = Vec::new();
    let mut i: usize = 0;
    while i < joint_names.len()
        invariant
            0 <= i <= joint_names.len(),
            ids.len() == i,
            forall|k: int|
                0 <= k < i ==> Some(#[trigger] ids[k]) == joint_id_spec(joint_names[k]@),
            forall|k: int|
                0 <= k < i ==> (#[trigger] joint_id_spec(joint_names[k]@)) is Some,
        decreases joint_names.len() - i,
    {
        match joint_id_for_name(joint_names[i].as_str()) {
            Some(id) => {
                ids.push(id);
            },
            None => {
                return Err(KbotError::UnknownJointName(joint_names[i].clone()));
            },
        }
        i = i + 1;
    }
    Ok(ids)
}

} // verus!
