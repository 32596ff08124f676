//! The byte layout of every packed message: where each field sits, stated with the
//! offsets that the sizes of the fields declared before it give, and read back with the
//! generic little-endian readers. Each law is independent of how the encoders and
//! decoders are written.

use vstd::prelude::*;

use super::le_bytes::{
    lemma_u16_roundtrip, lemma_u32_roundtrip, lemma_u64_roundtrip, lemma_u64s_le_at,
    lemma_u64s_le_len, seq_u16_at, seq_u32_at, seq_u64_at, u16_le, u32_le, u64_le, u64s_le,
};

verus! {

/// Reading inside a part of a sequence: where `b` holds `part` from byte `off`, a value
/// read at `off + k` is the value read in `part` at `k`.
pub proof fn lemma_read_in_part(b: Seq<u8>, part: Seq<u8>, off: int, k: int)
    requires
        0 <= off,
        off + part.len() <= b.len(),
        b.subrange(off, off + part.len()) == part,
        0 <= k < part.len(),
    ensures
        b[off + k] == part[k],
        k + 2 <= part.len() ==> seq_u16_at(b, off + k) == seq_u16_at(part, k),
        k + 4 <= part.len() ==> seq_u32_at(b, off + k) == seq_u32_at(part, k),
        k + 8 <= part.len() ==> seq_u64_at(b, off + k) == seq_u64_at(part, k),
{
    assert(b[off + k] == b.subrange(off, off + part.len())[k]);
    if k + 2 <= part.len() {
        assert(b[off + k + 1] == b.subrange(off, off + part.len())[k + 1]);
    }
    if k + 4 <= part.len() {
        assert(b[off + k + 2] == b.subrange(off, off + part.len())[k + 2]);
        assert(b[off + k + 3] == b.subrange(off, off + part.len())[k + 3]);
    }
    if k + 8 <= part.len() {
        assert(b.subrange(off + k, off + k + 8) =~= part.subrange(k, k + 8));
    }
}

/// A single 64-bit value is read back from its encoding.
pub proof fn lemma_u64_le_at(v: u64)
    ensures
        seq_u64_at(u64_le(v), 0) == v,
{
    lemma_u64_roundtrip(v);
    assert(u64_le(v).subrange(0, 8) =~= u64_le(v));
}

/// The robot command header on the wire: `command`, `command_id`, `size`, each little-endian and packed in
/// declaration order, so each field sits at the sum of the sizes of those before it.
pub proof fn lemma_robot_command_header_layout(x: crate::wire::robot::CommandHeader)
    ensures
        x.spec_bytes().len() == 4 + 4 + 4,
        seq_u32_at(x.spec_bytes(), 0) == x.command,
        seq_u32_at(x.spec_bytes(), (4) as int) == x.command_id,
        seq_u32_at(x.spec_bytes(), (4 + 4) as int) == x.size,
{
    let b = x.spec_bytes();
    assert(b.subrange(0, 4) =~= u32_le(x.command));
    lemma_read_in_part(b, u32_le(x.command), 0, 0);
    lemma_u32_roundtrip(x.command);
    assert(b.subrange(4, 8) =~= u32_le(x.command_id));
    lemma_read_in_part(b, u32_le(x.command_id), 4, 0);
    lemma_u32_roundtrip(x.command_id);
    assert(b.subrange(8, 12) =~= u32_le(x.size));
    lemma_read_in_part(b, u32_le(x.size), 8, 0);
    lemma_u32_roundtrip(x.size);
}

/// A decoded robot command header reads `command`, `command_id`, `size`, each little-endian and packed
/// in declaration order, each at the sum of the sizes of the fields before it.
pub proof fn lemma_robot_command_header_decoded_layout(r: crate::wire::robot::CommandHeader, b: Seq<u8>)
    requires
        r == crate::wire::robot::CommandHeader::spec_decode(b),
        b.len() >= crate::wire::robot::CommandHeader::SIZE,
    ensures
        crate::wire::robot::CommandHeader::SIZE == 4 + 4 + 4,
        r.command == seq_u32_at(b, 0),
        r.command_id == seq_u32_at(b, (4) as int),
        r.size == seq_u32_at(b, (4 + 4) as int),
{

}

/// The robot connect request on the wire: `version`, `udp_port`, each little-endian and packed in
/// declaration order, so each field sits at the sum of the sizes of those before it.
pub proof fn lemma_robot_connect_request_layout(x: crate::wire::robot::ConnectRequest)
    ensures
        x.spec_bytes().len() == 2 + 2,
        seq_u16_at(x.spec_bytes(), 0) == x.version,
        seq_u16_at(x.spec_bytes(), (2) as int) == x.udp_port,
{
    let b = x.spec_bytes();
    assert(b.subrange(0, 2) =~= u16_le(x.version));
    lemma_read_in_part(b, u16_le(x.version), 0, 0);
    lemma_u16_roundtrip(x.version);
    assert(b.subrange(2, 4) =~= u16_le(x.udp_port));
    lemma_read_in_part(b, u16_le(x.udp_port), 2, 0);
    lemma_u16_roundtrip(x.udp_port);
}

/// A decoded robot connect response reads `status`, `version`, each little-endian and packed
/// in declaration order, each at the sum of the sizes of the fields before it.
pub proof fn lemma_robot_connect_response_decoded_layout(r: crate::wire::robot::ConnectResponse, b: Seq<u8>)
    requires
        crate::wire::robot::ConnectResponse::decodes(r, b),
        b.len() >= crate::wire::robot::ConnectResponse::SIZE,
    ensures
        crate::wire::robot::ConnectResponse::SIZE == 1 + 2,
        r.status == b[(0) as int],
        r.version == seq_u16_at(b, (1) as int),
{

}

/// The Move request on the wire: `controller_mode`, `motion_generator_mode`, `maximum_path_deviation_translation`, `maximum_path_deviation_rotation`, `maximum_path_deviation_elbow`, `maximum_goal_pose_deviation_translation`, `maximum_goal_pose_deviation_rotation`, `maximum_goal_pose_deviation_elbow`, `use_async_motion_generator`, `maximum_velocity`, each little-endian and packed in
/// declaration order, so each field sits at the sum of the sizes of those before it.
pub proof fn lemma_robot_move_request_layout(x: crate::wire::robot::MoveRequest)
    ensures
        x.spec_bytes().len() == 4 + 4 + 8 + 8 + 8 + 8 + 8 + 8 + 1 + 8 * 7,
        seq_u32_at(x.spec_bytes(), 0) == x.controller_mode,
        seq_u32_at(x.spec_bytes(), (4) as int) == x.motion_generator_mode,
        seq_u64_at(x.spec_bytes(), (4 + 4) as int) == x.maximum_path_deviation_translation,
        seq_u64_at(x.spec_bytes(), (4 + 4 + 8) as int) == x.maximum_path_deviation_rotation,
        seq_u64_at(x.spec_bytes(), (4 + 4 + 8 + 8) as int) == x.maximum_path_deviation_elbow,
        seq_u64_at(x.spec_bytes(), (4 + 4 + 8 + 8 + 8) as int) == x.maximum_goal_pose_deviation_translation,
        seq_u64_at(x.spec_bytes(), (4 + 4 + 8 + 8 + 8 + 8) as int) == x.maximum_goal_pose_deviation_rotation,
        seq_u64_at(x.spec_bytes(), (4 + 4 + 8 + 8 + 8 + 8 + 8) as int) == x.maximum_goal_pose_deviation_elbow,
        x.spec_bytes()[((4 + 4 + 8 + 8 + 8 + 8 + 8 + 8) as int) as int] == x.use_async_motion_generator,
        forall|i: int| 0 <= i < 7 ==> seq_u64_at(x.spec_bytes(), (4 + 4 + 8 + 8 + 8 + 8 + 8 + 8 + 1) as int + 8 * i) == x.maximum_velocity[i],
{
    let b = x.spec_bytes();
    lemma_u64s_le_len(x.maximum_velocity@);
    assert(b.subrange(0, 4) =~= u32_le(x.controller_mode));
    lemma_read_in_part(b, u32_le(x.controller_mode), 0, 0);
    lemma_u32_roundtrip(x.controller_mode);
    assert(b.subrange(4, 8) =~= u32_le(x.motion_generator_mode));
    lemma_read_in_part(b, u32_le(x.motion_generator_mode), 4, 0);
    lemma_u32_roundtrip(x.motion_generator_mode);
    assert(b.subrange(8, 16) =~= u64_le(x.maximum_path_deviation_translation));
    lemma_read_in_part(b, u64_le(x.maximum_path_deviation_translation), 8, 0);
    lemma_u64_le_at(x.maximum_path_deviation_translation);
    assert(b.subrange(16, 24) =~= u64_le(x.maximum_path_deviation_rotation));
    lemma_read_in_part(b, u64_le(x.maximum_path_deviation_rotation), 16, 0);
    lemma_u64_le_at(x.maximum_path_deviation_rotation);
    assert(b.subrange(24, 32) =~= u64_le(x.maximum_path_deviation_elbow));
    lemma_read_in_part(b, u64_le(x.maximum_path_deviation_elbow), 24, 0);
    lemma_u64_le_at(x.maximum_path_deviation_elbow);
    assert(b.subrange(32, 40) =~= u64_le(x.maximum_goal_pose_deviation_translation));
    lemma_read_in_part(b, u64_le(x.maximum_goal_pose_deviation_translation), 32, 0);
    lemma_u64_le_at(x.maximum_goal_pose_deviation_translation);
    assert(b.subrange(40, 48) =~= u64_le(x.maximum_goal_pose_deviation_rotation));
    lemma_read_in_part(b, u64_le(x.maximum_goal_pose_deviation_rotation), 40, 0);
    lemma_u64_le_at(x.maximum_goal_pose_deviation_rotation);
    assert(b.subrange(48, 56) =~= u64_le(x.maximum_goal_pose_deviation_elbow));
    lemma_read_in_part(b, u64_le(x.maximum_goal_pose_deviation_elbow), 48, 0);
    lemma_u64_le_at(x.maximum_goal_pose_deviation_elbow);
    assert(b.subrange(56, 57) =~= seq![x.use_async_motion_generator]);
    lemma_read_in_part(b, seq![x.use_async_motion_generator], 56, 0);
    assert(b.subrange(57, 113) =~= u64s_le(x.maximum_velocity@));
    assert forall|i: int| 0 <= i < 7 implies seq_u64_at(b, (4 + 4 + 8 + 8 + 8 + 8 + 8 + 8 + 1) as int + 8 * i) == x.maximum_velocity[i] by {
        lemma_read_in_part(b, u64s_le(x.maximum_velocity@), 57, 8 * i);
        lemma_u64s_le_at(x.maximum_velocity@, i);
    }
}

/// The SetCollisionBehavior request on the wire: `lower_torque_thresholds_acceleration`, `upper_torque_thresholds_acceleration`, `lower_torque_thresholds_nominal`, `upper_torque_thresholds_nominal`, `lower_force_thresholds_acceleration`, `upper_force_thresholds_acceleration`, `lower_force_thresholds_nominal`, `upper_force_thresholds_nominal`, each little-endian and packed in
/// declaration order, so each field sits at the sum of the sizes of those before it.
pub proof fn lemma_robot_set_collision_behavior_request_layout(x: crate::wire::robot::SetCollisionBehaviorRequest)
    ensures
        x.spec_bytes().len() == 8 * 7 + 8 * 7 + 8 * 7 + 8 * 7 + 8 * 6 + 8 * 6 + 8 * 6 + 8 * 6,
        forall|i: int| 0 <= i < 7 ==> seq_u64_at(x.spec_bytes(), 0 + 8 * i) == x.lower_torque_thresholds_acceleration[i],
        forall|i: int| 0 <= i < 7 ==> seq_u64_at(x.spec_bytes(), (8 * 7) as int + 8 * i) == x.upper_torque_thresholds_acceleration[i],
        forall|i: int| 0 <= i < 7 ==> seq_u64_at(x.spec_bytes(), (8 * 7 + 8 * 7) as int + 8 * i) == x.lower_torque_thresholds_nominal[i],
        forall|i: int| 0 <= i < 7 ==> seq_u64_at(x.spec_bytes(), (8 * 7 + 8 * 7 + 8 * 7) as int + 8 * i) == x.upper_torque_thresholds_nominal[i],
        forall|i: int| 0 <= i < 6 ==> seq_u64_at(x.spec_bytes(), (8 * 7 + 8 * 7 + 8 * 7 + 8 * 7) as int + 8 * i) == x.lower_force_thresholds_acceleration[i],
        forall|i: int| 0 <= i < 6 ==> seq_u64_at(x.spec_bytes(), (8 * 7 + 8 * 7 + 8 * 7 + 8 * 7 + 8 * 6) as int + 8 * i) == x.upper_force_thresholds_acceleration[i],
        forall|i: int| 0 <= i < 6 ==> seq_u64_at(x.spec_bytes(), (8 * 7 + 8 * 7 + 8 * 7 + 8 * 7 + 8 * 6 + 8 * 6) as int + 8 * i) == x.lower_force_thresholds_nominal[i],
        forall|i: int| 0 <= i < 6 ==> seq_u64_at(x.spec_bytes(), (8 * 7 + 8 * 7 + 8 * 7 + 8 * 7 + 8 * 6 + 8 * 6 + 8 * 6) as int + 8 * i) == x.upper_force_thresholds_nominal[i],
{
    let b = x.spec_bytes();
    lemma_u64s_le_len(x.lower_torque_thresholds_acceleration@);
    lemma_u64s_le_len(x.upper_torque_thresholds_acceleration@);
    lemma_u64s_le_len(x.lower_torque_thresholds_nominal@);
    lemma_u64s_le_len(x.upper_torque_thresholds_nominal@);
    lemma_u64s_le_len(x.lower_force_thresholds_acceleration@);
    lemma_u64s_le_len(x.upper_force_thresholds_acceleration@);
    lemma_u64s_le_len(x.lower_force_thresholds_nominal@);
    lemma_u64s_le_len(x.upper_force_thresholds_nominal@);
    assert(b.subrange(0, 56) =~= u64s_le(x.lower_torque_thresholds_acceleration@));
    assert forall|i: int| 0 <= i < 7 implies seq_u64_at(b, 0 + 8 * i) == x.lower_torque_thresholds_acceleration[i] by {
        lemma_read_in_part(b, u64s_le(x.lower_torque_thresholds_acceleration@), 0, 8 * i);
        lemma_u64s_le_at(x.lower_torque_thresholds_acceleration@, i);
    }
    assert(b.subrange(56, 112) =~= u64s_le(x.upper_torque_thresholds_acceleration@));
    assert forall|i: int| 0 <= i < 7 implies seq_u64_at(b, (8 * 7) as int + 8 * i) == x.upper_torque_thresholds_acceleration[i] by {
        lemma_read_in_part(b, u64s_le(x.upper_torque_thresholds_acceleration@), 56, 8 * i);
        lemma_u64s_le_at(x.upper_torque_thresholds_acceleration@, i);
    }
    assert(b.subrange(112, 168) =~= u64s_le(x.lower_torque_thresholds_nominal@));
    assert forall|i: int| 0 <= i < 7 implies seq_u64_at(b, (8 * 7 + 8 * 7) as int + 8 * i) == x.lower_torque_thresholds_nominal[i] by {
        lemma_read_in_part(b, u64s_le(x.lower_torque_thresholds_nominal@), 112, 8 * i);
        lemma_u64s_le_at(x.lower_torque_thresholds_nominal@, i);
    }
    assert(b.subrange(168, 224) =~= u64s_le(x.upper_torque_thresholds_nominal@));
    assert forall|i: int| 0 <= i < 7 implies seq_u64_at(b, (8 * 7 + 8 * 7 + 8 * 7) as int + 8 * i) == x.upper_torque_thresholds_nominal[i] by {
        lemma_read_in_part(b, u64s_le(x.upper_torque_thresholds_nominal@), 168, 8 * i);
        lemma_u64s_le_at(x.upper_torque_thresholds_nominal@, i);
    }
    assert(b.subrange(224, 272) =~= u64s_le(x.lower_force_thresholds_acceleration@));
    assert forall|i: int| 0 <= i < 6 implies seq_u64_at(b, (8 * 7 + 8 * 7 + 8 * 7 + 8 * 7) as int + 8 * i) == x.lower_force_thresholds_acceleration[i] by {
        lemma_read_in_part(b, u64s_le(x.lower_force_thresholds_acceleration@), 224, 8 * i);
        lemma_u64s_le_at(x.lower_force_thresholds_acceleration@, i);
    }
    assert(b.subrange(272, 320) =~= u64s_le(x.upper_force_thresholds_acceleration@));
    assert forall|i: int| 0 <= i < 6 implies seq_u64_at(b, (8 * 7 + 8 * 7 + 8 * 7 + 8 * 7 + 8 * 6) as int + 8 * i) == x.upper_force_thresholds_acceleration[i] by {
        lemma_read_in_part(b, u64s_le(x.upper_force_thresholds_acceleration@), 272, 8 * i);
        lemma_u64s_le_at(x.upper_force_thresholds_acceleration@, i);
    }
    assert(b.subrange(320, 368) =~= u64s_le(x.lower_force_thresholds_nominal@));
    assert forall|i: int| 0 <= i < 6 implies seq_u64_at(b, (8 * 7 + 8 * 7 + 8 * 7 + 8 * 7 + 8 * 6 + 8 * 6) as int + 8 * i) == x.lower_force_thresholds_nominal[i] by {
        lemma_read_in_part(b, u64s_le(x.lower_force_thresholds_nominal@), 320, 8 * i);
        lemma_u64s_le_at(x.lower_force_thresholds_nominal@, i);
    }
    assert(b.subrange(368, 416) =~= u64s_le(x.upper_force_thresholds_nominal@));
    assert forall|i: int| 0 <= i < 6 implies seq_u64_at(b, (8 * 7 + 8 * 7 + 8 * 7 + 8 * 7 + 8 * 6 + 8 * 6 + 8 * 6) as int + 8 * i) == x.upper_force_thresholds_nominal[i] by {
        lemma_read_in_part(b, u64s_le(x.upper_force_thresholds_nominal@), 368, 8 * i);
        lemma_u64s_le_at(x.upper_force_thresholds_nominal@, i);
    }
}

/// The SetJointImpedance request on the wire: `k_theta`, each little-endian and packed in
/// declaration order, so each field sits at the sum of the sizes of those before it.
pub proof fn lemma_robot_set_joint_impedance_request_layout(x: crate::wire::robot::SetJointImpedanceRequest)
    ensures
        x.spec_bytes().len() == 8 * 7,
        forall|i: int| 0 <= i < 7 ==> seq_u64_at(x.spec_bytes(), 0 + 8 * i) == x.k_theta[i],
{
    let b = x.spec_bytes();
    lemma_u64s_le_len(x.k_theta@);
    assert(b.subrange(0, 56) =~= u64s_le(x.k_theta@));
    assert forall|i: int| 0 <= i < 7 implies seq_u64_at(b, 0 + 8 * i) == x.k_theta[i] by {
        lemma_read_in_part(b, u64s_le(x.k_theta@), 0, 8 * i);
        lemma_u64s_le_at(x.k_theta@, i);
    }
}

/// The SetCartesianImpedance request on the wire: `k_x`, each little-endian and packed in
/// declaration order, so each field sits at the sum of the sizes of those before it.
pub proof fn lemma_robot_set_cartesian_impedance_request_layout(x: crate::wire::robot::SetCartesianImpedanceRequest)
    ensures
        x.spec_bytes().len() == 8 * 6,
        forall|i: int| 0 <= i < 6 ==> seq_u64_at(x.spec_bytes(), 0 + 8 * i) == x.k_x[i],
{
    let b = x.spec_bytes();
    lemma_u64s_le_len(x.k_x@);
    assert(b.subrange(0, 48) =~= u64s_le(x.k_x@));
    assert forall|i: int| 0 <= i < 6 implies seq_u64_at(b, 0 + 8 * i) == x.k_x[i] by {
        lemma_read_in_part(b, u64s_le(x.k_x@), 0, 8 * i);
        lemma_u64s_le_at(x.k_x@, i);
    }
}

/// The SetGuidingMode request on the wire: `guiding_mode`, `nullspace`, each little-endian and packed in
/// declaration order, so each field sits at the sum of the sizes of those before it.
pub proof fn lemma_robot_set_guiding_mode_request_layout(x: crate::wire::robot::SetGuidingModeRequest)
    ensures
        x.spec_bytes().len() == 6 + 1,
        forall|i: int| 0 <= i < 6 ==> x.spec_bytes()[0 + i] == x.guiding_mode[i],
        x.spec_bytes()[((6) as int) as int] == x.nullspace,
{
    let b = x.spec_bytes();
    assert(b.subrange(0, 6) =~= x.guiding_mode@);
    assert forall|i: int| 0 <= i < 6 implies b[0 + i] == x.guiding_mode[i] by {
        lemma_read_in_part(b, x.guiding_mode@, 0, i);
    }
    assert(b.subrange(6, 7) =~= seq![x.nullspace]);
    lemma_read_in_part(b, seq![x.nullspace], 6, 0);
}

/// The SetEeToK request on the wire: `ee_t_k`, each little-endian and packed in
/// declaration order, so each field sits at the sum of the sizes of those before it.
pub proof fn lemma_robot_set_ee_to_k_request_layout(x: crate::wire::robot::SetEeToKRequest)
    ensures
        x.spec_bytes().len() == 8 * 16,
        forall|i: int| 0 <= i < 16 ==> seq_u64_at(x.spec_bytes(), 0 + 8 * i) == x.ee_t_k[i],
{
    let b = x.spec_bytes();
    lemma_u64s_le_len(x.ee_t_k@);
    assert(b.subrange(0, 128) =~= u64s_le(x.ee_t_k@));
    assert forall|i: int| 0 <= i < 16 implies seq_u64_at(b, 0 + 8 * i) == x.ee_t_k[i] by {
        lemma_read_in_part(b, u64s_le(x.ee_t_k@), 0, 8 * i);
        lemma_u64s_le_at(x.ee_t_k@, i);
    }
}

/// The SetNeToEe request on the wire: `ne_t_ee`, each little-endian and packed in
/// declaration order, so each field sits at the sum of the sizes of those before it.
pub proof fn lemma_robot_set_ne_to_ee_request_layout(x: crate::wire::robot::SetNeToEeRequest)
    ensures
        x.spec_bytes().len() == 8 * 16,
        forall|i: int| 0 <= i < 16 ==> seq_u64_at(x.spec_bytes(), 0 + 8 * i) == x.ne_t_ee[i],
{
    let b = x.spec_bytes();
    lemma_u64s_le_len(x.ne_t_ee@);
    assert(b.subrange(0, 128) =~= u64s_le(x.ne_t_ee@));
    assert forall|i: int| 0 <= i < 16 implies seq_u64_at(b, 0 + 8 * i) == x.ne_t_ee[i] by {
        lemma_read_in_part(b, u64s_le(x.ne_t_ee@), 0, 8 * i);
        lemma_u64s_le_at(x.ne_t_ee@, i);
    }
}

/// The SetLoad request on the wire: `m_load`, `f_x_cload`, `i_load`, each little-endian and packed in
/// declaration order, so each field sits at the sum of the sizes of those before it.
pub proof fn lemma_robot_set_load_request_layout(x: crate::wire::robot::SetLoadRequest)
    ensures
        x.spec_bytes().len() == 8 + 8 * 3 + 8 * 9,
        seq_u64_at(x.spec_bytes(), 0) == x.m_load,
        forall|i: int| 0 <= i < 3 ==> seq_u64_at(x.spec_bytes(), (8) as int + 8 * i) == x.f_x_cload[i],
        forall|i: int| 0 <= i < 9 ==> seq_u64_at(x.spec_bytes(), (8 + 8 * 3) as int + 8 * i) == x.i_load[i],
{
    let b = x.spec_bytes();
    lemma_u64s_le_len(x.f_x_cload@);
    lemma_u64s_le_len(x.i_load@);
    assert(b.subrange(0, 8) =~= u64_le(x.m_load));
    lemma_read_in_part(b, u64_le(x.m_load), 0, 0);
    lemma_u64_le_at(x.m_load);
    assert(b.subrange(8, 32) =~= u64s_le(x.f_x_cload@));
    assert forall|i: int| 0 <= i < 3 implies seq_u64_at(b, (8) as int + 8 * i) == x.f_x_cload[i] by {
        lemma_read_in_part(b, u64s_le(x.f_x_cload@), 8, 8 * i);
        lemma_u64s_le_at(x.f_x_cload@, i);
    }
    assert(b.subrange(32, 104) =~= u64s_le(x.i_load@));
    assert forall|i: int| 0 <= i < 9 implies seq_u64_at(b, (8 + 8 * 3) as int + 8 * i) == x.i_load[i] by {
        lemma_read_in_part(b, u64s_le(x.i_load@), 32, 8 * i);
        lemma_u64s_le_at(x.i_load@, i);
    }
}

/// A decoded robot command response reads `status`, each little-endian and packed
/// in declaration order, each at the sum of the sizes of the fields before it.
pub proof fn lemma_robot_command_response_decoded_layout(r: crate::wire::robot::CommandResponse, b: Seq<u8>)
    requires
        crate::wire::robot::CommandResponse::decodes(r, b),
        b.len() >= crate::wire::robot::CommandResponse::SIZE,
    ensures
        crate::wire::robot::CommandResponse::SIZE == 1,
        r.status == b[(0) as int],
{

}

/// A decoded robot state reads `message_id`, `o_t_ee`, `o_t_ee_d`, `f_t_ee`, `ee_t_k`, `f_t_ne`, `ne_t_ee`, `m_ee`, `i_ee`, `f_x_cee`, `m_load`, `i_load`, `f_x_cload`, `elbow`, `elbow_d`, `tau_j`, `tau_j_d`, `dtau_j`, `q`, `q_d`, `dq`, `dq_d`, `ddq_d`, `joint_contact`, `cartesian_contact`, `joint_collision`, `cartesian_collision`, `tau_ext_hat_filtered`, `o_f_ext_hat_k`, `k_f_ext_hat_k`, `o_dp_ee_d`, `o_ddp_o`, `elbow_c`, `delbow_c`, `ddelbow_c`, `o_t_ee_c`, `o_dp_ee_c`, `o_ddp_ee_c`, `theta`, `dtheta`, `accelerometer_top`, `accelerometer_bottom`, `motion_generator_mode`, `controller_mode`, `errors`, `reflex_reason`, `robot_mode`, `control_command_success_rate`, each little-endian and packed
/// in declaration order, each at the sum of the sizes of the fields before it.
pub proof fn lemma_robot_raw_robot_state_decoded_layout(r: crate::wire::robot::RawRobotState, b: Seq<u8>)
    requires
        crate::wire::robot::RawRobotState::decodes(r, b),
        b.len() >= crate::wire::robot::RawRobotState::SIZE,
    ensures
        crate::wire::robot::RawRobotState::SIZE == 8 + 4 * 16 + 4 * 16 + 4 * 16 + 4 * 16 + 4 * 16 + 4 * 16 + 4 + 4 * 9 + 4 * 3 + 4 + 4 * 9 + 4 * 3 + 4 * 2 + 4 * 2 + 4 * 7 + 4 * 7 + 4 * 7 + 4 * 7 + 4 * 7 + 4 * 7 + 4 * 7 + 4 * 7 + 4 * 7 + 4 * 6 + 4 * 7 + 4 * 6 + 4 * 7 + 4 * 6 + 4 * 6 + 4 * 6 + 4 * 3 + 4 * 2 + 4 * 2 + 4 * 2 + 4 * 16 + 4 * 6 + 4 * 6 + 4 * 7 + 4 * 7 + 4 * 3 * 6 + 4 * 3 * 6 + 1 + 1 + 41 + 41 + 1 + 4,
        r.message_id == seq_u64_at(b, 0),
        forall|i: int| 0 <= i < 16 ==> r.o_t_ee[i] == seq_u32_at(b, (8) as int + 4 * i),
        forall|i: int| 0 <= i < 16 ==> r.o_t_ee_d[i] == seq_u32_at(b, (8 + 4 * 16) as int + 4 * i),
        forall|i: int| 0 <= i < 16 ==> r.f_t_ee[i] == seq_u32_at(b, (8 + 4 * 16 + 4 * 16) as int + 4 * i),
        forall|i: int| 0 <= i < 16 ==> r.ee_t_k[i] == seq_u32_at(b, (8 + 4 * 16 + 4 * 16 + 4 * 16) as int + 4 * i),
        forall|i: int| 0 <= i < 16 ==> r.f_t_ne[i] == seq_u32_at(b, (8 + 4 * 16 + 4 * 16 + 4 * 16 + 4 * 16) as int + 4 * i),
        forall|i: int| 0 <= i < 16 ==> r.ne_t_ee[i] == seq_u32_at(b, (8 + 4 * 16 + 4 * 16 + 4 * 16 + 4 * 16 + 4 * 16) as int + 4 * i),
        r.m_ee == seq_u32_at(b, (8 + 4 * 16 + 4 * 16 + 4 * 16 + 4 * 16 + 4 * 16 + 4 * 16) as int),
        forall|i: int| 0 <= i < 9 ==> r.i_ee[i] == seq_u32_at(b, (8 + 4 * 16 + 4 * 16 + 4 * 16 + 4 * 16 + 4 * 16 + 4 * 16 + 4) as int + 4 * i),
        forall|i: int| 0 <= i < 3 ==> r.f_x_cee[i] == seq_u32_at(b, (8 + 4 * 16 + 4 * 16 + 4 * 16 + 4 * 16 + 4 * 16 + 4 * 16 + 4 + 4 * 9) as int + 4 * i),
        r.m_load == seq_u32_at(b, (8 + 4 * 16 + 4 * 16 + 4 * 16 + 4 * 16 + 4 * 16 + 4 * 16 + 4 + 4 * 9 + 4 * 3) as int),
        forall|i: int| 0 <= i < 9 ==> r.i_load[i] == seq_u32_at(b, (8 + 4 * 16 + 4 * 16 + 4 * 16 + 4 * 16 + 4 * 16 + 4 * 16 + 4 + 4 * 9 + 4 * 3 + 4) as int + 4 * i),
        forall|i: int| 0 <= i < 3 ==> r.f_x_cload[i] == seq_u32_at(b, (8 + 4 * 16 + 4 * 16 + 4 * 16 + 4 * 16 + 4 * 16 + 4 * 16 + 4 + 4 * 9 + 4 * 3 + 4 + 4 * 9) as int + 4 * i),
        forall|i: int| 0 <= i < 2 ==> r.elbow[i] == seq_u32_at(b, (8 + 4 * 16 + 4 * 16 + 4 * 16 + 4 * 16 + 4 * 16 + 4 * 16 + 4 + 4 * 9 + 4 * 3 + 4 + 4 * 9 + 4 * 3) as int + 4 * i),
        forall|i: int| 0 <= i < 2 ==> r.elbow_d[i] == seq_u32_at(b, (8 + 4 * 16 + 4 * 16 + 4 * 16 + 4 * 16 + 4 * 16 + 4 * 16 + 4 + 4 * 9 + 4 * 3 + 4 + 4 * 9 + 4 * 3 + 4 * 2) as int + 4 * i),
        forall|i: int| 0 <= i < 7 ==> r.tau_j[i] == seq_u32_at(b, (8 + 4 * 16 + 4 * 16 + 4 * 16 + 4 * 16 + 4 * 16 + 4 * 16 + 4 + 4 * 9 + 4 * 3 + 4 + 4 * 9 + 4 * 3 + 4 * 2 + 4 * 2) as int + 4 * i),
        forall|i: int| 0 <= i < 7 ==> r.tau_j_d[i] == seq_u32_at(b, (8 + 4 * 16 + 4 * 16 + 4 * 16 + 4 * 16 + 4 * 16 + 4 * 16 + 4 + 4 * 9 + 4 * 3 + 4 + 4 * 9 + 4 * 3 + 4 * 2 + 4 * 2 + 4 * 7) as int + 4 * i),
        forall|i: int| 0 <= i < 7 ==> r.dtau_j[i] == seq_u32_at(b, (8 + 4 * 16 + 4 * 16 + 4 * 16 + 4 * 16 + 4 * 16 + 4 * 16 + 4 + 4 * 9 + 4 * 3 + 4 + 4 * 9 + 4 * 3 + 4 * 2 + 4 * 2 + 4 * 7 + 4 * 7) as int + 4 * i),
        forall|i: int| 0 <= i < 7 ==> r.q[i] == seq_u32_at(b, (8 + 4 * 16 + 4 * 16 + 4 * 16 + 4 * 16 + 4 * 16 + 4 * 16 + 4 + 4 * 9 + 4 * 3 + 4 + 4 * 9 + 4 * 3 + 4 * 2 + 4 * 2 + 4 * 7 + 4 * 7 + 4 * 7) as int + 4 * i),
        forall|i: int| 0 <= i < 7 ==> r.q_d[i] == seq_u32_at(b, (8 + 4 * 16 + 4 * 16 + 4 * 16 + 4 * 16 + 4 * 16 + 4 * 16 + 4 + 4 * 9 + 4 * 3 + 4 + 4 * 9 + 4 * 3 + 4 * 2 + 4 * 2 + 4 * 7 + 4 * 7 + 4 * 7 + 4 * 7) as int + 4 * i),
        forall|i: int| 0 <= i < 7 ==> r.dq[i] == seq_u32_at(b, (8 + 4 * 16 + 4 * 16 + 4 * 16 + 4 * 16 + 4 * 16 + 4 * 16 + 4 + 4 * 9 + 4 * 3 + 4 + 4 * 9 + 4 * 3 + 4 * 2 + 4 * 2 + 4 * 7 + 4 * 7 + 4 * 7 + 4 * 7 + 4 * 7) as int + 4 * i),
        forall|i: int| 0 <= i < 7 ==> r.dq_d[i] == seq_u32_at(b, (8 + 4 * 16 + 4 * 16 + 4 * 16 + 4 * 16 + 4 * 16 + 4 * 16 + 4 + 4 * 9 + 4 * 3 + 4 + 4 * 9 + 4 * 3 + 4 * 2 + 4 * 2 + 4 * 7 + 4 * 7 + 4 * 7 + 4 * 7 + 4 * 7 + 4 * 7) as int + 4 * i),
        forall|i: int| 0 <= i < 7 ==> r.ddq_d[i] == seq_u32_at(b, (8 + 4 * 16 + 4 * 16 + 4 * 16 + 4 * 16 + 4 * 16 + 4 * 16 + 4 + 4 * 9 + 4 * 3 + 4 + 4 * 9 + 4 * 3 + 4 * 2 + 4 * 2 + 4 * 7 + 4 * 7 + 4 * 7 + 4 * 7 + 4 * 7 + 4 * 7 + 4 * 7) as int + 4 * i),
        forall|i: int| 0 <= i < 7 ==> r.joint_contact[i] == seq_u32_at(b, (8 + 4 * 16 + 4 * 16 + 4 * 16 + 4 * 16 + 4 * 16 + 4 * 16 + 4 + 4 * 9 + 4 * 3 + 4 + 4 * 9 + 4 * 3 + 4 * 2 + 4 * 2 + 4 * 7 + 4 * 7 + 4 * 7 + 4 * 7 + 4 * 7 + 4 * 7 + 4 * 7 + 4 * 7) as int + 4 * i),
        forall|i: int| 0 <= i < 6 ==> r.cartesian_contact[i] == seq_u32_at(b, (8 + 4 * 16 + 4 * 16 + 4 * 16 + 4 * 16 + 4 * 16 + 4 * 16 + 4 + 4 * 9 + 4 * 3 + 4 + 4 * 9 + 4 * 3 + 4 * 2 + 4 * 2 + 4 * 7 + 4 * 7 + 4 * 7 + 4 * 7 + 4 * 7 + 4 * 7 + 4 * 7 + 4 * 7 + 4 * 7) as int + 4 * i),
        forall|i: int| 0 <= i < 7 ==> r.joint_collision[i] == seq_u32_at(b, (8 + 4 * 16 + 4 * 16 + 4 * 16 + 4 * 16 + 4 * 16 + 4 * 16 + 4 + 4 * 9 + 4 * 3 + 4 + 4 * 9 + 4 * 3 + 4 * 2 + 4 * 2 + 4 * 7 + 4 * 7 + 4 * 7 + 4 * 7 + 4 * 7 + 4 * 7 + 4 * 7 + 4 * 7 + 4 * 7 + 4 * 6) as int + 4 * i),
        forall|i: int| 0 <= i < 6 ==> r.cartesian_collision[i] == seq_u32_at(b, (8 + 4 * 16 + 4 * 16 + 4 * 16 + 4 * 16 + 4 * 16 + 4 * 16 + 4 + 4 * 9 + 4 * 3 + 4 + 4 * 9 + 4 * 3 + 4 * 2 + 4 * 2 + 4 * 7 + 4 * 7 + 4 * 7 + 4 * 7 + 4 * 7 + 4 * 7 + 4 * 7 + 4 * 7 + 4 * 7 + 4 * 6 + 4 * 7) as int + 4 * i),
        forall|i: int| 0 <= i < 7 ==> r.tau_ext_hat_filtered[i] == seq_u32_at(b, (8 + 4 * 16 + 4 * 16 + 4 * 16 + 4 * 16 + 4 * 16 + 4 * 16 + 4 + 4 * 9 + 4 * 3 + 4 + 4 * 9 + 4 * 3 + 4 * 2 + 4 * 2 + 4 * 7 + 4 * 7 + 4 * 7 + 4 * 7 + 4 * 7 + 4 * 7 + 4 * 7 + 4 * 7 + 4 * 7 + 4 * 6 + 4 * 7 + 4 * 6) as int + 4 * i),
        forall|i: int| 0 <= i < 6 ==> r.o_f_ext_hat_k[i] == seq_u32_at(b, (8 + 4 * 16 + 4 * 16 + 4 * 16 + 4 * 16 + 4 * 16 + 4 * 16 + 4 + 4 * 9 + 4 * 3 + 4 + 4 * 9 + 4 * 3 + 4 * 2 + 4 * 2 + 4 * 7 + 4 * 7 + 4 * 7 + 4 * 7 + 4 * 7 + 4 * 7 + 4 * 7 + 4 * 7 + 4 * 7 + 4 * 6 + 4 * 7 + 4 * 6 + 4 * 7) as int + 4 * i),
        forall|i: int| 0 <= i < 6 ==> r.k_f_ext_hat_k[i] == seq_u32_at(b, (8 + 4 * 16 + 4 * 16 + 4 * 16 + 4 * 16 + 4 * 16 + 4 * 16 + 4 + 4 * 9 + 4 * 3 + 4 + 4 * 9 + 4 * 3 + 4 * 2 + 4 * 2 + 4 * 7 + 4 * 7 + 4 * 7 + 4 * 7 + 4 * 7 + 4 * 7 + 4 * 7 + 4 * 7 + 4 * 7 + 4 * 6 + 4 * 7 + 4 * 6 + 4 * 7 + 4 * 6) as int + 4 * i),
        forall|i: int| 0 <= i < 6 ==> r.o_dp_ee_d[i] == seq_u32_at(b, (8 + 4 * 16 + 4 * 16 + 4 * 16 + 4 * 16 + 4 * 16 + 4 * 16 + 4 + 4 * 9 + 4 * 3 + 4 + 4 * 9 + 4 * 3 + 4 * 2 + 4 * 2 + 4 * 7 + 4 * 7 + 4 * 7 + 4 * 7 + 4 * 7 + 4 * 7 + 4 * 7 + 4 * 7 + 4 * 7 + 4 * 6 + 4 * 7 + 4 * 6 + 4 * 7 + 4 * 6 + 4 * 6) as int + 4 * i),
        forall|i: int| 0 <= i < 3 ==> r.o_ddp_o[i] == seq_u32_at(b, (8 + 4 * 16 + 4 * 16 + 4 * 16 + 4 * 16 + 4 * 16 + 4 * 16 + 4 + 4 * 9 + 4 * 3 + 4 + 4 * 9 + 4 * 3 + 4 * 2 + 4 * 2 + 4 * 7 + 4 * 7 + 4 * 7 + 4 * 7 + 4 * 7 + 4 * 7 + 4 * 7 + 4 * 7 + 4 * 7 + 4 * 6 + 4 * 7 + 4 * 6 + 4 * 7 + 4 * 6 + 4 * 6 + 4 * 6) as int + 4 * i),
        forall|i: int| 0 <= i < 2 ==> r.elbow_c[i] == seq_u32_at(b, (8 + 4 * 16 + 4 * 16 + 4 * 16 + 4 * 16 + 4 * 16 + 4 * 16 + 4 + 4 * 9 + 4 * 3 + 4 + 4 * 9 + 4 * 3 + 4 * 2 + 4 * 2 + 4 * 7 + 4 * 7 + 4 * 7 + 4 * 7 + 4 * 7 + 4 * 7 + 4 * 7 + 4 * 7 + 4 * 7 + 4 * 6 + 4 * 7 + 4 * 6 + 4 * 7 + 4 * 6 + 4 * 6 + 4 * 6 + 4 * 3) as int + 4 * i),
        forall|i: int| 0 <= i < 2 ==> r.delbow_c[i] == seq_u32_at(b, (8 + 4 * 16 + 4 * 16 + 4 * 16 + 4 * 16 + 4 * 16 + 4 * 16 + 4 + 4 * 9 + 4 * 3 + 4 + 4 * 9 + 4 * 3 + 4 * 2 + 4 * 2 + 4 * 7 + 4 * 7 + 4 * 7 + 4 * 7 + 4 * 7 + 4 * 7 + 4 * 7 + 4 * 7 + 4 * 7 + 4 * 6 + 4 * 7 + 4 * 6 + 4 * 7 + 4 * 6 + 4 * 6 + 4 * 6 + 4 * 3 + 4 * 2) as int + 4 * i),
        forall|i: int| 0 <= i < 2 ==> r.ddelbow_c[i] == seq_u32_at(b, (8 + 4 * 16 + 4 * 16 + 4 * 16 + 4 * 16 + 4 * 16 + 4 * 16 + 4 + 4 * 9 + 4 * 3 + 4 + 4 * 9 + 4 * 3 + 4 * 2 + 4 * 2 + 4 * 7 + 4 * 7 + 4 * 7 + 4 * 7 + 4 * 7 + 4 * 7 + 4 * 7 + 4 * 7 + 4 * 7 + 4 * 6 + 4 * 7 + 4 * 6 + 4 * 7 + 4 * 6 + 4 * 6 + 4 * 6 + 4 * 3 + 4 * 2 + 4 * 2) as int + 4 * i),
        forall|i: int| 0 <= i < 16 ==> r.o_t_ee_c[i] == seq_u32_at(b, (8 + 4 * 16 + 4 * 16 + 4 * 16 + 4 * 16 + 4 * 16 + 4 * 16 + 4 + 4 * 9 + 4 * 3 + 4 + 4 * 9 + 4 * 3 + 4 * 2 + 4 * 2 + 4 * 7 + 4 * 7 + 4 * 7 + 4 * 7 + 4 * 7 + 4 * 7 + 4 * 7 + 4 * 7 + 4 * 7 + 4 * 6 + 4 * 7 + 4 * 6 + 4 * 7 + 4 * 6 + 4 * 6 + 4 * 6 + 4 * 3 + 4 * 2 + 4 * 2 + 4 * 2) as int + 4 * i),
        forall|i: int| 0 <= i < 6 ==> r.o_dp_ee_c[i] == seq_u32_at(b, (8 + 4 * 16 + 4 * 16 + 4 * 16 + 4 * 16 + 4 * 16 + 4 * 16 + 4 + 4 * 9 + 4 * 3 + 4 + 4 * 9 + 4 * 3 + 4 * 2 + 4 * 2 + 4 * 7 + 4 * 7 + 4 * 7 + 4 * 7 + 4 * 7 + 4 * 7 + 4 * 7 + 4 * 7 + 4 * 7 + 4 * 6 + 4 * 7 + 4 * 6 + 4 * 7 + 4 * 6 + 4 * 6 + 4 * 6 + 4 * 3 + 4 * 2 + 4 * 2 + 4 * 2 + 4 * 16) as int + 4 * i),
        forall|i: int| 0 <= i < 6 ==> r.o_ddp_ee_c[i] == seq_u32_at(b, (8 + 4 * 16 + 4 * 16 + 4 * 16 + 4 * 16 + 4 * 16 + 4 * 16 + 4 + 4 * 9 + 4 * 3 + 4 + 4 * 9 + 4 * 3 + 4 * 2 + 4 * 2 + 4 * 7 + 4 * 7 + 4 * 7 + 4 * 7 + 4 * 7 + 4 * 7 + 4 * 7 + 4 * 7 + 4 * 7 + 4 * 6 + 4 * 7 + 4 * 6 + 4 * 7 + 4 * 6 + 4 * 6 + 4 * 6 + 4 * 3 + 4 * 2 + 4 * 2 + 4 * 2 + 4 * 16 + 4 * 6) as int + 4 * i),
        forall|i: int| 0 <= i < 7 ==> r.theta[i] == seq_u32_at(b, (8 + 4 * 16 + 4 * 16 + 4 * 16 + 4 * 16 + 4 * 16 + 4 * 16 + 4 + 4 * 9 + 4 * 3 + 4 + 4 * 9 + 4 * 3 + 4 * 2 + 4 * 2 + 4 * 7 + 4 * 7 + 4 * 7 + 4 * 7 + 4 * 7 + 4 * 7 + 4 * 7 + 4 * 7 + 4 * 7 + 4 * 6 + 4 * 7 + 4 * 6 + 4 * 7 + 4 * 6 + 4 * 6 + 4 * 6 + 4 * 3 + 4 * 2 + 4 * 2 + 4 * 2 + 4 * 16 + 4 * 6 + 4 * 6) as int + 4 * i),
        forall|i: int| 0 <= i < 7 ==> r.dtheta[i] == seq_u32_at(b, (8 + 4 * 16 + 4 * 16 + 4 * 16 + 4 * 16 + 4 * 16 + 4 * 16 + 4 + 4 * 9 + 4 * 3 + 4 + 4 * 9 + 4 * 3 + 4 * 2 + 4 * 2 + 4 * 7 + 4 * 7 + 4 * 7 + 4 * 7 + 4 * 7 + 4 * 7 + 4 * 7 + 4 * 7 + 4 * 7 + 4 * 6 + 4 * 7 + 4 * 6 + 4 * 7 + 4 * 6 + 4 * 6 + 4 * 6 + 4 * 3 + 4 * 2 + 4 * 2 + 4 * 2 + 4 * 16 + 4 * 6 + 4 * 6 + 4 * 7) as int + 4 * i),
        forall|j: int, i: int| 0 <= j < 6 && 0 <= i < 3 ==> r.accelerometer_top[j][i] == seq_u32_at(b, (8 + 4 * 16 + 4 * 16 + 4 * 16 + 4 * 16 + 4 * 16 + 4 * 16 + 4 + 4 * 9 + 4 * 3 + 4 + 4 * 9 + 4 * 3 + 4 * 2 + 4 * 2 + 4 * 7 + 4 * 7 + 4 * 7 + 4 * 7 + 4 * 7 + 4 * 7 + 4 * 7 + 4 * 7 + 4 * 7 + 4 * 6 + 4 * 7 + 4 * 6 + 4 * 7 + 4 * 6 + 4 * 6 + 4 * 6 + 4 * 3 + 4 * 2 + 4 * 2 + 4 * 2 + 4 * 16 + 4 * 6 + 4 * 6 + 4 * 7 + 4 * 7) as int + 4 * 3 * j + 4 * i),
        forall|j: int, i: int| 0 <= j < 6 && 0 <= i < 3 ==> r.accelerometer_bottom[j][i] == seq_u32_at(b, (8 + 4 * 16 + 4 * 16 + 4 * 16 + 4 * 16 + 4 * 16 + 4 * 16 + 4 + 4 * 9 + 4 * 3 + 4 + 4 * 9 + 4 * 3 + 4 * 2 + 4 * 2 + 4 * 7 + 4 * 7 + 4 * 7 + 4 * 7 + 4 * 7 + 4 * 7 + 4 * 7 + 4 * 7 + 4 * 7 + 4 * 6 + 4 * 7 + 4 * 6 + 4 * 7 + 4 * 6 + 4 * 6 + 4 * 6 + 4 * 3 + 4 * 2 + 4 * 2 + 4 * 2 + 4 * 16 + 4 * 6 + 4 * 6 + 4 * 7 + 4 * 7 + 4 * 3 * 6) as int + 4 * 3 * j + 4 * i),
        r.motion_generator_mode == b[((8 + 4 * 16 + 4 * 16 + 4 * 16 + 4 * 16 + 4 * 16 + 4 * 16 + 4 + 4 * 9 + 4 * 3 + 4 + 4 * 9 + 4 * 3 + 4 * 2 + 4 * 2 + 4 * 7 + 4 * 7 + 4 * 7 + 4 * 7 + 4 * 7 + 4 * 7 + 4 * 7 + 4 * 7 + 4 * 7 + 4 * 6 + 4 * 7 + 4 * 6 + 4 * 7 + 4 * 6 + 4 * 6 + 4 * 6 + 4 * 3 + 4 * 2 + 4 * 2 + 4 * 2 + 4 * 16 + 4 * 6 + 4 * 6 + 4 * 7 + 4 * 7 + 4 * 3 * 6 + 4 * 3 * 6) as int) as int],
        r.controller_mode == b[((8 + 4 * 16 + 4 * 16 + 4 * 16 + 4 * 16 + 4 * 16 + 4 * 16 + 4 + 4 * 9 + 4 * 3 + 4 + 4 * 9 + 4 * 3 + 4 * 2 + 4 * 2 + 4 * 7 + 4 * 7 + 4 * 7 + 4 * 7 + 4 * 7 + 4 * 7 + 4 * 7 + 4 * 7 + 4 * 7 + 4 * 6 + 4 * 7 + 4 * 6 + 4 * 7 + 4 * 6 + 4 * 6 + 4 * 6 + 4 * 3 + 4 * 2 + 4 * 2 + 4 * 2 + 4 * 16 + 4 * 6 + 4 * 6 + 4 * 7 + 4 * 7 + 4 * 3 * 6 + 4 * 3 * 6 + 1) as int) as int],
        forall|i: int| 0 <= i < 41 ==> r.errors[i] == b[(8 + 4 * 16 + 4 * 16 + 4 * 16 + 4 * 16 + 4 * 16 + 4 * 16 + 4 + 4 * 9 + 4 * 3 + 4 + 4 * 9 + 4 * 3 + 4 * 2 + 4 * 2 + 4 * 7 + 4 * 7 + 4 * 7 + 4 * 7 + 4 * 7 + 4 * 7 + 4 * 7 + 4 * 7 + 4 * 7 + 4 * 6 + 4 * 7 + 4 * 6 + 4 * 7 + 4 * 6 + 4 * 6 + 4 * 6 + 4 * 3 + 4 * 2 + 4 * 2 + 4 * 2 + 4 * 16 + 4 * 6 + 4 * 6 + 4 * 7 + 4 * 7 + 4 * 3 * 6 + 4 * 3 * 6 + 1 + 1) as int + i],
        forall|i: int| 0 <= i < 41 ==> r.reflex_reason[i] == b[(8 + 4 * 16 + 4 * 16 + 4 * 16 + 4 * 16 + 4 * 16 + 4 * 16 + 4 + 4 * 9 + 4 * 3 + 4 + 4 * 9 + 4 * 3 + 4 * 2 + 4 * 2 + 4 * 7 + 4 * 7 + 4 * 7 + 4 * 7 + 4 * 7 + 4 * 7 + 4 * 7 + 4 * 7 + 4 * 7 + 4 * 6 + 4 * 7 + 4 * 6 + 4 * 7 + 4 * 6 + 4 * 6 + 4 * 6 + 4 * 3 + 4 * 2 + 4 * 2 + 4 * 2 + 4 * 16 + 4 * 6 + 4 * 6 + 4 * 7 + 4 * 7 + 4 * 3 * 6 + 4 * 3 * 6 + 1 + 1 + 41) as int + i],
        r.robot_mode == b[((8 + 4 * 16 + 4 * 16 + 4 * 16 + 4 * 16 + 4 * 16 + 4 * 16 + 4 + 4 * 9 + 4 * 3 + 4 + 4 * 9 + 4 * 3 + 4 * 2 + 4 * 2 + 4 * 7 + 4 * 7 + 4 * 7 + 4 * 7 + 4 * 7 + 4 * 7 + 4 * 7 + 4 * 7 + 4 * 7 + 4 * 6 + 4 * 7 + 4 * 6 + 4 * 7 + 4 * 6 + 4 * 6 + 4 * 6 + 4 * 3 + 4 * 2 + 4 * 2 + 4 * 2 + 4 * 16 + 4 * 6 + 4 * 6 + 4 * 7 + 4 * 7 + 4 * 3 * 6 + 4 * 3 * 6 + 1 + 1 + 41 + 41) as int) as int],
        r.control_command_success_rate == seq_u32_at(b, (8 + 4 * 16 + 4 * 16 + 4 * 16 + 4 * 16 + 4 * 16 + 4 * 16 + 4 + 4 * 9 + 4 * 3 + 4 + 4 * 9 + 4 * 3 + 4 * 2 + 4 * 2 + 4 * 7 + 4 * 7 + 4 * 7 + 4 * 7 + 4 * 7 + 4 * 7 + 4 * 7 + 4 * 7 + 4 * 7 + 4 * 6 + 4 * 7 + 4 * 6 + 4 * 7 + 4 * 6 + 4 * 6 + 4 * 6 + 4 * 3 + 4 * 2 + 4 * 2 + 4 * 2 + 4 * 16 + 4 * 6 + 4 * 6 + 4 * 7 + 4 * 7 + 4 * 3 * 6 + 4 * 3 * 6 + 1 + 1 + 41 + 41 + 1) as int),
{
    assert forall|i: int| 0 <= i < 41 implies r.errors[i] == b[(8 + 4 * 16 + 4 * 16 + 4 * 16 + 4 * 16 + 4 * 16 + 4 * 16 + 4 + 4 * 9 + 4 * 3 + 4 + 4 * 9 + 4 * 3 + 4 * 2 + 4 * 2 + 4 * 7 + 4 * 7 + 4 * 7 + 4 * 7 + 4 * 7 + 4 * 7 + 4 * 7 + 4 * 7 + 4 * 7 + 4 * 6 + 4 * 7 + 4 * 6 + 4 * 7 + 4 * 6 + 4 * 6 + 4 * 6 + 4 * 3 + 4 * 2 + 4 * 2 + 4 * 2 + 4 * 16 + 4 * 6 + 4 * 6 + 4 * 7 + 4 * 7 + 4 * 3 * 6 + 4 * 3 * 6 + 1 + 1) as int + i] by {
        assert(r.errors@[i] == r.errors[i]);
        assert(b.subrange((8 + 4 * 16 + 4 * 16 + 4 * 16 + 4 * 16 + 4 * 16 + 4 * 16 + 4 + 4 * 9 + 4 * 3 + 4 + 4 * 9 + 4 * 3 + 4 * 2 + 4 * 2 + 4 * 7 + 4 * 7 + 4 * 7 + 4 * 7 + 4 * 7 + 4 * 7 + 4 * 7 + 4 * 7 + 4 * 7 + 4 * 6 + 4 * 7 + 4 * 6 + 4 * 7 + 4 * 6 + 4 * 6 + 4 * 6 + 4 * 3 + 4 * 2 + 4 * 2 + 4 * 2 + 4 * 16 + 4 * 6 + 4 * 6 + 4 * 7 + 4 * 7 + 4 * 3 * 6 + 4 * 3 * 6 + 1 + 1) as int, (8 + 4 * 16 + 4 * 16 + 4 * 16 + 4 * 16 + 4 * 16 + 4 * 16 + 4 + 4 * 9 + 4 * 3 + 4 + 4 * 9 + 4 * 3 + 4 * 2 + 4 * 2 + 4 * 7 + 4 * 7 + 4 * 7 + 4 * 7 + 4 * 7 + 4 * 7 + 4 * 7 + 4 * 7 + 4 * 7 + 4 * 6 + 4 * 7 + 4 * 6 + 4 * 7 + 4 * 6 + 4 * 6 + 4 * 6 + 4 * 3 + 4 * 2 + 4 * 2 + 4 * 2 + 4 * 16 + 4 * 6 + 4 * 6 + 4 * 7 + 4 * 7 + 4 * 3 * 6 + 4 * 3 * 6 + 1 + 1) as int + 41)[i] == b[(8 + 4 * 16 + 4 * 16 + 4 * 16 + 4 * 16 + 4 * 16 + 4 * 16 + 4 + 4 * 9 + 4 * 3 + 4 + 4 * 9 + 4 * 3 + 4 * 2 + 4 * 2 + 4 * 7 + 4 * 7 + 4 * 7 + 4 * 7 + 4 * 7 + 4 * 7 + 4 * 7 + 4 * 7 + 4 * 7 + 4 * 6 + 4 * 7 + 4 * 6 + 4 * 7 + 4 * 6 + 4 * 6 + 4 * 6 + 4 * 3 + 4 * 2 + 4 * 2 + 4 * 2 + 4 * 16 + 4 * 6 + 4 * 6 + 4 * 7 + 4 * 7 + 4 * 3 * 6 + 4 * 3 * 6 + 1 + 1) as int + i]);
    }
    assert forall|i: int| 0 <= i < 41 implies r.reflex_reason[i] == b[(8 + 4 * 16 + 4 * 16 + 4 * 16 + 4 * 16 + 4 * 16 + 4 * 16 + 4 + 4 * 9 + 4 * 3 + 4 + 4 * 9 + 4 * 3 + 4 * 2 + 4 * 2 + 4 * 7 + 4 * 7 + 4 * 7 + 4 * 7 + 4 * 7 + 4 * 7 + 4 * 7 + 4 * 7 + 4 * 7 + 4 * 6 + 4 * 7 + 4 * 6 + 4 * 7 + 4 * 6 + 4 * 6 + 4 * 6 + 4 * 3 + 4 * 2 + 4 * 2 + 4 * 2 + 4 * 16 + 4 * 6 + 4 * 6 + 4 * 7 + 4 * 7 + 4 * 3 * 6 + 4 * 3 * 6 + 1 + 1 + 41) as int + i] by {
        assert(r.reflex_reason@[i] == r.reflex_reason[i]);
        assert(b.subrange((8 + 4 * 16 + 4 * 16 + 4 * 16 + 4 * 16 + 4 * 16 + 4 * 16 + 4 + 4 * 9 + 4 * 3 + 4 + 4 * 9 + 4 * 3 + 4 * 2 + 4 * 2 + 4 * 7 + 4 * 7 + 4 * 7 + 4 * 7 + 4 * 7 + 4 * 7 + 4 * 7 + 4 * 7 + 4 * 7 + 4 * 6 + 4 * 7 + 4 * 6 + 4 * 7 + 4 * 6 + 4 * 6 + 4 * 6 + 4 * 3 + 4 * 2 + 4 * 2 + 4 * 2 + 4 * 16 + 4 * 6 + 4 * 6 + 4 * 7 + 4 * 7 + 4 * 3 * 6 + 4 * 3 * 6 + 1 + 1 + 41) as int, (8 + 4 * 16 + 4 * 16 + 4 * 16 + 4 * 16 + 4 * 16 + 4 * 16 + 4 + 4 * 9 + 4 * 3 + 4 + 4 * 9 + 4 * 3 + 4 * 2 + 4 * 2 + 4 * 7 + 4 * 7 + 4 * 7 + 4 * 7 + 4 * 7 + 4 * 7 + 4 * 7 + 4 * 7 + 4 * 7 + 4 * 6 + 4 * 7 + 4 * 6 + 4 * 7 + 4 * 6 + 4 * 6 + 4 * 6 + 4 * 3 + 4 * 2 + 4 * 2 + 4 * 2 + 4 * 16 + 4 * 6 + 4 * 6 + 4 * 7 + 4 * 7 + 4 * 3 * 6 + 4 * 3 * 6 + 1 + 1 + 41) as int + 41)[i] == b[(8 + 4 * 16 + 4 * 16 + 4 * 16 + 4 * 16 + 4 * 16 + 4 * 16 + 4 + 4 * 9 + 4 * 3 + 4 + 4 * 9 + 4 * 3 + 4 * 2 + 4 * 2 + 4 * 7 + 4 * 7 + 4 * 7 + 4 * 7 + 4 * 7 + 4 * 7 + 4 * 7 + 4 * 7 + 4 * 7 + 4 * 6 + 4 * 7 + 4 * 6 + 4 * 7 + 4 * 6 + 4 * 6 + 4 * 6 + 4 * 3 + 4 * 2 + 4 * 2 + 4 * 2 + 4 * 16 + 4 * 6 + 4 * 6 + 4 * 7 + 4 * 7 + 4 * 3 * 6 + 4 * 3 * 6 + 1 + 1 + 41) as int + i]);
    }
    assert forall|j: int, i: int| 0 <= j < 6 && 0 <= i < 3 implies r.accelerometer_top[j][i] == seq_u32_at(b, (8 + 4 * 16 + 4 * 16 + 4 * 16 + 4 * 16 + 4 * 16 + 4 * 16 + 4 + 4 * 9 + 4 * 3 + 4 + 4 * 9 + 4 * 3 + 4 * 2 + 4 * 2 + 4 * 7 + 4 * 7 + 4 * 7 + 4 * 7 + 4 * 7 + 4 * 7 + 4 * 7 + 4 * 7 + 4 * 7 + 4 * 6 + 4 * 7 + 4 * 6 + 4 * 7 + 4 * 6 + 4 * 6 + 4 * 6 + 4 * 3 + 4 * 2 + 4 * 2 + 4 * 2 + 4 * 16 + 4 * 6 + 4 * 6 + 4 * 7 + 4 * 7) as int + 4 * 3 * j + 4 * i) by {
        assert(r.accelerometer_top@[j]@[i] == r.accelerometer_top[j][i]);
    }
    assert forall|j: int, i: int| 0 <= j < 6 && 0 <= i < 3 implies r.accelerometer_bottom[j][i] == seq_u32_at(b, (8 + 4 * 16 + 4 * 16 + 4 * 16 + 4 * 16 + 4 * 16 + 4 * 16 + 4 + 4 * 9 + 4 * 3 + 4 + 4 * 9 + 4 * 3 + 4 * 2 + 4 * 2 + 4 * 7 + 4 * 7 + 4 * 7 + 4 * 7 + 4 * 7 + 4 * 7 + 4 * 7 + 4 * 7 + 4 * 7 + 4 * 6 + 4 * 7 + 4 * 6 + 4 * 7 + 4 * 6 + 4 * 6 + 4 * 6 + 4 * 3 + 4 * 2 + 4 * 2 + 4 * 2 + 4 * 16 + 4 * 6 + 4 * 6 + 4 * 7 + 4 * 7 + 4 * 3 * 6) as int + 4 * 3 * j + 4 * i) by {
        assert(r.accelerometer_bottom@[j]@[i] == r.accelerometer_bottom[j][i]);
    }
}

/// The motion generator command on the wire: `q_c`, `dq_c`, `o_t_ee_c`, `o_dp_ee_c`, `elbow_c`, `valid_elbow`, `motion_generation_finished`, each little-endian and packed in
/// declaration order, so each field sits at the sum of the sizes of those before it.
pub proof fn lemma_robot_motion_generator_command_layout(x: crate::wire::robot::MotionGeneratorCommand)
    ensures
        x.spec_bytes().len() == 8 * 7 + 8 * 7 + 8 * 16 + 8 * 6 + 8 * 2 + 1 + 1,
        forall|i: int| 0 <= i < 7 ==> seq_u64_at(x.spec_bytes(), 0 + 8 * i) == x.q_c[i],
        forall|i: int| 0 <= i < 7 ==> seq_u64_at(x.spec_bytes(), (8 * 7) as int + 8 * i) == x.dq_c[i],
        forall|i: int| 0 <= i < 16 ==> seq_u64_at(x.spec_bytes(), (8 * 7 + 8 * 7) as int + 8 * i) == x.o_t_ee_c[i],
        forall|i: int| 0 <= i < 6 ==> seq_u64_at(x.spec_bytes(), (8 * 7 + 8 * 7 + 8 * 16) as int + 8 * i) == x.o_dp_ee_c[i],
        forall|i: int| 0 <= i < 2 ==> seq_u64_at(x.spec_bytes(), (8 * 7 + 8 * 7 + 8 * 16 + 8 * 6) as int + 8 * i) == x.elbow_c[i],
        x.spec_bytes()[((8 * 7 + 8 * 7 + 8 * 16 + 8 * 6 + 8 * 2) as int) as int] == x.valid_elbow,
        x.spec_bytes()[((8 * 7 + 8 * 7 + 8 * 16 + 8 * 6 + 8 * 2 + 1) as int) as int] == x.motion_generation_finished,
{
    let b = x.spec_bytes();
    lemma_u64s_le_len(x.q_c@);
    lemma_u64s_le_len(x.dq_c@);
    lemma_u64s_le_len(x.o_t_ee_c@);
    lemma_u64s_le_len(x.o_dp_ee_c@);
    lemma_u64s_le_len(x.elbow_c@);
    assert(b.subrange(0, 56) =~= u64s_le(x.q_c@));
    assert forall|i: int| 0 <= i < 7 implies seq_u64_at(b, 0 + 8 * i) == x.q_c[i] by {
        lemma_read_in_part(b, u64s_le(x.q_c@), 0, 8 * i);
        lemma_u64s_le_at(x.q_c@, i);
    }
    assert(b.subrange(56, 112) =~= u64s_le(x.dq_c@));
    assert forall|i: int| 0 <= i < 7 implies seq_u64_at(b, (8 * 7) as int + 8 * i) == x.dq_c[i] by {
        lemma_read_in_part(b, u64s_le(x.dq_c@), 56, 8 * i);
        lemma_u64s_le_at(x.dq_c@, i);
    }
    assert(b.subrange(112, 240) =~= u64s_le(x.o_t_ee_c@));
    assert forall|i: int| 0 <= i < 16 implies seq_u64_at(b, (8 * 7 + 8 * 7) as int + 8 * i) == x.o_t_ee_c[i] by {
        lemma_read_in_part(b, u64s_le(x.o_t_ee_c@), 112, 8 * i);
        lemma_u64s_le_at(x.o_t_ee_c@, i);
    }
    assert(b.subrange(240, 288) =~= u64s_le(x.o_dp_ee_c@));
    assert forall|i: int| 0 <= i < 6 implies seq_u64_at(b, (8 * 7 + 8 * 7 + 8 * 16) as int + 8 * i) == x.o_dp_ee_c[i] by {
        lemma_read_in_part(b, u64s_le(x.o_dp_ee_c@), 240, 8 * i);
        lemma_u64s_le_at(x.o_dp_ee_c@, i);
    }
    assert(b.subrange(288, 304) =~= u64s_le(x.elbow_c@));
    assert forall|i: int| 0 <= i < 2 implies seq_u64_at(b, (8 * 7 + 8 * 7 + 8 * 16 + 8 * 6) as int + 8 * i) == x.elbow_c[i] by {
        lemma_read_in_part(b, u64s_le(x.elbow_c@), 288, 8 * i);
        lemma_u64s_le_at(x.elbow_c@, i);
    }
    assert(b.subrange(304, 305) =~= seq![x.valid_elbow]);
    lemma_read_in_part(b, seq![x.valid_elbow], 304, 0);
    assert(b.subrange(305, 306) =~= seq![x.motion_generation_finished]);
    lemma_read_in_part(b, seq![x.motion_generation_finished], 305, 0);
}

/// The controller command on the wire: `tau_j_d`, `torque_command_finished`, each little-endian and packed in
/// declaration order, so each field sits at the sum of the sizes of those before it.
pub proof fn lemma_robot_controller_command_layout(x: crate::wire::robot::ControllerCommand)
    ensures
        x.spec_bytes().len() == 8 * 7 + 1,
        forall|i: int| 0 <= i < 7 ==> seq_u64_at(x.spec_bytes(), 0 + 8 * i) == x.tau_j_d[i],
        x.spec_bytes()[((8 * 7) as int) as int] == x.torque_command_finished,
{
    let b = x.spec_bytes();
    lemma_u64s_le_len(x.tau_j_d@);
    assert(b.subrange(0, 56) =~= u64s_le(x.tau_j_d@));
    assert forall|i: int| 0 <= i < 7 implies seq_u64_at(b, 0 + 8 * i) == x.tau_j_d[i] by {
        lemma_read_in_part(b, u64s_le(x.tau_j_d@), 0, 8 * i);
        lemma_u64s_le_at(x.tau_j_d@, i);
    }
    assert(b.subrange(56, 57) =~= seq![x.torque_command_finished]);
    lemma_read_in_part(b, seq![x.torque_command_finished], 56, 0);
}

/// The gripper command header on the wire: `command`, `command_id`, `size`, each little-endian and packed in
/// declaration order, so each field sits at the sum of the sizes of those before it.
pub proof fn lemma_gripper_command_header_layout(x: crate::wire::gripper::CommandHeader)
    ensures
        x.spec_bytes().len() == 2 + 4 + 4,
        seq_u16_at(x.spec_bytes(), 0) == x.command,
        seq_u32_at(x.spec_bytes(), (2) as int) == x.command_id,
        seq_u32_at(x.spec_bytes(), (2 + 4) as int) == x.size,
{
    let b = x.spec_bytes();
    assert(b.subrange(0, 2) =~= u16_le(x.command));
    lemma_read_in_part(b, u16_le(x.command), 0, 0);
    lemma_u16_roundtrip(x.command);
    assert(b.subrange(2, 6) =~= u32_le(x.command_id));
    lemma_read_in_part(b, u32_le(x.command_id), 2, 0);
    lemma_u32_roundtrip(x.command_id);
    assert(b.subrange(6, 10) =~= u32_le(x.size));
    lemma_read_in_part(b, u32_le(x.size), 6, 0);
    lemma_u32_roundtrip(x.size);
}

/// A decoded gripper command header reads `command`, `command_id`, `size`, each little-endian and packed
/// in declaration order, each at the sum of the sizes of the fields before it.
pub proof fn lemma_gripper_command_header_decoded_layout(r: crate::wire::gripper::CommandHeader, b: Seq<u8>)
    requires
        r == crate::wire::gripper::CommandHeader::spec_decode(b),
        b.len() >= crate::wire::gripper::CommandHeader::SIZE,
    ensures
        crate::wire::gripper::CommandHeader::SIZE == 2 + 4 + 4,
        r.command == seq_u16_at(b, 0),
        r.command_id == seq_u32_at(b, (2) as int),
        r.size == seq_u32_at(b, (2 + 4) as int),
{

}

/// The gripper connect request on the wire: `version`, `udp_port`, each little-endian and packed in
/// declaration order, so each field sits at the sum of the sizes of those before it.
pub proof fn lemma_gripper_connect_request_layout(x: crate::wire::gripper::ConnectRequest)
    ensures
        x.spec_bytes().len() == 2 + 2,
        seq_u16_at(x.spec_bytes(), 0) == x.version,
        seq_u16_at(x.spec_bytes(), (2) as int) == x.udp_port,
{
    let b = x.spec_bytes();
    assert(b.subrange(0, 2) =~= u16_le(x.version));
    lemma_read_in_part(b, u16_le(x.version), 0, 0);
    lemma_u16_roundtrip(x.version);
    assert(b.subrange(2, 4) =~= u16_le(x.udp_port));
    lemma_read_in_part(b, u16_le(x.udp_port), 2, 0);
    lemma_u16_roundtrip(x.udp_port);
}

/// A decoded gripper connect response reads `status`, `version`, each little-endian and packed
/// in declaration order, each at the sum of the sizes of the fields before it.
pub proof fn lemma_gripper_connect_response_decoded_layout(r: crate::wire::gripper::ConnectResponse, b: Seq<u8>)
    requires
        crate::wire::gripper::ConnectResponse::decodes(r, b),
        b.len() >= crate::wire::gripper::ConnectResponse::SIZE,
    ensures
        crate::wire::gripper::ConnectResponse::SIZE == 2 + 2,
        r.status == seq_u16_at(b, 0),
        r.version == seq_u16_at(b, (2) as int),
{

}

/// A decoded gripper command response reads `status`, each little-endian and packed
/// in declaration order, each at the sum of the sizes of the fields before it.
pub proof fn lemma_gripper_command_response_decoded_layout(r: crate::wire::gripper::CommandResponse, b: Seq<u8>)
    requires
        crate::wire::gripper::CommandResponse::decodes(r, b),
        b.len() >= crate::wire::gripper::CommandResponse::SIZE,
    ensures
        crate::wire::gripper::CommandResponse::SIZE == 2,
        r.status == seq_u16_at(b, 0),
{

}

/// The vacuum command header on the wire: `command`, `command_id`, `size`, each little-endian and packed in
/// declaration order, so each field sits at the sum of the sizes of those before it.
pub proof fn lemma_vacuum_command_header_layout(x: crate::wire::vacuum::CommandHeader)
    ensures
        x.spec_bytes().len() == 2 + 4 + 4,
        seq_u16_at(x.spec_bytes(), 0) == x.command,
        seq_u32_at(x.spec_bytes(), (2) as int) == x.command_id,
        seq_u32_at(x.spec_bytes(), (2 + 4) as int) == x.size,
{
    let b = x.spec_bytes();
    assert(b.subrange(0, 2) =~= u16_le(x.command));
    lemma_read_in_part(b, u16_le(x.command), 0, 0);
    lemma_u16_roundtrip(x.command);
    assert(b.subrange(2, 6) =~= u32_le(x.command_id));
    lemma_read_in_part(b, u32_le(x.command_id), 2, 0);
    lemma_u32_roundtrip(x.command_id);
    assert(b.subrange(6, 10) =~= u32_le(x.size));
    lemma_read_in_part(b, u32_le(x.size), 6, 0);
    lemma_u32_roundtrip(x.size);
}

/// A decoded vacuum command header reads `command`, `command_id`, `size`, each little-endian and packed
/// in declaration order, each at the sum of the sizes of the fields before it.
pub proof fn lemma_vacuum_command_header_decoded_layout(r: crate::wire::vacuum::CommandHeader, b: Seq<u8>)
    requires
        r == crate::wire::vacuum::CommandHeader::spec_decode(b),
        b.len() >= crate::wire::vacuum::CommandHeader::SIZE,
    ensures
        crate::wire::vacuum::CommandHeader::SIZE == 2 + 4 + 4,
        r.command == seq_u16_at(b, 0),
        r.command_id == seq_u32_at(b, (2) as int),
        r.size == seq_u32_at(b, (2 + 4) as int),
{

}

/// The vacuum connect request on the wire: `version`, `udp_port`, each little-endian and packed in
/// declaration order, so each field sits at the sum of the sizes of those before it.
pub proof fn lemma_vacuum_connect_request_layout(x: crate::wire::vacuum::ConnectRequest)
    ensures
        x.spec_bytes().len() == 2 + 2,
        seq_u16_at(x.spec_bytes(), 0) == x.version,
        seq_u16_at(x.spec_bytes(), (2) as int) == x.udp_port,
{
    let b = x.spec_bytes();
    assert(b.subrange(0, 2) =~= u16_le(x.version));
    lemma_read_in_part(b, u16_le(x.version), 0, 0);
    lemma_u16_roundtrip(x.version);
    assert(b.subrange(2, 4) =~= u16_le(x.udp_port));
    lemma_read_in_part(b, u16_le(x.udp_port), 2, 0);
    lemma_u16_roundtrip(x.udp_port);
}

/// A decoded vacuum connect response reads `status`, `version`, each little-endian and packed
/// in declaration order, each at the sum of the sizes of the fields before it.
pub proof fn lemma_vacuum_connect_response_decoded_layout(r: crate::wire::vacuum::ConnectResponse, b: Seq<u8>)
    requires
        crate::wire::vacuum::ConnectResponse::decodes(r, b),
        b.len() >= crate::wire::vacuum::ConnectResponse::SIZE,
    ensures
        crate::wire::vacuum::ConnectResponse::SIZE == 2 + 2,
        r.status == seq_u16_at(b, 0),
        r.version == seq_u16_at(b, (2) as int),
{

}

/// A decoded vacuum command response reads `status`, each little-endian and packed
/// in declaration order, each at the sum of the sizes of the fields before it.
pub proof fn lemma_vacuum_command_response_decoded_layout(r: crate::wire::vacuum::CommandResponse, b: Seq<u8>)
    requires
        crate::wire::vacuum::CommandResponse::decodes(r, b),
        b.len() >= crate::wire::vacuum::CommandResponse::SIZE,
    ensures
        crate::wire::vacuum::CommandResponse::SIZE == 2,
        r.status == seq_u16_at(b, 0),
{

}

/// The grasp request on the wire: `width`, `epsilon_inner`, `epsilon_outer`, `speed`, `force`, each little-endian and packed in
/// declaration order, so each field sits at the sum of the sizes of those before it.
pub proof fn lemma_gripper_grasp_request_layout(x: crate::wire::gripper::GraspRequest)
    ensures
        x.spec_bytes().len() == 8 + 8 + 8 + 8 + 8,
        seq_u64_at(x.spec_bytes(), 0) == x.width,
        seq_u64_at(x.spec_bytes(), (8) as int) == x.epsilon_inner,
        seq_u64_at(x.spec_bytes(), (8 + 8) as int) == x.epsilon_outer,
        seq_u64_at(x.spec_bytes(), (8 + 8 + 8) as int) == x.speed,
        seq_u64_at(x.spec_bytes(), (8 + 8 + 8 + 8) as int) == x.force,
{
    let b = x.spec_bytes();
    assert(b.subrange(0, 8) =~= u64_le(x.width));
    lemma_read_in_part(b, u64_le(x.width), 0, 0);
    lemma_u64_le_at(x.width);
    assert(b.subrange(8, 16) =~= u64_le(x.epsilon_inner));
    lemma_read_in_part(b, u64_le(x.epsilon_inner), 8, 0);
    lemma_u64_le_at(x.epsilon_inner);
    assert(b.subrange(16, 24) =~= u64_le(x.epsilon_outer));
    lemma_read_in_part(b, u64_le(x.epsilon_outer), 16, 0);
    lemma_u64_le_at(x.epsilon_outer);
    assert(b.subrange(24, 32) =~= u64_le(x.speed));
    lemma_read_in_part(b, u64_le(x.speed), 24, 0);
    lemma_u64_le_at(x.speed);
    assert(b.subrange(32, 40) =~= u64_le(x.force));
    lemma_read_in_part(b, u64_le(x.force), 32, 0);
    lemma_u64_le_at(x.force);
}

/// The gripper move request on the wire: `width`, `speed`, each little-endian and packed in
/// declaration order, so each field sits at the sum of the sizes of those before it.
pub proof fn lemma_gripper_move_request_layout(x: crate::wire::gripper::MoveRequest)
    ensures
        x.spec_bytes().len() == 8 + 8,
        seq_u64_at(x.spec_bytes(), 0) == x.width,
        seq_u64_at(x.spec_bytes(), (8) as int) == x.speed,
{
    let b = x.spec_bytes();
    assert(b.subrange(0, 8) =~= u64_le(x.width));
    lemma_read_in_part(b, u64_le(x.width), 0, 0);
    lemma_u64_le_at(x.width);
    assert(b.subrange(8, 16) =~= u64_le(x.speed));
    lemma_read_in_part(b, u64_le(x.speed), 8, 0);
    lemma_u64_le_at(x.speed);
}

/// A decoded gripper state reads `message_id`, `width`, `max_width`, `is_grasped`, `temperature`, each little-endian and packed
/// in declaration order, each at the sum of the sizes of the fields before it.
pub proof fn lemma_gripper_raw_gripper_state_decoded_layout(r: crate::wire::gripper::RawGripperState, b: Seq<u8>)
    requires
        crate::wire::gripper::RawGripperState::decodes(r, b),
        b.len() >= crate::wire::gripper::RawGripperState::SIZE,
    ensures
        crate::wire::gripper::RawGripperState::SIZE == 4 + 8 + 8 + 1 + 2,
        r.message_id == seq_u32_at(b, 0),
        r.width == seq_u64_at(b, (4) as int),
        r.max_width == seq_u64_at(b, (4 + 8) as int),
        r.is_grasped == b[((4 + 8 + 8) as int) as int],
        r.temperature == seq_u16_at(b, (4 + 8 + 8 + 1) as int),
{

}

/// The vacuum request on the wire: `vacuum`, `profile`, `timeout_ms`, each little-endian and packed in
/// declaration order, so each field sits at the sum of the sizes of those before it.
pub proof fn lemma_vacuum_vacuum_request_layout(x: crate::wire::vacuum::VacuumRequest)
    ensures
        x.spec_bytes().len() == 1 + 1 + 8,
        x.spec_bytes()[(0) as int] == x.vacuum,
        x.spec_bytes()[((1) as int) as int] == x.profile,
        seq_u64_at(x.spec_bytes(), (1 + 1) as int) == x.timeout_ms,
{
    let b = x.spec_bytes();
    assert(b.subrange(0, 1) =~= seq![x.vacuum]);
    lemma_read_in_part(b, seq![x.vacuum], 0, 0);
    assert(b.subrange(1, 2) =~= seq![x.profile]);
    lemma_read_in_part(b, seq![x.profile], 1, 0);
    assert(b.subrange(2, 10) =~= u64_le(x.timeout_ms));
    lemma_read_in_part(b, u64_le(x.timeout_ms), 2, 0);
    lemma_u64_le_at(x.timeout_ms);
}

/// The drop-off request on the wire: `timeout_ms`, each little-endian and packed in
/// declaration order, so each field sits at the sum of the sizes of those before it.
pub proof fn lemma_vacuum_drop_off_request_layout(x: crate::wire::vacuum::DropOffRequest)
    ensures
        x.spec_bytes().len() == 8,
        seq_u64_at(x.spec_bytes(), 0) == x.timeout_ms,
{
    let b = x.spec_bytes();
    assert(b.subrange(0, 8) =~= u64_le(x.timeout_ms));
    lemma_read_in_part(b, u64_le(x.timeout_ms), 0, 0);
    lemma_u64_le_at(x.timeout_ms);
}

/// A decoded vacuum gripper state reads `message_id`, `in_control_range`, `part_detached`, `part_present`, `device_status`, `actual_power`, `vacuum`, each little-endian and packed
/// in declaration order, each at the sum of the sizes of the fields before it.
pub proof fn lemma_vacuum_raw_vacuum_gripper_state_decoded_layout(r: crate::wire::vacuum::RawVacuumGripperState, b: Seq<u8>)
    requires
        crate::wire::vacuum::RawVacuumGripperState::decodes(r, b),
        b.len() >= crate::wire::vacuum::RawVacuumGripperState::SIZE,
    ensures
        crate::wire::vacuum::RawVacuumGripperState::SIZE == 4 + 1 + 1 + 1 + 1 + 4 + 4,
        r.message_id == seq_u32_at(b, 0),
        r.in_control_range == b[((4) as int) as int],
        r.part_detached == b[((4 + 1) as int) as int],
        r.part_present == b[((4 + 1 + 1) as int) as int],
        r.device_status == b[((4 + 1 + 1 + 1) as int) as int],
        r.actual_power == seq_u32_at(b, (4 + 1 + 1 + 1 + 1) as int) as i32,
        r.vacuum == seq_u32_at(b, (4 + 1 + 1 + 1 + 1 + 4) as int) as i32,
{

}

/// The command sent each control cycle: the message id (8 bytes), then the motion
/// generator command, then the controller command, each laid out field by field as above.
pub proof fn lemma_robot_command_layout(x: crate::wire::robot::RobotCommand)
    ensures
        x.spec_bytes().len() == 8 + (8 * 7 + 8 * 7 + 8 * 16 + 8 * 6 + 8 * 2 + 1 + 1) + (8 * 7 + 1),
        seq_u64_at(x.spec_bytes(), 0) == x.message_id,
        forall|i: int| 0 <= i < 7 ==> seq_u64_at(x.spec_bytes(), 8 + 0 + 8 * i) == x.motion.q_c[i],
        forall|i: int| 0 <= i < 7 ==> seq_u64_at(x.spec_bytes(), 8 + (8 * 7) as int + 8 * i) == x.motion.dq_c[i],
        forall|i: int| 0 <= i < 16 ==> seq_u64_at(x.spec_bytes(), 8 + (8 * 7 + 8 * 7) as int + 8 * i) == x.motion.o_t_ee_c[i],
        forall|i: int| 0 <= i < 6 ==> seq_u64_at(x.spec_bytes(), 8 + (8 * 7 + 8 * 7 + 8 * 16) as int + 8 * i) == x.motion.o_dp_ee_c[i],
        forall|i: int| 0 <= i < 2 ==> seq_u64_at(x.spec_bytes(), 8 + (8 * 7 + 8 * 7 + 8 * 16 + 8 * 6) as int + 8 * i) == x.motion.elbow_c[i],
        x.spec_bytes()[(8 + (8 * 7 + 8 * 7 + 8 * 16 + 8 * 6 + 8 * 2) as int) as int] == x.motion.valid_elbow,
        x.spec_bytes()[(8 + (8 * 7 + 8 * 7 + 8 * 16 + 8 * 6 + 8 * 2 + 1) as int) as int] == x.motion.motion_generation_finished,
        forall|i: int| 0 <= i < 7 ==> seq_u64_at(x.spec_bytes(), (8 + 8 * 7 + 8 * 7 + 8 * 16 + 8 * 6 + 8 * 2 + 1 + 1) as int + 0 + 8 * i) == x.control.tau_j_d[i],
        x.spec_bytes()[((8 + 8 * 7 + 8 * 7 + 8 * 16 + 8 * 6 + 8 * 2 + 1 + 1) as int + (8 * 7) as int) as int] == x.control.torque_command_finished,
{
    let b = x.spec_bytes();
    let mb = x.motion.spec_bytes();
    let cb = x.control.spec_bytes();
    lemma_robot_motion_generator_command_layout(x.motion);
    lemma_robot_controller_command_layout(x.control);
    assert(b.subrange(0, 8) =~= u64_le(x.message_id));
    assert(b.subrange(8, 314) =~= mb);
    assert(b.subrange(314, 371) =~= cb);
    lemma_read_in_part(b, u64_le(x.message_id), 0, 0);
    lemma_u64_le_at(x.message_id);
    assert forall|i: int| 0 <= i < 7 implies seq_u64_at(b, 8 + 0 + 8 * i) == x.motion.q_c[i] by {
        lemma_read_in_part(b, mb, 8, 0 + 8 * i);
    }
    assert forall|i: int| 0 <= i < 7 implies seq_u64_at(b, 8 + (8 * 7) as int + 8 * i) == x.motion.dq_c[i] by {
        lemma_read_in_part(b, mb, 8, 56 + 8 * i);
    }
    assert forall|i: int| 0 <= i < 16 implies seq_u64_at(b, 8 + (8 * 7 + 8 * 7) as int + 8 * i) == x.motion.o_t_ee_c[i] by {
        lemma_read_in_part(b, mb, 8, 112 + 8 * i);
    }
    assert forall|i: int| 0 <= i < 6 implies seq_u64_at(b, 8 + (8 * 7 + 8 * 7 + 8 * 16) as int + 8 * i) == x.motion.o_dp_ee_c[i] by {
        lemma_read_in_part(b, mb, 8, 240 + 8 * i);
    }
    assert forall|i: int| 0 <= i < 2 implies seq_u64_at(b, 8 + (8 * 7 + 8 * 7 + 8 * 16 + 8 * 6) as int + 8 * i) == x.motion.elbow_c[i] by {
        lemma_read_in_part(b, mb, 8, 288 + 8 * i);
    }
    lemma_read_in_part(b, mb, 8, 304);
    lemma_read_in_part(b, mb, 8, 305);
    assert forall|i: int| 0 <= i < 7 implies seq_u64_at(b, (8 + 8 * 7 + 8 * 7 + 8 * 16 + 8 * 6 + 8 * 2 + 1 + 1) as int + 0 + 8 * i) == x.control.tau_j_d[i] by {
        lemma_read_in_part(b, cb, 314, 0 + 8 * i);
    }
    lemma_read_in_part(b, cb, 314, 56);
}

} // verus!
