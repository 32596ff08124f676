//! Wire format of the robot protocol (TCP commands and UDP state/commands).
//!
//! Every message is a packed sequence of fixed-width fields in little-endian byte
//! order, the byte order of the robot controller. Floating-point fields travel as
//! their IEEE-754 bit patterns: the structs below hold those bits (`f64::to_bits`,
//! `f32::to_bits`), and this module encodes and decodes them exactly.

use vstd::prelude::*;

use super::le_bytes::{
    lemma_u32_decode_roundtrip, lemma_u32_roundtrip, lemma_u64s_le_len, push_u16_le, push_u32_le,
    push_u64_le, push_u64s_le, read_u16_le, read_u32_array, read_u32_le, read_u64_le,
    read_u8_array, seq_u16_at, seq_u32_at, seq_u32s_at, seq_u64_at, u16_le, u32_le, u64_le,
    u64s_le,
};

verus! {

/// Wire-format command enum matching research_interface::robot::Command.
#[derive(Debug, Clone, Copy, PartialEq, Eq, Structural)]
pub enum Command {
    Connect,
    Move,
    StopMove,
    SetCollisionBehavior,
    SetJointImpedance,
    SetCartesianImpedance,
    SetGuidingMode,
    SetEeToK,
    SetNeToEe,
    SetLoad,
    AutomaticErrorRecovery,
    GetRobotModel,
}

impl Command {
    /// The value's code on the wire.
    pub open spec fn spec_code(self) -> u32 {
        match self {
            Command::Connect => 0,
            Command::Move => 1,
            Command::StopMove => 2,
            Command::SetCollisionBehavior => 3,
            Command::SetJointImpedance => 4,
            Command::SetCartesianImpedance => 5,
            Command::SetGuidingMode => 6,
            Command::SetEeToK => 7,
            Command::SetNeToEe => 8,
            Command::SetLoad => 9,
            Command::AutomaticErrorRecovery => 10,
            Command::GetRobotModel => 11,
        }
    }

    /// The value's code on the wire.
    pub fn code(self) -> (c: u32)
        ensures
            c == self.spec_code(),
    {
        match self {
            Command::Connect => 0,
            Command::Move => 1,
            Command::StopMove => 2,
            Command::SetCollisionBehavior => 3,
            Command::SetJointImpedance => 4,
            Command::SetCartesianImpedance => 5,
            Command::SetGuidingMode => 6,
            Command::SetEeToK => 7,
            Command::SetNeToEe => 8,
            Command::SetLoad => 9,
            Command::AutomaticErrorRecovery => 10,
            Command::GetRobotModel => 11,
        }
    }
}

/// TCP message header for robot commands (12 bytes on the wire).
#[derive(Debug, Clone, Copy)]
pub struct CommandHeader {
    pub command: u32,
    pub command_id: u32,
    /// Total size of the message, header included.
    pub size: u32,
}

impl CommandHeader {
    /// Size of the header on the wire.
    pub const SIZE: usize = 12;

    /// The header's bytes on the wire: command, command id, size.
    pub open spec fn spec_bytes(self) -> Seq<u8> {
        u32_le(self.command) + u32_le(self.command_id) + u32_le(self.size)
    }

    /// The header stored in the first twelve bytes of `b`.
    pub open spec fn spec_decode(b: Seq<u8>) -> CommandHeader {
        CommandHeader {
            command: seq_u32_at(b, 0),
            command_id: seq_u32_at(b, 4),
            size: seq_u32_at(b, 8),
        }
    }

    /// Decodes a header from the first `SIZE` bytes of `bytes`.
    pub fn from_bytes(bytes: &[u8]) -> (h: CommandHeader)
        requires
            bytes@.len() >= 12,
        ensures
            h == CommandHeader::spec_decode(bytes@),
    {
        CommandHeader {
            command: read_u32_le(bytes, 0),
            command_id: read_u32_le(bytes, 4),
            size: read_u32_le(bytes, 8),
        }
    }

    /// Encodes the header.
    pub fn to_bytes(self) -> (b: [u8; 12])
        ensures
            b@ == self.spec_bytes(),
    {
        let mut v: Vec<u8> = Vec::new();
        push_u32_le(&mut v, self.command);
        push_u32_le(&mut v, self.command_id);
        push_u32_le(&mut v, self.size);
        let b: [u8; 12] = [v[0], v[1], v[2], v[3], v[4], v[5], v[6], v[7], v[8], v[9], v[10], v[11]];
        assert(b@ =~= v@);
        b
    }

    /// Decoding an encoded header gives it back.
    pub proof fn lemma_roundtrip(self)
        ensures
            CommandHeader::spec_decode(self.spec_bytes()) == self,
    {
        lemma_u32_roundtrip(self.command);
        lemma_u32_roundtrip(self.command_id);
        lemma_u32_roundtrip(self.size);
    }

    /// Encoding a decoded header gives its bytes back.
    pub proof fn lemma_decode_roundtrip(b: Seq<u8>)
        requires
            b.len() >= 12,
        ensures
            CommandHeader::spec_decode(b).spec_bytes() == b.subrange(0, 12),
    {
        lemma_u32_decode_roundtrip(b[0], b[1], b[2], b[3]);
        lemma_u32_decode_roundtrip(b[4], b[5], b[6], b[7]);
        lemma_u32_decode_roundtrip(b[8], b[9], b[10], b[11]);
        assert(CommandHeader::spec_decode(b).spec_bytes() =~= b.subrange(0, 12));
    }
}

/// Connect request sent to the robot.
#[derive(Debug, Clone, Copy)]
pub struct ConnectRequest {
    pub version: u16,
    pub udp_port: u16,
}

impl ConnectRequest {
    /// Size of the connect request on the wire.
    pub const SIZE: usize = 4;

    /// The connect request's bytes on the wire: its fields in declaration order, little-endian.
    pub open spec fn spec_bytes(&self) -> Seq<u8> {
        u16_le(self.version) + u16_le(self.udp_port)
    }

    /// Encodes the connect request.
    pub fn to_bytes(&self) -> (b: Vec<u8>)
        ensures
            b@ == self.spec_bytes(),
            b@.len() == Self::SIZE,
    {
        let mut out: Vec<u8> = Vec::new();
        push_u16_le(&mut out, self.version);
        push_u16_le(&mut out, self.udp_port);
        assert(out@ =~= self.spec_bytes());
        out
    }
}

/// Connect response from the robot.
#[derive(Debug, Clone, Copy)]
pub struct ConnectResponse {
    pub status: u8,
    pub version: u16,
}

impl ConnectResponse {
    /// Size of the connect response on the wire.
    pub const SIZE: usize = 3;

    /// `r` is the connect response stored in the bytes `b`: its fields in declaration order,
    /// little-endian, one after the other from the first byte.
    pub open spec fn decodes(r: ConnectResponse, b: Seq<u8>) -> bool {
        &&& r.status == b[0]
        &&& r.version == seq_u16_at(b, 1)
    }

    /// Decodes the connect response from the first `SIZE` bytes of `bytes`.
    pub fn from_bytes(bytes: &[u8]) -> (r: ConnectResponse)
        requires
            bytes@.len() >= 3,
        ensures
            ConnectResponse::decodes(r, bytes@),
    {
        ConnectResponse {
            status: bytes[0],
            version: read_u16_le(bytes, 1),
        }
    }
}

/// Status codes for the Connect command.
#[derive(Debug, Clone, Copy, PartialEq, Eq, Structural)]
pub enum ConnectStatus {
    Success,
    IncompatibleLibraryVersion,
}

impl ConnectStatus {
    /// The value's code on the wire.
    pub open spec fn spec_code(self) -> u8 {
        match self {
            ConnectStatus::Success => 0,
            ConnectStatus::IncompatibleLibraryVersion => 1,
        }
    }

    /// The value's code on the wire.
    pub fn code(self) -> (c: u8)
        ensures
            c == self.spec_code(),
    {
        match self {
            ConnectStatus::Success => 0,
            ConnectStatus::IncompatibleLibraryVersion => 1,
        }
    }
}

/// Move command request.
#[derive(Debug, Clone, Copy)]
pub struct MoveRequest {
    pub controller_mode: u32,
    pub motion_generator_mode: u32,
    /// Bits of the `f64` value.
    pub maximum_path_deviation_translation: u64,
    /// Bits of the `f64` value.
    pub maximum_path_deviation_rotation: u64,
    /// Bits of the `f64` value.
    pub maximum_path_deviation_elbow: u64,
    /// Bits of the `f64` value.
    pub maximum_goal_pose_deviation_translation: u64,
    /// Bits of the `f64` value.
    pub maximum_goal_pose_deviation_rotation: u64,
    /// Bits of the `f64` value.
    pub maximum_goal_pose_deviation_elbow: u64,
    pub use_async_motion_generator: u8,
    /// Bits of the `f64` values.
    pub maximum_velocity: [u64; 7],
}

impl MoveRequest {
    /// Size of the move request on the wire.
    pub const SIZE: usize = 113;

    /// The move request's bytes on the wire: its fields in declaration order, little-endian.
    pub open spec fn spec_bytes(&self) -> Seq<u8> {
        u32_le(self.controller_mode) + u32_le(self.motion_generator_mode) + u64_le(self.maximum_path_deviation_translation) + u64_le(self.maximum_path_deviation_rotation) + u64_le(self.maximum_path_deviation_elbow) + u64_le(self.maximum_goal_pose_deviation_translation) + u64_le(self.maximum_goal_pose_deviation_rotation) + u64_le(self.maximum_goal_pose_deviation_elbow) + seq![self.use_async_motion_generator] + u64s_le(self.maximum_velocity@)
    }

    /// Encodes the move request.
    pub fn to_bytes(&self) -> (b: Vec<u8>)
        ensures
            b@ == self.spec_bytes(),
            b@.len() == Self::SIZE,
    {
        let mut out: Vec<u8> = Vec::new();
        push_u32_le(&mut out, self.controller_mode);
        push_u32_le(&mut out, self.motion_generator_mode);
        push_u64_le(&mut out, self.maximum_path_deviation_translation);
        push_u64_le(&mut out, self.maximum_path_deviation_rotation);
        push_u64_le(&mut out, self.maximum_path_deviation_elbow);
        push_u64_le(&mut out, self.maximum_goal_pose_deviation_translation);
        push_u64_le(&mut out, self.maximum_goal_pose_deviation_rotation);
        push_u64_le(&mut out, self.maximum_goal_pose_deviation_elbow);
        out.push(self.use_async_motion_generator);
        push_u64s_le(&mut out, self.maximum_velocity.as_slice());
        proof {
            lemma_u64s_le_len(self.maximum_velocity@);
        }
        assert(out@ =~= self.spec_bytes());
        out
    }
}

/// Move command status codes.
#[derive(Debug, Clone, Copy, PartialEq, Eq, Structural)]
pub enum MoveStatus {
    Success,
    MotionStarted,
    Preempted,
    PreemptedDueToActivatedSafetyFunctions,
    CommandRejectedDueToActivatedSafetyFunctions,
    CommandNotPossibleRejected,
    StartAtSingularPoseRejected,
    InvalidArgumentRejected,
    ReflexAborted,
    EmergencyAborted,
    InputErrorAborted,
    Aborted,
}

impl MoveStatus {
    /// The value's code on the wire.
    pub open spec fn spec_code(self) -> u8 {
        match self {
            MoveStatus::Success => 0,
            MoveStatus::MotionStarted => 1,
            MoveStatus::Preempted => 2,
            MoveStatus::PreemptedDueToActivatedSafetyFunctions => 3,
            MoveStatus::CommandRejectedDueToActivatedSafetyFunctions => 4,
            MoveStatus::CommandNotPossibleRejected => 5,
            MoveStatus::StartAtSingularPoseRejected => 6,
            MoveStatus::InvalidArgumentRejected => 7,
            MoveStatus::ReflexAborted => 8,
            MoveStatus::EmergencyAborted => 9,
            MoveStatus::InputErrorAborted => 10,
            MoveStatus::Aborted => 11,
        }
    }

    /// The value's code on the wire.
    pub fn code(self) -> (c: u8)
        ensures
            c == self.spec_code(),
    {
        match self {
            MoveStatus::Success => 0,
            MoveStatus::MotionStarted => 1,
            MoveStatus::Preempted => 2,
            MoveStatus::PreemptedDueToActivatedSafetyFunctions => 3,
            MoveStatus::CommandRejectedDueToActivatedSafetyFunctions => 4,
            MoveStatus::CommandNotPossibleRejected => 5,
            MoveStatus::StartAtSingularPoseRejected => 6,
            MoveStatus::InvalidArgumentRejected => 7,
            MoveStatus::ReflexAborted => 8,
            MoveStatus::EmergencyAborted => 9,
            MoveStatus::InputErrorAborted => 10,
            MoveStatus::Aborted => 11,
        }
    }

    /// The value that the wire code `value` stands for, if any.
    pub open spec fn spec_from_u8(value: u8) -> Option<MoveStatus> {
        if value == 0 {
            Some(MoveStatus::Success)
        } else if value == 1 {
            Some(MoveStatus::MotionStarted)
        } else if value == 2 {
            Some(MoveStatus::Preempted)
        } else if value == 3 {
            Some(MoveStatus::PreemptedDueToActivatedSafetyFunctions)
        } else if value == 4 {
            Some(MoveStatus::CommandRejectedDueToActivatedSafetyFunctions)
        } else if value == 5 {
            Some(MoveStatus::CommandNotPossibleRejected)
        } else if value == 6 {
            Some(MoveStatus::StartAtSingularPoseRejected)
        } else if value == 7 {
            Some(MoveStatus::InvalidArgumentRejected)
        } else if value == 8 {
            Some(MoveStatus::ReflexAborted)
        } else if value == 9 {
            Some(MoveStatus::EmergencyAborted)
        } else if value == 10 {
            Some(MoveStatus::InputErrorAborted)
        } else if value == 11 {
            Some(MoveStatus::Aborted)
        } else {
            None
        }
    }

    /// Decodes a wire code; codes without a value give `None`.
    pub fn from_u8(value: u8) -> (r: Option<MoveStatus>)
        ensures
            r == MoveStatus::spec_from_u8(value),
    {
        match value {
            0 => Some(MoveStatus::Success),
            1 => Some(MoveStatus::MotionStarted),
            2 => Some(MoveStatus::Preempted),
            3 => Some(MoveStatus::PreemptedDueToActivatedSafetyFunctions),
            4 => Some(MoveStatus::CommandRejectedDueToActivatedSafetyFunctions),
            5 => Some(MoveStatus::CommandNotPossibleRejected),
            6 => Some(MoveStatus::StartAtSingularPoseRejected),
            7 => Some(MoveStatus::InvalidArgumentRejected),
            8 => Some(MoveStatus::ReflexAborted),
            9 => Some(MoveStatus::EmergencyAborted),
            10 => Some(MoveStatus::InputErrorAborted),
            11 => Some(MoveStatus::Aborted),
            _ => None,
        }
    }

    /// Decoding the code of a value gives the value, and exactly the codes below
    /// 12 stand for a value.
    pub proof fn lemma_code_roundtrip(self, value: u8)
        ensures
            MoveStatus::spec_from_u8(self.spec_code()) == Some(self),
            MoveStatus::spec_from_u8(value) is Some <==> value < 12,
            MoveStatus::spec_from_u8(value) matches Some(s) ==> s.spec_code() == value,
    {
    }

    /// The variant's name, as `Debug` prints it.
    pub fn debug_name(self) -> (s: &'static str)
        ensures
            s@ == self.spec_debug_name(),
    {
        match self {
            MoveStatus::Success => "Success",
            MoveStatus::MotionStarted => "MotionStarted",
            MoveStatus::Preempted => "Preempted",
            MoveStatus::PreemptedDueToActivatedSafetyFunctions => "PreemptedDueToActivatedSafetyFunctions",
            MoveStatus::CommandRejectedDueToActivatedSafetyFunctions => "CommandRejectedDueToActivatedSafetyFunctions",
            MoveStatus::CommandNotPossibleRejected => "CommandNotPossibleRejected",
            MoveStatus::StartAtSingularPoseRejected => "StartAtSingularPoseRejected",
            MoveStatus::InvalidArgumentRejected => "InvalidArgumentRejected",
            MoveStatus::ReflexAborted => "ReflexAborted",
            MoveStatus::EmergencyAborted => "EmergencyAborted",
            MoveStatus::InputErrorAborted => "InputErrorAborted",
            MoveStatus::Aborted => "Aborted",
        }
    }

    /// The variant's name, as `Debug` prints it.
    pub open spec fn spec_debug_name(self) -> Seq<char> {
        match self {
            MoveStatus::Success => "Success"@,
            MoveStatus::MotionStarted => "MotionStarted"@,
            MoveStatus::Preempted => "Preempted"@,
            MoveStatus::PreemptedDueToActivatedSafetyFunctions => "PreemptedDueToActivatedSafetyFunctions"@,
            MoveStatus::CommandRejectedDueToActivatedSafetyFunctions => "CommandRejectedDueToActivatedSafetyFunctions"@,
            MoveStatus::CommandNotPossibleRejected => "CommandNotPossibleRejected"@,
            MoveStatus::StartAtSingularPoseRejected => "StartAtSingularPoseRejected"@,
            MoveStatus::InvalidArgumentRejected => "InvalidArgumentRejected"@,
            MoveStatus::ReflexAborted => "ReflexAborted"@,
            MoveStatus::EmergencyAborted => "EmergencyAborted"@,
            MoveStatus::InputErrorAborted => "InputErrorAborted"@,
            MoveStatus::Aborted => "Aborted"@,
        }
    }
}

/// SetCollisionBehavior request.
#[derive(Debug, Clone, Copy)]
pub struct SetCollisionBehaviorRequest {
    /// Bits of the `f64` values.
    pub lower_torque_thresholds_acceleration: [u64; 7],
    /// Bits of the `f64` values.
    pub upper_torque_thresholds_acceleration: [u64; 7],
    /// Bits of the `f64` values.
    pub lower_torque_thresholds_nominal: [u64; 7],
    /// Bits of the `f64` values.
    pub upper_torque_thresholds_nominal: [u64; 7],
    /// Bits of the `f64` values.
    pub lower_force_thresholds_acceleration: [u64; 6],
    /// Bits of the `f64` values.
    pub upper_force_thresholds_acceleration: [u64; 6],
    /// Bits of the `f64` values.
    pub lower_force_thresholds_nominal: [u64; 6],
    /// Bits of the `f64` values.
    pub upper_force_thresholds_nominal: [u64; 6],
}

impl SetCollisionBehaviorRequest {
    /// Size of the request on the wire.
    pub const SIZE: usize = 416;

    /// The request's bytes on the wire: its fields in declaration order, little-endian.
    pub open spec fn spec_bytes(&self) -> Seq<u8> {
        u64s_le(self.lower_torque_thresholds_acceleration@) + u64s_le(self.upper_torque_thresholds_acceleration@) + u64s_le(self.lower_torque_thresholds_nominal@) + u64s_le(self.upper_torque_thresholds_nominal@) + u64s_le(self.lower_force_thresholds_acceleration@) + u64s_le(self.upper_force_thresholds_acceleration@) + u64s_le(self.lower_force_thresholds_nominal@) + u64s_le(self.upper_force_thresholds_nominal@)
    }

    /// Encodes the request.
    pub fn to_bytes(&self) -> (b: Vec<u8>)
        ensures
            b@ == self.spec_bytes(),
            b@.len() == Self::SIZE,
    {
        let mut out: Vec<u8> = Vec::new();
        push_u64s_le(&mut out, self.lower_torque_thresholds_acceleration.as_slice());
        push_u64s_le(&mut out, self.upper_torque_thresholds_acceleration.as_slice());
        push_u64s_le(&mut out, self.lower_torque_thresholds_nominal.as_slice());
        push_u64s_le(&mut out, self.upper_torque_thresholds_nominal.as_slice());
        push_u64s_le(&mut out, self.lower_force_thresholds_acceleration.as_slice());
        push_u64s_le(&mut out, self.upper_force_thresholds_acceleration.as_slice());
        push_u64s_le(&mut out, self.lower_force_thresholds_nominal.as_slice());
        push_u64s_le(&mut out, self.upper_force_thresholds_nominal.as_slice());
        proof {
            lemma_u64s_le_len(self.lower_torque_thresholds_acceleration@);
            lemma_u64s_le_len(self.upper_torque_thresholds_acceleration@);
            lemma_u64s_le_len(self.lower_torque_thresholds_nominal@);
            lemma_u64s_le_len(self.upper_torque_thresholds_nominal@);
            lemma_u64s_le_len(self.lower_force_thresholds_acceleration@);
            lemma_u64s_le_len(self.upper_force_thresholds_acceleration@);
            lemma_u64s_le_len(self.lower_force_thresholds_nominal@);
            lemma_u64s_le_len(self.upper_force_thresholds_nominal@);
        }
        assert(out@ =~= self.spec_bytes());
        out
    }
}

/// SetJointImpedance request.
#[derive(Debug, Clone, Copy)]
pub struct SetJointImpedanceRequest {
    /// Bits of the `f64` values.
    pub k_theta: [u64; 7],
}

impl SetJointImpedanceRequest {
    /// Size of the request on the wire.
    pub const SIZE: usize = 56;

    /// The request's bytes on the wire: its fields in declaration order, little-endian.
    pub open spec fn spec_bytes(&self) -> Seq<u8> {
        u64s_le(self.k_theta@)
    }

    /// Encodes the request.
    pub fn to_bytes(&self) -> (b: Vec<u8>)
        ensures
            b@ == self.spec_bytes(),
            b@.len() == Self::SIZE,
    {
        let mut out: Vec<u8> = Vec::new();
        push_u64s_le(&mut out, self.k_theta.as_slice());
        proof {
            lemma_u64s_le_len(self.k_theta@);
        }
        assert(out@ =~= self.spec_bytes());
        out
    }
}

/// SetCartesianImpedance request.
#[derive(Debug, Clone, Copy)]
pub struct SetCartesianImpedanceRequest {
    /// Bits of the `f64` values.
    pub k_x: [u64; 6],
}

impl SetCartesianImpedanceRequest {
    /// Size of the request on the wire.
    pub const SIZE: usize = 48;

    /// The request's bytes on the wire: its fields in declaration order, little-endian.
    pub open spec fn spec_bytes(&self) -> Seq<u8> {
        u64s_le(self.k_x@)
    }

    /// Encodes the request.
    pub fn to_bytes(&self) -> (b: Vec<u8>)
        ensures
            b@ == self.spec_bytes(),
            b@.len() == Self::SIZE,
    {
        let mut out: Vec<u8> = Vec::new();
        push_u64s_le(&mut out, self.k_x.as_slice());
        proof {
            lemma_u64s_le_len(self.k_x@);
        }
        assert(out@ =~= self.spec_bytes());
        out
    }
}

/// SetGuidingMode request.
#[derive(Debug, Clone, Copy)]
pub struct SetGuidingModeRequest {
    pub guiding_mode: [u8; 6],
    pub nullspace: u8,
}

impl SetGuidingModeRequest {
    /// Size of the request on the wire.
    pub const SIZE: usize = 7;

    /// The request's bytes on the wire: its fields in declaration order, little-endian.
    pub open spec fn spec_bytes(&self) -> Seq<u8> {
        self.guiding_mode@ + seq![self.nullspace]
    }

    /// Encodes the request.
    pub fn to_bytes(&self) -> (b: Vec<u8>)
        ensures
            b@ == self.spec_bytes(),
            b@.len() == Self::SIZE,
    {
        let mut out: Vec<u8> = Vec::new();
        out.extend_from_slice(self.guiding_mode.as_slice());
        out.push(self.nullspace);
        assert(out@ =~= self.spec_bytes());
        out
    }
}

/// SetEEToK request (16-element column-major homogeneous transform).
#[derive(Debug, Clone, Copy)]
pub struct SetEeToKRequest {
    /// Bits of the `f64` values.
    pub ee_t_k: [u64; 16],
}

impl SetEeToKRequest {
    /// Size of the request on the wire.
    pub const SIZE: usize = 128;

    /// The request's bytes on the wire: its fields in declaration order, little-endian.
    pub open spec fn spec_bytes(&self) -> Seq<u8> {
        u64s_le(self.ee_t_k@)
    }

    /// Encodes the request.
    pub fn to_bytes(&self) -> (b: Vec<u8>)
        ensures
            b@ == self.spec_bytes(),
            b@.len() == Self::SIZE,
    {
        let mut out: Vec<u8> = Vec::new();
        push_u64s_le(&mut out, self.ee_t_k.as_slice());
        proof {
            lemma_u64s_le_len(self.ee_t_k@);
        }
        assert(out@ =~= self.spec_bytes());
        out
    }
}

/// SetNEToEE request (16-element column-major homogeneous transform).
#[derive(Debug, Clone, Copy)]
pub struct SetNeToEeRequest {
    /// Bits of the `f64` values.
    pub ne_t_ee: [u64; 16],
}

impl SetNeToEeRequest {
    /// Size of the request on the wire.
    pub const SIZE: usize = 128;

    /// The request's bytes on the wire: its fields in declaration order, little-endian.
    pub open spec fn spec_bytes(&self) -> Seq<u8> {
        u64s_le(self.ne_t_ee@)
    }

    /// Encodes the request.
    pub fn to_bytes(&self) -> (b: Vec<u8>)
        ensures
            b@ == self.spec_bytes(),
            b@.len() == Self::SIZE,
    {
        let mut out: Vec<u8> = Vec::new();
        push_u64s_le(&mut out, self.ne_t_ee.as_slice());
        proof {
            lemma_u64s_le_len(self.ne_t_ee@);
        }
        assert(out@ =~= self.spec_bytes());
        out
    }
}

/// SetLoad request.
#[derive(Debug, Clone, Copy)]
pub struct SetLoadRequest {
    /// Bits of the `f64` value.
    pub m_load: u64,
    /// Bits of the `f64` values.
    pub f_x_cload: [u64; 3],
    /// Bits of the `f64` values.
    pub i_load: [u64; 9],
}

impl SetLoadRequest {
    /// Size of the request on the wire.
    pub const SIZE: usize = 104;

    /// The request's bytes on the wire: its fields in declaration order, little-endian.
    pub open spec fn spec_bytes(&self) -> Seq<u8> {
        u64_le(self.m_load) + u64s_le(self.f_x_cload@) + u64s_le(self.i_load@)
    }

    /// Encodes the request.
    pub fn to_bytes(&self) -> (b: Vec<u8>)
        ensures
            b@ == self.spec_bytes(),
            b@.len() == Self::SIZE,
    {
        let mut out: Vec<u8> = Vec::new();
        push_u64_le(&mut out, self.m_load);
        push_u64s_le(&mut out, self.f_x_cload.as_slice());
        push_u64s_le(&mut out, self.i_load.as_slice());
        proof {
            lemma_u64s_le_len(self.f_x_cload@);
            lemma_u64s_le_len(self.i_load@);
        }
        assert(out@ =~= self.spec_bytes());
        out
    }
}

/// Generic command response (status byte only).
#[derive(Debug, Clone, Copy)]
pub struct CommandResponse {
    pub status: u8,
}

impl CommandResponse {
    /// Size of the response on the wire.
    pub const SIZE: usize = 1;

    /// `r` is the response stored in the bytes `b`: its fields in declaration order,
    /// little-endian, one after the other from the first byte.
    pub open spec fn decodes(r: CommandResponse, b: Seq<u8>) -> bool {
        &&& r.status == b[0]
    }

    /// Decodes the response from the first `SIZE` bytes of `bytes`.
    pub fn from_bytes(bytes: &[u8]) -> (r: CommandResponse)
        requires
            bytes@.len() >= 1,
        ensures
            CommandResponse::decodes(r, bytes@),
    {
        CommandResponse {
            status: bytes[0],
        }
    }
}

/// Generic getter/setter command status codes.
#[derive(Debug, Clone, Copy, PartialEq, Eq, Structural)]
pub enum GetterSetterStatus {
    Success,
    CommandNotPossibleRejected,
    InvalidArgumentRejected,
    CommandRejectedDueToActivatedSafetyFunctions,
}

impl GetterSetterStatus {
    /// The value's code on the wire.
    pub open spec fn spec_code(self) -> u8 {
        match self {
            GetterSetterStatus::Success => 0,
            GetterSetterStatus::CommandNotPossibleRejected => 1,
            GetterSetterStatus::InvalidArgumentRejected => 2,
            GetterSetterStatus::CommandRejectedDueToActivatedSafetyFunctions => 3,
        }
    }

    /// The value's code on the wire.
    pub fn code(self) -> (c: u8)
        ensures
            c == self.spec_code(),
    {
        match self {
            GetterSetterStatus::Success => 0,
            GetterSetterStatus::CommandNotPossibleRejected => 1,
            GetterSetterStatus::InvalidArgumentRejected => 2,
            GetterSetterStatus::CommandRejectedDueToActivatedSafetyFunctions => 3,
        }
    }

    /// The value that the wire code `value` stands for, if any.
    pub open spec fn spec_from_u8(value: u8) -> Option<GetterSetterStatus> {
        if value == 0 {
            Some(GetterSetterStatus::Success)
        } else if value == 1 {
            Some(GetterSetterStatus::CommandNotPossibleRejected)
        } else if value == 2 {
            Some(GetterSetterStatus::InvalidArgumentRejected)
        } else if value == 3 {
            Some(GetterSetterStatus::CommandRejectedDueToActivatedSafetyFunctions)
        } else {
            None
        }
    }

    /// Decodes a wire code; codes without a value give `None`.
    pub fn from_u8(value: u8) -> (r: Option<GetterSetterStatus>)
        ensures
            r == GetterSetterStatus::spec_from_u8(value),
    {
        match value {
            0 => Some(GetterSetterStatus::Success),
            1 => Some(GetterSetterStatus::CommandNotPossibleRejected),
            2 => Some(GetterSetterStatus::InvalidArgumentRejected),
            3 => Some(GetterSetterStatus::CommandRejectedDueToActivatedSafetyFunctions),
            _ => None,
        }
    }

    /// Decoding the code of a value gives the value, and exactly the codes below
    /// 4 stand for a value.
    pub proof fn lemma_code_roundtrip(self, value: u8)
        ensures
            GetterSetterStatus::spec_from_u8(self.spec_code()) == Some(self),
            GetterSetterStatus::spec_from_u8(value) is Some <==> value < 4,
            GetterSetterStatus::spec_from_u8(value) matches Some(s) ==> s.spec_code() == value,
    {
    }
}

/// StopMove status codes.
#[derive(Debug, Clone, Copy, PartialEq, Eq, Structural)]
pub enum StopMoveStatus {
    Success,
    CommandNotPossibleRejected,
    CommandRejectedDueToActivatedSafetyFunctions,
    EmergencyAborted,
    ReflexAborted,
    Aborted,
}

impl StopMoveStatus {
    /// The value's code on the wire.
    pub open spec fn spec_code(self) -> u8 {
        match self {
            StopMoveStatus::Success => 0,
            StopMoveStatus::CommandNotPossibleRejected => 1,
            StopMoveStatus::CommandRejectedDueToActivatedSafetyFunctions => 2,
            StopMoveStatus::EmergencyAborted => 3,
            StopMoveStatus::ReflexAborted => 4,
            StopMoveStatus::Aborted => 5,
        }
    }

    /// The value's code on the wire.
    pub fn code(self) -> (c: u8)
        ensures
            c == self.spec_code(),
    {
        match self {
            StopMoveStatus::Success => 0,
            StopMoveStatus::CommandNotPossibleRejected => 1,
            StopMoveStatus::CommandRejectedDueToActivatedSafetyFunctions => 2,
            StopMoveStatus::EmergencyAborted => 3,
            StopMoveStatus::ReflexAborted => 4,
            StopMoveStatus::Aborted => 5,
        }
    }
}

/// AutomaticErrorRecovery status codes.
#[derive(Debug, Clone, Copy, PartialEq, Eq, Structural)]
pub enum AutomaticErrorRecoveryStatus {
    Success,
    CommandNotPossibleRejected,
    CommandRejectedDueToActivatedSafetyFunctions,
    ManualErrorRecoveryRequiredRejected,
    ReflexAborted,
    EmergencyAborted,
    Aborted,
}

impl AutomaticErrorRecoveryStatus {
    /// The value's code on the wire.
    pub open spec fn spec_code(self) -> u8 {
        match self {
            AutomaticErrorRecoveryStatus::Success => 0,
            AutomaticErrorRecoveryStatus::CommandNotPossibleRejected => 1,
            AutomaticErrorRecoveryStatus::CommandRejectedDueToActivatedSafetyFunctions => 2,
            AutomaticErrorRecoveryStatus::ManualErrorRecoveryRequiredRejected => 3,
            AutomaticErrorRecoveryStatus::ReflexAborted => 4,
            AutomaticErrorRecoveryStatus::EmergencyAborted => 5,
            AutomaticErrorRecoveryStatus::Aborted => 6,
        }
    }

    /// The value's code on the wire.
    pub fn code(self) -> (c: u8)
        ensures
            c == self.spec_code(),
    {
        match self {
            AutomaticErrorRecoveryStatus::Success => 0,
            AutomaticErrorRecoveryStatus::CommandNotPossibleRejected => 1,
            AutomaticErrorRecoveryStatus::CommandRejectedDueToActivatedSafetyFunctions => 2,
            AutomaticErrorRecoveryStatus::ManualErrorRecoveryRequiredRejected => 3,
            AutomaticErrorRecoveryStatus::ReflexAborted => 4,
            AutomaticErrorRecoveryStatus::EmergencyAborted => 5,
            AutomaticErrorRecoveryStatus::Aborted => 6,
        }
    }
}

/// Raw robot state as received over UDP.
/// 
/// This matches the C++ `research_interface::robot::RobotState` packed struct.
/// All multi-element fields are `f32` on the wire.
#[derive(Debug, Clone, Copy)]
pub struct RawRobotState {
    pub message_id: u64,
    /// Bits of the `f32` values.
    pub o_t_ee: [u32; 16],
    /// Bits of the `f32` values.
    pub o_t_ee_d: [u32; 16],
    /// Bits of the `f32` values.
    pub f_t_ee: [u32; 16],
    /// Bits of the `f32` values.
    pub ee_t_k: [u32; 16],
    /// Bits of the `f32` values.
    pub f_t_ne: [u32; 16],
    /// Bits of the `f32` values.
    pub ne_t_ee: [u32; 16],
    /// Bits of the `f32` value.
    pub m_ee: u32,
    /// Bits of the `f32` values.
    pub i_ee: [u32; 9],
    /// Bits of the `f32` values.
    pub f_x_cee: [u32; 3],
    /// Bits of the `f32` value.
    pub m_load: u32,
    /// Bits of the `f32` values.
    pub i_load: [u32; 9],
    /// Bits of the `f32` values.
    pub f_x_cload: [u32; 3],
    /// Bits of the `f32` values.
    pub elbow: [u32; 2],
    /// Bits of the `f32` values.
    pub elbow_d: [u32; 2],
    /// Bits of the `f32` values.
    pub tau_j: [u32; 7],
    /// Bits of the `f32` values.
    pub tau_j_d: [u32; 7],
    /// Bits of the `f32` values.
    pub dtau_j: [u32; 7],
    /// Bits of the `f32` values.
    pub q: [u32; 7],
    /// Bits of the `f32` values.
    pub q_d: [u32; 7],
    /// Bits of the `f32` values.
    pub dq: [u32; 7],
    /// Bits of the `f32` values.
    pub dq_d: [u32; 7],
    /// Bits of the `f32` values.
    pub ddq_d: [u32; 7],
    /// Bits of the `f32` values.
    pub joint_contact: [u32; 7],
    /// Bits of the `f32` values.
    pub cartesian_contact: [u32; 6],
    /// Bits of the `f32` values.
    pub joint_collision: [u32; 7],
    /// Bits of the `f32` values.
    pub cartesian_collision: [u32; 6],
    /// Bits of the `f32` values.
    pub tau_ext_hat_filtered: [u32; 7],
    /// Bits of the `f32` values.
    pub o_f_ext_hat_k: [u32; 6],
    /// Bits of the `f32` values.
    pub k_f_ext_hat_k: [u32; 6],
    /// Bits of the `f32` values.
    pub o_dp_ee_d: [u32; 6],
    /// Bits of the `f32` values.
    pub o_ddp_o: [u32; 3],
    /// Bits of the `f32` values.
    pub elbow_c: [u32; 2],
    /// Bits of the `f32` values.
    pub delbow_c: [u32; 2],
    /// Bits of the `f32` values.
    pub ddelbow_c: [u32; 2],
    /// Bits of the `f32` values.
    pub o_t_ee_c: [u32; 16],
    /// Bits of the `f32` values.
    pub o_dp_ee_c: [u32; 6],
    /// Bits of the `f32` values.
    pub o_ddp_ee_c: [u32; 6],
    /// Bits of the `f32` values.
    pub theta: [u32; 7],
    /// Bits of the `f32` values.
    pub dtheta: [u32; 7],
    /// 6 accelerometers x 3 axes (top PCB), bits of the `f32` values.
    pub accelerometer_top: [[u32; 3]; 6],
    /// 6 accelerometers x 3 axes (bottom PCB), bits of the `f32` values.
    pub accelerometer_bottom: [[u32; 3]; 6],
    pub motion_generator_mode: u8,
    pub controller_mode: u8,
    pub errors: [u8; 41],
    pub reflex_reason: [u8; 41],
    pub robot_mode: u8,
    /// Bits of the `f32` value.
    pub control_command_success_rate: u32,
}

impl RawRobotState {
    /// Size of the robot state on the wire.
    pub const SIZE: usize = 1377;

    /// `r` is the robot state stored in the bytes `b`: its fields in declaration order,
    /// little-endian, one after the other from the first byte.
    pub open spec fn decodes(r: RawRobotState, b: Seq<u8>) -> bool {
        &&& r.message_id == seq_u64_at(b, 0)
        &&& r.o_t_ee@ == seq_u32s_at(b, 8, 16)
        &&& r.o_t_ee_d@ == seq_u32s_at(b, 72, 16)
        &&& r.f_t_ee@ == seq_u32s_at(b, 136, 16)
        &&& r.ee_t_k@ == seq_u32s_at(b, 200, 16)
        &&& r.f_t_ne@ == seq_u32s_at(b, 264, 16)
        &&& r.ne_t_ee@ == seq_u32s_at(b, 328, 16)
        &&& r.m_ee == seq_u32_at(b, 392)
        &&& r.i_ee@ == seq_u32s_at(b, 396, 9)
        &&& r.f_x_cee@ == seq_u32s_at(b, 432, 3)
        &&& r.m_load == seq_u32_at(b, 444)
        &&& r.i_load@ == seq_u32s_at(b, 448, 9)
        &&& r.f_x_cload@ == seq_u32s_at(b, 484, 3)
        &&& r.elbow@ == seq_u32s_at(b, 496, 2)
        &&& r.elbow_d@ == seq_u32s_at(b, 504, 2)
        &&& r.tau_j@ == seq_u32s_at(b, 512, 7)
        &&& r.tau_j_d@ == seq_u32s_at(b, 540, 7)
        &&& r.dtau_j@ == seq_u32s_at(b, 568, 7)
        &&& r.q@ == seq_u32s_at(b, 596, 7)
        &&& r.q_d@ == seq_u32s_at(b, 624, 7)
        &&& r.dq@ == seq_u32s_at(b, 652, 7)
        &&& r.dq_d@ == seq_u32s_at(b, 680, 7)
        &&& r.ddq_d@ == seq_u32s_at(b, 708, 7)
        &&& r.joint_contact@ == seq_u32s_at(b, 736, 7)
        &&& r.cartesian_contact@ == seq_u32s_at(b, 764, 6)
        &&& r.joint_collision@ == seq_u32s_at(b, 788, 7)
        &&& r.cartesian_collision@ == seq_u32s_at(b, 816, 6)
        &&& r.tau_ext_hat_filtered@ == seq_u32s_at(b, 840, 7)
        &&& r.o_f_ext_hat_k@ == seq_u32s_at(b, 868, 6)
        &&& r.k_f_ext_hat_k@ == seq_u32s_at(b, 892, 6)
        &&& r.o_dp_ee_d@ == seq_u32s_at(b, 916, 6)
        &&& r.o_ddp_o@ == seq_u32s_at(b, 940, 3)
        &&& r.elbow_c@ == seq_u32s_at(b, 952, 2)
        &&& r.delbow_c@ == seq_u32s_at(b, 960, 2)
        &&& r.ddelbow_c@ == seq_u32s_at(b, 968, 2)
        &&& r.o_t_ee_c@ == seq_u32s_at(b, 976, 16)
        &&& r.o_dp_ee_c@ == seq_u32s_at(b, 1040, 6)
        &&& r.o_ddp_ee_c@ == seq_u32s_at(b, 1064, 6)
        &&& r.theta@ == seq_u32s_at(b, 1088, 7)
        &&& r.dtheta@ == seq_u32s_at(b, 1116, 7)
        &&& (forall|j: int| 0 <= j < 6 ==> #[trigger] r.accelerometer_top@[j]@ == seq_u32s_at(b, 1144 + 12 * j, 3))
        &&& (forall|j: int| 0 <= j < 6 ==> #[trigger] r.accelerometer_bottom@[j]@ == seq_u32s_at(b, 1216 + 12 * j, 3))
        &&& r.motion_generator_mode == b[1288]
        &&& r.controller_mode == b[1289]
        &&& r.errors@ == b.subrange(1290, 1331)
        &&& r.reflex_reason@ == b.subrange(1331, 1372)
        &&& r.robot_mode == b[1372]
        &&& r.control_command_success_rate == seq_u32_at(b, 1373)
    }

    /// Decodes a state packet of which `received` bytes arrived at the start of `buf`:
    /// a packet shorter than the state is refused with `None`.
    pub fn from_packet(buf: &[u8], received: usize) -> (r: Option<RawRobotState>)
        requires
            received <= buf@.len(),
        ensures
            r is Some <==> received >= 1377,
            r matches Some(s) ==> RawRobotState::decodes(s, buf@),
    {
        if received < 1377 {
            None
        } else {
            Some(RawRobotState::from_bytes(buf))
        }
    }

    /// Decodes the robot state from the first `SIZE` bytes of `bytes`.
    pub fn from_bytes(bytes: &[u8]) -> (r: RawRobotState)
        requires
            bytes@.len() >= 1377,
        ensures
            RawRobotState::decodes(r, bytes@),
    {
        RawRobotState {
            message_id: read_u64_le(bytes, 0),
            o_t_ee: read_u32_array::<16>(bytes, 8),
            o_t_ee_d: read_u32_array::<16>(bytes, 72),
            f_t_ee: read_u32_array::<16>(bytes, 136),
            ee_t_k: read_u32_array::<16>(bytes, 200),
            f_t_ne: read_u32_array::<16>(bytes, 264),
            ne_t_ee: read_u32_array::<16>(bytes, 328),
            m_ee: read_u32_le(bytes, 392),
            i_ee: read_u32_array::<9>(bytes, 396),
            f_x_cee: read_u32_array::<3>(bytes, 432),
            m_load: read_u32_le(bytes, 444),
            i_load: read_u32_array::<9>(bytes, 448),
            f_x_cload: read_u32_array::<3>(bytes, 484),
            elbow: read_u32_array::<2>(bytes, 496),
            elbow_d: read_u32_array::<2>(bytes, 504),
            tau_j: read_u32_array::<7>(bytes, 512),
            tau_j_d: read_u32_array::<7>(bytes, 540),
            dtau_j: read_u32_array::<7>(bytes, 568),
            q: read_u32_array::<7>(bytes, 596),
            q_d: read_u32_array::<7>(bytes, 624),
            dq: read_u32_array::<7>(bytes, 652),
            dq_d: read_u32_array::<7>(bytes, 680),
            ddq_d: read_u32_array::<7>(bytes, 708),
            joint_contact: read_u32_array::<7>(bytes, 736),
            cartesian_contact: read_u32_array::<6>(bytes, 764),
            joint_collision: read_u32_array::<7>(bytes, 788),
            cartesian_collision: read_u32_array::<6>(bytes, 816),
            tau_ext_hat_filtered: read_u32_array::<7>(bytes, 840),
            o_f_ext_hat_k: read_u32_array::<6>(bytes, 868),
            k_f_ext_hat_k: read_u32_array::<6>(bytes, 892),
            o_dp_ee_d: read_u32_array::<6>(bytes, 916),
            o_ddp_o: read_u32_array::<3>(bytes, 940),
            elbow_c: read_u32_array::<2>(bytes, 952),
            delbow_c: read_u32_array::<2>(bytes, 960),
            ddelbow_c: read_u32_array::<2>(bytes, 968),
            o_t_ee_c: read_u32_array::<16>(bytes, 976),
            o_dp_ee_c: read_u32_array::<6>(bytes, 1040),
            o_ddp_ee_c: read_u32_array::<6>(bytes, 1064),
            theta: read_u32_array::<7>(bytes, 1088),
            dtheta: read_u32_array::<7>(bytes, 1116),
            accelerometer_top: [read_u32_array::<3>(bytes, 1144), read_u32_array::<3>(bytes, 1156), read_u32_array::<3>(bytes, 1168), read_u32_array::<3>(bytes, 1180), read_u32_array::<3>(bytes, 1192), read_u32_array::<3>(bytes, 1204)],
            accelerometer_bottom: [read_u32_array::<3>(bytes, 1216), read_u32_array::<3>(bytes, 1228), read_u32_array::<3>(bytes, 1240), read_u32_array::<3>(bytes, 1252), read_u32_array::<3>(bytes, 1264), read_u32_array::<3>(bytes, 1276)],
            motion_generator_mode: bytes[1288],
            controller_mode: bytes[1289],
            errors: read_u8_array::<41>(bytes, 1290),
            reflex_reason: read_u8_array::<41>(bytes, 1331),
            robot_mode: bytes[1372],
            control_command_success_rate: read_u32_le(bytes, 1373),
        }
    }
}

/// The boolean reading of a wire flag array: entry `i` is true exactly when byte `i`
/// is not zero.
pub open spec fn flags_as_bools(flags: Seq<u8>) -> Seq<bool> {
    Seq::new(flags.len(), |i: int| flags[i] != 0)
}

/// Reads a wire flag array as booleans: entry `i` is true exactly when byte `i` is not zero.
fn bytes_as_bools(flags: &[u8; 41]) -> (r: [bool; 41])
    ensures
        r@ == flags_as_bools(flags@),
{
    let mut result = [false; 41];
    let mut i: usize = 0;
    while i < 41
        invariant
            i <= 41,
            result@.len() == 41,
            forall|j: int| 0 <= j < i ==> result@[j] == (flags@[j] != 0),
        decreases 41 - i,
    {
        result[i] = flags[i] != 0;
        i = i + 1;
    }
    assert(result@ =~= flags_as_bools(flags@));
    result
}

impl RawRobotState {
    /// Convert wire-format errors (u8 array treated as bools) to a bool array.
    pub fn errors_as_bools(&self) -> (r: [bool; 41])
        ensures
            r@ == flags_as_bools(self.errors@),
    {
        let errors = self.errors;
        bytes_as_bools(&errors)
    }

    /// Convert wire-format reflex reasons to a bool array.
    pub fn reflex_reason_as_bools(&self) -> (r: [bool; 41])
        ensures
            r@ == flags_as_bools(self.reflex_reason@),
    {
        let reflex = self.reflex_reason;
        bytes_as_bools(&reflex)
    }
}

/// Motion generator command sent to the robot over UDP.
#[derive(Debug, Clone, Copy)]
pub struct MotionGeneratorCommand {
    /// Bits of the `f64` values.
    pub q_c: [u64; 7],
    /// Bits of the `f64` values.
    pub dq_c: [u64; 7],
    /// Bits of the `f64` values.
    pub o_t_ee_c: [u64; 16],
    /// Bits of the `f64` values.
    pub o_dp_ee_c: [u64; 6],
    /// Bits of the `f64` values.
    pub elbow_c: [u64; 2],
    pub valid_elbow: u8,
    pub motion_generation_finished: u8,
}

impl MotionGeneratorCommand {
    /// Size of the motion generator command on the wire.
    pub const SIZE: usize = 306;

    /// The motion generator command's bytes on the wire: its fields in declaration order, little-endian.
    pub open spec fn spec_bytes(&self) -> Seq<u8> {
        u64s_le(self.q_c@) + u64s_le(self.dq_c@) + u64s_le(self.o_t_ee_c@) + u64s_le(self.o_dp_ee_c@) + u64s_le(self.elbow_c@) + seq![self.valid_elbow] + seq![self.motion_generation_finished]
    }

    /// Encodes the motion generator command.
    pub fn to_bytes(&self) -> (b: Vec<u8>)
        ensures
            b@ == self.spec_bytes(),
            b@.len() == Self::SIZE,
    {
        let mut out: Vec<u8> = Vec::new();
        push_u64s_le(&mut out, self.q_c.as_slice());
        push_u64s_le(&mut out, self.dq_c.as_slice());
        push_u64s_le(&mut out, self.o_t_ee_c.as_slice());
        push_u64s_le(&mut out, self.o_dp_ee_c.as_slice());
        push_u64s_le(&mut out, self.elbow_c.as_slice());
        out.push(self.valid_elbow);
        out.push(self.motion_generation_finished);
        proof {
            lemma_u64s_le_len(self.q_c@);
            lemma_u64s_le_len(self.dq_c@);
            lemma_u64s_le_len(self.o_t_ee_c@);
            lemma_u64s_le_len(self.o_dp_ee_c@);
            lemma_u64s_le_len(self.elbow_c@);
        }
        assert(out@ =~= self.spec_bytes());
        out
    }
}

/// Controller command sent to the robot over UDP.
#[derive(Debug, Clone, Copy)]
pub struct ControllerCommand {
    /// Bits of the `f64` values.
    pub tau_j_d: [u64; 7],
    pub torque_command_finished: u8,
}

impl ControllerCommand {
    /// Size of the controller command on the wire.
    pub const SIZE: usize = 57;

    /// The controller command's bytes on the wire: its fields in declaration order, little-endian.
    pub open spec fn spec_bytes(&self) -> Seq<u8> {
        u64s_le(self.tau_j_d@) + seq![self.torque_command_finished]
    }

    /// Encodes the controller command.
    pub fn to_bytes(&self) -> (b: Vec<u8>)
        ensures
            b@ == self.spec_bytes(),
            b@.len() == Self::SIZE,
    {
        let mut out: Vec<u8> = Vec::new();
        push_u64s_le(&mut out, self.tau_j_d.as_slice());
        out.push(self.torque_command_finished);
        proof {
            lemma_u64s_le_len(self.tau_j_d@);
        }
        assert(out@ =~= self.spec_bytes());
        out
    }
}

/// Full robot command sent over UDP each control cycle.
#[derive(Debug, Clone, Copy)]
pub struct RobotCommand {
    pub message_id: u64,
    pub motion: MotionGeneratorCommand,
    pub control: ControllerCommand,
}

impl RobotCommand {
    /// Size of the command on the wire.
    pub const SIZE: usize = 371;

    /// The command's bytes on the wire: message id, motion part, control part.
    pub open spec fn spec_bytes(&self) -> Seq<u8> {
        u64_le(self.message_id) + self.motion.spec_bytes() + self.control.spec_bytes()
    }

    /// Encodes the command.
    pub fn to_bytes(self) -> (b: Vec<u8>)
        ensures
            b@ == self.spec_bytes(),
            b@.len() == Self::SIZE,
    {
        let mut out: Vec<u8> = Vec::new();
        push_u64_le(&mut out, self.message_id);
        let motion = self.motion.to_bytes();
        out.extend_from_slice(motion.as_slice());
        let control = self.control.to_bytes();
        out.extend_from_slice(control.as_slice());
        assert(out@ =~= self.spec_bytes());
        out
    }
}

} // verus!
