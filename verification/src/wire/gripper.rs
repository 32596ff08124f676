//! Wire format of the gripper protocol.
//!
//! Fields are packed and little-endian; floating-point fields travel as their
//! IEEE-754 bit patterns, which the structs below hold.

use vstd::prelude::*;

use super::le_bytes::{
    lemma_u16_decode_roundtrip, lemma_u16_roundtrip, lemma_u32_decode_roundtrip,
    lemma_u32_roundtrip, push_u16_le, push_u32_le, push_u64_le, read_u16_le, read_u32_le,
    read_u64_le, seq_u16_at, seq_u32_at, seq_u64_at, u16_le, u32_le, u64_le,
};

verus! {

/// Wire-format command enum for the gripper.
#[derive(Debug, Clone, Copy, PartialEq, Eq, Structural)]
pub enum Command {
    Connect,
    Homing,
    Grasp,
    Move,
    Stop,
}

impl Command {
    /// The value's code on the wire.
    pub open spec fn spec_code(self) -> u16 {
        match self {
            Command::Connect => 0,
            Command::Homing => 1,
            Command::Grasp => 2,
            Command::Move => 3,
            Command::Stop => 4,
        }
    }

    /// The value's code on the wire.
    pub fn code(self) -> (c: u16)
        ensures
            c == self.spec_code(),
    {
        match self {
            Command::Connect => 0,
            Command::Homing => 1,
            Command::Grasp => 2,
            Command::Move => 3,
            Command::Stop => 4,
        }
    }

    /// The variant's name, as `Debug` prints it.
    pub fn debug_name(self) -> (s: &'static str)
        ensures
            s@ == self.spec_debug_name(),
    {
        match self {
            Command::Connect => "Connect",
            Command::Homing => "Homing",
            Command::Grasp => "Grasp",
            Command::Move => "Move",
            Command::Stop => "Stop",
        }
    }

    /// The variant's name, as `Debug` prints it.
    pub open spec fn spec_debug_name(self) -> Seq<char> {
        match self {
            Command::Connect => "Connect"@,
            Command::Homing => "Homing"@,
            Command::Grasp => "Grasp"@,
            Command::Move => "Move"@,
            Command::Stop => "Stop"@,
        }
    }
}

/// Gripper TCP message header (10 bytes on the wire).
#[derive(Debug, Clone, Copy)]
pub struct CommandHeader {
    pub command: u16,
    pub command_id: u32,
    /// Total size of the message, header included.
    pub size: u32,
}

impl CommandHeader {
    /// Size of the header on the wire.
    pub const SIZE: usize = 10;

    /// The header's bytes on the wire: command, command id, size.
    pub open spec fn spec_bytes(self) -> Seq<u8> {
        u16_le(self.command) + u32_le(self.command_id) + u32_le(self.size)
    }

    /// The header stored in the first ten bytes of `b`.
    pub open spec fn spec_decode(b: Seq<u8>) -> CommandHeader {
        CommandHeader {
            command: seq_u16_at(b, 0),
            command_id: seq_u32_at(b, 2),
            size: seq_u32_at(b, 6),
        }
    }

    /// Decodes a header from the first `SIZE` bytes of `bytes`.
    pub fn from_bytes(bytes: &[u8]) -> (h: CommandHeader)
        requires
            bytes@.len() >= 10,
        ensures
            h == CommandHeader::spec_decode(bytes@),
    {
        CommandHeader {
            command: read_u16_le(bytes, 0),
            command_id: read_u32_le(bytes, 2),
            size: read_u32_le(bytes, 6),
        }
    }

    /// Encodes the header.
    pub fn to_bytes(self) -> (b: [u8; 10])
        ensures
            b@ == self.spec_bytes(),
    {
        let mut v: Vec<u8> = Vec::new();
        push_u16_le(&mut v, self.command);
        push_u32_le(&mut v, self.command_id);
        push_u32_le(&mut v, self.size);
        let b: [u8; 10] = [v[0], v[1], v[2], v[3], v[4], v[5], v[6], v[7], v[8], v[9]];
        assert(b@ =~= v@);
        b
    }

    /// Decoding an encoded header gives it back.
    pub proof fn lemma_roundtrip(self)
        ensures
            CommandHeader::spec_decode(self.spec_bytes()) == self,
    {
        lemma_u16_roundtrip(self.command);
        lemma_u32_roundtrip(self.command_id);
        lemma_u32_roundtrip(self.size);
    }

    /// Encoding a decoded header gives its bytes back.
    pub proof fn lemma_decode_roundtrip(b: Seq<u8>)
        requires
            b.len() >= 10,
        ensures
            CommandHeader::spec_decode(b).spec_bytes() == b.subrange(0, 10),
    {
        lemma_u16_decode_roundtrip(b[0], b[1]);
        lemma_u32_decode_roundtrip(b[2], b[3], b[4], b[5]);
        lemma_u32_decode_roundtrip(b[6], b[7], b[8], b[9]);
        assert(CommandHeader::spec_decode(b).spec_bytes() =~= b.subrange(0, 10));
    }
}

/// Gripper connect request.
#[derive(Debug, Clone, Copy)]
pub struct ConnectRequest {
    pub version: u16,
    pub udp_port: u16,
}

impl ConnectRequest {
    /// Size of the connect request on the wire.
    pub const SIZE: usize = 4;

    /// The connect request's bytes on the wire: its fields in declaration order, little-endian.
    pub open spec fn spec_bytes(&self) -> Seq<u8> {
        u16_le(self.version) + u16_le(self.udp_port)
    }

    /// Encodes the connect request.
    pub fn to_bytes(&self) -> (b: Vec<u8>)
        ensures
            b@ == self.spec_bytes(),
            b@.len() == Self::SIZE,
    {
        let mut out: Vec<u8> = Vec::new();
        push_u16_le(&mut out, self.version);
        push_u16_le(&mut out, self.udp_port);
        assert(out@ =~= self.spec_bytes());
        out
    }
}

/// Gripper connect response.
#[derive(Debug, Clone, Copy)]
pub struct ConnectResponse {
    pub status: u16,
    pub version: u16,
}

impl ConnectResponse {
    /// Size of the connect response on the wire.
    pub const SIZE: usize = 4;

    /// `r` is the connect response stored in the bytes `b`: its fields in declaration order,
    /// little-endian, one after the other from the first byte.
    pub open spec fn decodes(r: ConnectResponse, b: Seq<u8>) -> bool {
        &&& r.status == seq_u16_at(b, 0)
        &&& r.version == seq_u16_at(b, 2)
    }

    /// Decodes the connect response from the first `SIZE` bytes of `bytes`.
    pub fn from_bytes(bytes: &[u8]) -> (r: ConnectResponse)
        requires
            bytes@.len() >= 4,
        ensures
            ConnectResponse::decodes(r, bytes@),
    {
        ConnectResponse {
            status: read_u16_le(bytes, 0),
            version: read_u16_le(bytes, 2),
        }
    }
}

/// Gripper grasp request.
#[derive(Debug, Clone, Copy)]
pub struct GraspRequest {
    /// Bits of the `f64` value.
    pub width: u64,
    /// Bits of the `f64` value.
    pub epsilon_inner: u64,
    /// Bits of the `f64` value.
    pub epsilon_outer: u64,
    /// Bits of the `f64` value.
    pub speed: u64,
    /// Bits of the `f64` value.
    pub force: u64,
}

impl GraspRequest {
    /// Size of the grasp request on the wire.
    pub const SIZE: usize = 40;

    /// The grasp request's bytes on the wire: its fields in declaration order, little-endian.
    pub open spec fn spec_bytes(&self) -> Seq<u8> {
        u64_le(self.width) + u64_le(self.epsilon_inner) + u64_le(self.epsilon_outer) + u64_le(self.speed) + u64_le(self.force)
    }

    /// Encodes the grasp request.
    pub fn to_bytes(&self) -> (b: Vec<u8>)
        ensures
            b@ == self.spec_bytes(),
            b@.len() == Self::SIZE,
    {
        let mut out: Vec<u8> = Vec::new();
        push_u64_le(&mut out, self.width);
        push_u64_le(&mut out, self.epsilon_inner);
        push_u64_le(&mut out, self.epsilon_outer);
        push_u64_le(&mut out, self.speed);
        push_u64_le(&mut out, self.force);
        assert(out@ =~= self.spec_bytes());
        out
    }
}

/// Gripper move request.
#[derive(Debug, Clone, Copy)]
pub struct MoveRequest {
    /// Bits of the `f64` value.
    pub width: u64,
    /// Bits of the `f64` value.
    pub speed: u64,
}

impl MoveRequest {
    /// Size of the move request on the wire.
    pub const SIZE: usize = 16;

    /// The move request's bytes on the wire: its fields in declaration order, little-endian.
    pub open spec fn spec_bytes(&self) -> Seq<u8> {
        u64_le(self.width) + u64_le(self.speed)
    }

    /// Encodes the move request.
    pub fn to_bytes(&self) -> (b: Vec<u8>)
        ensures
            b@ == self.spec_bytes(),
            b@.len() == Self::SIZE,
    {
        let mut out: Vec<u8> = Vec::new();
        push_u64_le(&mut out, self.width);
        push_u64_le(&mut out, self.speed);
        assert(out@ =~= self.spec_bytes());
        out
    }
}

/// Generic gripper command response.
#[derive(Debug, Clone, Copy)]
pub struct CommandResponse {
    pub status: u16,
}

impl CommandResponse {
    /// Size of the response on the wire.
    pub const SIZE: usize = 2;

    /// `r` is the response stored in the bytes `b`: its fields in declaration order,
    /// little-endian, one after the other from the first byte.
    pub open spec fn decodes(r: CommandResponse, b: Seq<u8>) -> bool {
        &&& r.status == seq_u16_at(b, 0)
    }

    /// Decodes the response from the first `SIZE` bytes of `bytes`.
    pub fn from_bytes(bytes: &[u8]) -> (r: CommandResponse)
        requires
            bytes@.len() >= 2,
        ensures
            CommandResponse::decodes(r, bytes@),
    {
        CommandResponse {
            status: read_u16_le(bytes, 0),
        }
    }
}

/// Gripper status codes.
#[derive(Debug, Clone, Copy, PartialEq, Eq, Structural)]
pub enum GripperStatus {
    Success,
    Fail,
    Unsuccessful,
    Aborted,
}

impl GripperStatus {
    /// The value's code on the wire.
    pub open spec fn spec_code(self) -> u16 {
        match self {
            GripperStatus::Success => 0,
            GripperStatus::Fail => 1,
            GripperStatus::Unsuccessful => 2,
            GripperStatus::Aborted => 3,
        }
    }

    /// The value's code on the wire.
    pub fn code(self) -> (c: u16)
        ensures
            c == self.spec_code(),
    {
        match self {
            GripperStatus::Success => 0,
            GripperStatus::Fail => 1,
            GripperStatus::Unsuccessful => 2,
            GripperStatus::Aborted => 3,
        }
    }

    /// The value that the wire code `value` stands for, if any.
    pub open spec fn spec_from_u16(value: u16) -> Option<GripperStatus> {
        if value == 0 {
            Some(GripperStatus::Success)
        } else if value == 1 {
            Some(GripperStatus::Fail)
        } else if value == 2 {
            Some(GripperStatus::Unsuccessful)
        } else if value == 3 {
            Some(GripperStatus::Aborted)
        } else {
            None
        }
    }

    /// Decodes a wire code; codes without a value give `None`.
    pub fn from_u16(value: u16) -> (r: Option<GripperStatus>)
        ensures
            r == GripperStatus::spec_from_u16(value),
    {
        match value {
            0 => Some(GripperStatus::Success),
            1 => Some(GripperStatus::Fail),
            2 => Some(GripperStatus::Unsuccessful),
            3 => Some(GripperStatus::Aborted),
            _ => None,
        }
    }

    /// Decoding the code of a value gives the value, and exactly the codes below
    /// 4 stand for a value.
    pub proof fn lemma_code_roundtrip(self, value: u16)
        ensures
            GripperStatus::spec_from_u16(self.spec_code()) == Some(self),
            GripperStatus::spec_from_u16(value) is Some <==> value < 4,
            GripperStatus::spec_from_u16(value) matches Some(s) ==> s.spec_code() == value,
    {
    }
}

/// Raw gripper state received over UDP.
#[derive(Debug, Clone, Copy)]
pub struct RawGripperState {
    pub message_id: u32,
    /// Bits of the `f64` value.
    pub width: u64,
    /// Bits of the `f64` value.
    pub max_width: u64,
    pub is_grasped: u8,
    pub temperature: u16,
}

impl RawGripperState {
    /// Size of the gripper state on the wire.
    pub const SIZE: usize = 23;

    /// `r` is the gripper state stored in the bytes `b`: its fields in declaration order,
    /// little-endian, one after the other from the first byte.
    pub open spec fn decodes(r: RawGripperState, b: Seq<u8>) -> bool {
        &&& r.message_id == seq_u32_at(b, 0)
        &&& r.width == seq_u64_at(b, 4)
        &&& r.max_width == seq_u64_at(b, 12)
        &&& r.is_grasped == b[20]
        &&& r.temperature == seq_u16_at(b, 21)
    }

    /// Decodes the gripper state from the first `SIZE` bytes of `bytes`.
    pub fn from_bytes(bytes: &[u8]) -> (r: RawGripperState)
        requires
            bytes@.len() >= 23,
        ensures
            RawGripperState::decodes(r, bytes@),
    {
        RawGripperState {
            message_id: read_u32_le(bytes, 0),
            width: read_u64_le(bytes, 4),
            max_width: read_u64_le(bytes, 12),
            is_grasped: bytes[20],
            temperature: read_u16_le(bytes, 21),
        }
    }
}

} // verus!
