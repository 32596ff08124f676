//! Wire format of the vacuum gripper protocol.
//!
//! Fields are packed and little-endian.

use vstd::prelude::*;

use super::le_bytes::{
    lemma_u16_decode_roundtrip, lemma_u16_roundtrip, lemma_u32_decode_roundtrip,
    lemma_u32_roundtrip, push_u16_le, push_u32_le, push_u64_le, read_u16_le, read_u32_le,
    seq_u16_at, seq_u32_at, u16_le, u32_le, u64_le,
};

verus! {

/// Wire-format command enum for the vacuum gripper.
#[derive(Debug, Clone, Copy, PartialEq, Eq, Structural)]
pub enum Command {
    Connect,
    Vacuum,
    DropOff,
    Stop,
}

impl Command {
    /// The value's code on the wire.
    pub open spec fn spec_code(self) -> u16 {
        match self {
            Command::Connect => 0,
            Command::Vacuum => 1,
            Command::DropOff => 2,
            Command::Stop => 3,
        }
    }

    /// The value's code on the wire.
    pub fn code(self) -> (c: u16)
        ensures
            c == self.spec_code(),
    {
        match self {
            Command::Connect => 0,
            Command::Vacuum => 1,
            Command::DropOff => 2,
            Command::Stop => 3,
        }
    }

    /// The variant's name, as `Debug` prints it.
    pub fn debug_name(self) -> (s: &'static str)
        ensures
            s@ == self.spec_debug_name(),
    {
        match self {
            Command::Connect => "Connect",
            Command::Vacuum => "Vacuum",
            Command::DropOff => "DropOff",
            Command::Stop => "Stop",
        }
    }

    /// The variant's name, as `Debug` prints it.
    pub open spec fn spec_debug_name(self) -> Seq<char> {
        match self {
            Command::Connect => "Connect"@,
            Command::Vacuum => "Vacuum"@,
            Command::DropOff => "DropOff"@,
            Command::Stop => "Stop"@,
        }
    }
}

/// Wire-format vacuum profile.
#[derive(Debug, Clone, Copy, PartialEq, Eq, Structural)]
pub enum Profile {
    P0,
    P1,
    P2,
    P3,
}

impl Profile {
    /// The value's code on the wire.
    pub open spec fn spec_code(self) -> u8 {
        match self {
            Profile::P0 => 0,
            Profile::P1 => 1,
            Profile::P2 => 2,
            Profile::P3 => 3,
        }
    }

    /// The value's code on the wire.
    pub fn code(self) -> (c: u8)
        ensures
            c == self.spec_code(),
    {
        match self {
            Profile::P0 => 0,
            Profile::P1 => 1,
            Profile::P2 => 2,
            Profile::P3 => 3,
        }
    }
}

/// Wire-format device status.
#[derive(Debug, Clone, Copy, PartialEq, Eq, Structural)]
pub enum DeviceStatus {
    Green,
    Yellow,
    Orange,
    Red,
}

impl DeviceStatus {
    /// The value's code on the wire.
    pub open spec fn spec_code(self) -> u8 {
        match self {
            DeviceStatus::Green => 0,
            DeviceStatus::Yellow => 1,
            DeviceStatus::Orange => 2,
            DeviceStatus::Red => 3,
        }
    }

    /// The value's code on the wire.
    pub fn code(self) -> (c: u8)
        ensures
            c == self.spec_code(),
    {
        match self {
            DeviceStatus::Green => 0,
            DeviceStatus::Yellow => 1,
            DeviceStatus::Orange => 2,
            DeviceStatus::Red => 3,
        }
    }

    /// The value that the wire code `value` stands for, if any.
    pub open spec fn spec_from_u8(value: u8) -> Option<DeviceStatus> {
        if value == 0 {
            Some(DeviceStatus::Green)
        } else if value == 1 {
            Some(DeviceStatus::Yellow)
        } else if value == 2 {
            Some(DeviceStatus::Orange)
        } else if value == 3 {
            Some(DeviceStatus::Red)
        } else {
            None
        }
    }

    /// Decodes a wire code; codes without a value give `None`.
    pub fn from_u8(value: u8) -> (r: Option<DeviceStatus>)
        ensures
            r == DeviceStatus::spec_from_u8(value),
    {
        match value {
            0 => Some(DeviceStatus::Green),
            1 => Some(DeviceStatus::Yellow),
            2 => Some(DeviceStatus::Orange),
            3 => Some(DeviceStatus::Red),
            _ => None,
        }
    }

    /// Decoding the code of a value gives the value, and exactly the codes below
    /// 4 stand for a value.
    pub proof fn lemma_code_roundtrip(self, value: u8)
        ensures
            DeviceStatus::spec_from_u8(self.spec_code()) == Some(self),
            DeviceStatus::spec_from_u8(value) is Some <==> value < 4,
            DeviceStatus::spec_from_u8(value) matches Some(s) ==> s.spec_code() == value,
    {
    }
}

/// Vacuum gripper TCP message header (10 bytes on the wire).
#[derive(Debug, Clone, Copy)]
pub struct CommandHeader {
    pub command: u16,
    pub command_id: u32,
    /// Total size of the message, header included.
    pub size: u32,
}

impl CommandHeader {
    /// Size of the header on the wire.
    pub const SIZE: usize = 10;

    /// The header's bytes on the wire: command, command id, size.
    pub open spec fn spec_bytes(self) -> Seq<u8> {
        u16_le(self.command) + u32_le(self.command_id) + u32_le(self.size)
    }

    /// The header stored in the first ten bytes of `b`.
    pub open spec fn spec_decode(b: Seq<u8>) -> CommandHeader {
        CommandHeader {
            command: seq_u16_at(b, 0),
            command_id: seq_u32_at(b, 2),
            size: seq_u32_at(b, 6),
        }
    }

    /// Decodes a header from the first `SIZE` bytes of `bytes`.
    pub fn from_bytes(bytes: &[u8]) -> (h: CommandHeader)
        requires
            bytes@.len() >= 10,
        ensures
            h == CommandHeader::spec_decode(bytes@),
    {
        CommandHeader {
            command: read_u16_le(bytes, 0),
            command_id: read_u32_le(bytes, 2),
            size: read_u32_le(bytes, 6),
        }
    }

    /// Encodes the header.
    pub fn to_bytes(self) -> (b: [u8; 10])
        ensures
            b@ == self.spec_bytes(),
    {
        let mut v: Vec<u8> = Vec::new();
        push_u16_le(&mut v, self.command);
        push_u32_le(&mut v, self.command_id);
        push_u32_le(&mut v, self.size);
        let b: [u8; 10] = [v[0], v[1], v[2], v[3], v[4], v[5], v[6], v[7], v[8], v[9]];
        assert(b@ =~= v@);
        b
    }

    /// Decoding an encoded header gives it back.
    pub proof fn lemma_roundtrip(self)
        ensures
            CommandHeader::spec_decode(self.spec_bytes()) == self,
    {
        lemma_u16_roundtrip(self.command);
        lemma_u32_roundtrip(self.command_id);
        lemma_u32_roundtrip(self.size);
    }

    /// Encoding a decoded header gives its bytes back.
    pub proof fn lemma_decode_roundtrip(b: Seq<u8>)
        requires
            b.len() >= 10,
        ensures
            CommandHeader::spec_decode(b).spec_bytes() == b.subrange(0, 10),
    {
        lemma_u16_decode_roundtrip(b[0], b[1]);
        lemma_u32_decode_roundtrip(b[2], b[3], b[4], b[5]);
        lemma_u32_decode_roundtrip(b[6], b[7], b[8], b[9]);
        assert(CommandHeader::spec_decode(b).spec_bytes() =~= b.subrange(0, 10));
    }
}

/// Vacuum gripper connect request.
#[derive(Debug, Clone, Copy)]
pub struct ConnectRequest {
    pub version: u16,
    pub udp_port: u16,
}

impl ConnectRequest {
    /// Size of the connect request on the wire.
    pub const SIZE: usize = 4;

    /// The connect request's bytes on the wire: its fields in declaration order, little-endian.
    pub open spec fn spec_bytes(&self) -> Seq<u8> {
        u16_le(self.version) + u16_le(self.udp_port)
    }

    /// Encodes the connect request.
    pub fn to_bytes(&self) -> (b: Vec<u8>)
        ensures
            b@ == self.spec_bytes(),
            b@.len() == Self::SIZE,
    {
        let mut out: Vec<u8> = Vec::new();
        push_u16_le(&mut out, self.version);
        push_u16_le(&mut out, self.udp_port);
        assert(out@ =~= self.spec_bytes());
        out
    }
}

/// Vacuum gripper connect response.
#[derive(Debug, Clone, Copy)]
pub struct ConnectResponse {
    pub status: u16,
    pub version: u16,
}

impl ConnectResponse {
    /// Size of the connect response on the wire.
    pub const SIZE: usize = 4;

    /// `r` is the connect response stored in the bytes `b`: its fields in declaration order,
    /// little-endian, one after the other from the first byte.
    pub open spec fn decodes(r: ConnectResponse, b: Seq<u8>) -> bool {
        &&& r.status == seq_u16_at(b, 0)
        &&& r.version == seq_u16_at(b, 2)
    }

    /// Decodes the connect response from the first `SIZE` bytes of `bytes`.
    pub fn from_bytes(bytes: &[u8]) -> (r: ConnectResponse)
        requires
            bytes@.len() >= 4,
        ensures
            ConnectResponse::decodes(r, bytes@),
    {
        ConnectResponse {
            status: read_u16_le(bytes, 0),
            version: read_u16_le(bytes, 2),
        }
    }
}

/// Vacuum command request.
#[derive(Debug, Clone, Copy)]
pub struct VacuumRequest {
    pub vacuum: u8,
    pub profile: u8,
    pub timeout_ms: u64,
}

impl VacuumRequest {
    /// Size of the vacuum request on the wire.
    pub const SIZE: usize = 10;

    /// The vacuum request's bytes on the wire: its fields in declaration order, little-endian.
    pub open spec fn spec_bytes(&self) -> Seq<u8> {
        seq![self.vacuum] + seq![self.profile] + u64_le(self.timeout_ms)
    }

    /// Encodes the vacuum request.
    pub fn to_bytes(&self) -> (b: Vec<u8>)
        ensures
            b@ == self.spec_bytes(),
            b@.len() == Self::SIZE,
    {
        let mut out: Vec<u8> = Vec::new();
        out.push(self.vacuum);
        out.push(self.profile);
        push_u64_le(&mut out, self.timeout_ms);
        assert(out@ =~= self.spec_bytes());
        out
    }
}

/// DropOff command request.
#[derive(Debug, Clone, Copy)]
pub struct DropOffRequest {
    pub timeout_ms: u64,
}

impl DropOffRequest {
    /// Size of the drop-off request on the wire.
    pub const SIZE: usize = 8;

    /// The drop-off request's bytes on the wire: its fields in declaration order, little-endian.
    pub open spec fn spec_bytes(&self) -> Seq<u8> {
        u64_le(self.timeout_ms)
    }

    /// Encodes the drop-off request.
    pub fn to_bytes(&self) -> (b: Vec<u8>)
        ensures
            b@ == self.spec_bytes(),
            b@.len() == Self::SIZE,
    {
        let mut out: Vec<u8> = Vec::new();
        push_u64_le(&mut out, self.timeout_ms);
        assert(out@ =~= self.spec_bytes());
        out
    }
}

/// Generic vacuum gripper command response.
#[derive(Debug, Clone, Copy)]
pub struct CommandResponse {
    pub status: u16,
}

impl CommandResponse {
    /// Size of the response on the wire.
    pub const SIZE: usize = 2;

    /// `r` is the response stored in the bytes `b`: its fields in declaration order,
    /// little-endian, one after the other from the first byte.
    pub open spec fn decodes(r: CommandResponse, b: Seq<u8>) -> bool {
        &&& r.status == seq_u16_at(b, 0)
    }

    /// Decodes the response from the first `SIZE` bytes of `bytes`.
    pub fn from_bytes(bytes: &[u8]) -> (r: CommandResponse)
        requires
            bytes@.len() >= 2,
        ensures
            CommandResponse::decodes(r, bytes@),
    {
        CommandResponse {
            status: read_u16_le(bytes, 0),
        }
    }
}

/// Vacuum gripper status codes.
#[derive(Debug, Clone, Copy, PartialEq, Eq, Structural)]
pub enum VacuumGripperStatus {
    Success,
    Fail,
    Unsuccessful,
    Aborted,
}

impl VacuumGripperStatus {
    /// The value's code on the wire.
    pub open spec fn spec_code(self) -> u16 {
        match self {
            VacuumGripperStatus::Success => 0,
            VacuumGripperStatus::Fail => 1,
            VacuumGripperStatus::Unsuccessful => 2,
            VacuumGripperStatus::Aborted => 3,
        }
    }

    /// The value's code on the wire.
    pub fn code(self) -> (c: u16)
        ensures
            c == self.spec_code(),
    {
        match self {
            VacuumGripperStatus::Success => 0,
            VacuumGripperStatus::Fail => 1,
            VacuumGripperStatus::Unsuccessful => 2,
            VacuumGripperStatus::Aborted => 3,
        }
    }

    /// The value that the wire code `value` stands for, if any.
    pub open spec fn spec_from_u16(value: u16) -> Option<VacuumGripperStatus> {
        if value == 0 {
            Some(VacuumGripperStatus::Success)
        } else if value == 1 {
            Some(VacuumGripperStatus::Fail)
        } else if value == 2 {
            Some(VacuumGripperStatus::Unsuccessful)
        } else if value == 3 {
            Some(VacuumGripperStatus::Aborted)
        } else {
            None
        }
    }

    /// Decodes a wire code; codes without a value give `None`.
    pub fn from_u16(value: u16) -> (r: Option<VacuumGripperStatus>)
        ensures
            r == VacuumGripperStatus::spec_from_u16(value),
    {
        match value {
            0 => Some(VacuumGripperStatus::Success),
            1 => Some(VacuumGripperStatus::Fail),
            2 => Some(VacuumGripperStatus::Unsuccessful),
            3 => Some(VacuumGripperStatus::Aborted),
            _ => None,
        }
    }

    /// Decoding the code of a value gives the value, and exactly the codes below
    /// 4 stand for a value.
    pub proof fn lemma_code_roundtrip(self, value: u16)
        ensures
            VacuumGripperStatus::spec_from_u16(self.spec_code()) == Some(self),
            VacuumGripperStatus::spec_from_u16(value) is Some <==> value < 4,
            VacuumGripperStatus::spec_from_u16(value) matches Some(s) ==> s.spec_code() == value,
    {
    }
}

/// Raw vacuum gripper state received over UDP.
#[derive(Debug, Clone, Copy)]
pub struct RawVacuumGripperState {
    pub message_id: u32,
    pub in_control_range: u8,
    pub part_detached: u8,
    pub part_present: u8,
    pub device_status: u8,
    pub actual_power: i32,
    pub vacuum: i32,
}

impl RawVacuumGripperState {
    /// Size of the vacuum gripper state on the wire.
    pub const SIZE: usize = 16;

    /// `r` is the vacuum gripper state stored in the bytes `b`: its fields in declaration order,
    /// little-endian, one after the other from the first byte.
    pub open spec fn decodes(r: RawVacuumGripperState, b: Seq<u8>) -> bool {
        &&& r.message_id == seq_u32_at(b, 0)
        &&& r.in_control_range == b[4]
        &&& r.part_detached == b[5]
        &&& r.part_present == b[6]
        &&& r.device_status == b[7]
        &&& r.actual_power == seq_u32_at(b, 8) as i32
        &&& r.vacuum == seq_u32_at(b, 12) as i32
    }

    /// Decodes the vacuum gripper state from the first `SIZE` bytes of `bytes`.
    pub fn from_bytes(bytes: &[u8]) -> (r: RawVacuumGripperState)
        requires
            bytes@.len() >= 16,
        ensures
            RawVacuumGripperState::decodes(r, bytes@),
    {
        RawVacuumGripperState {
            message_id: read_u32_le(bytes, 0),
            in_control_range: bytes[4],
            part_detached: bytes[5],
            part_present: bytes[6],
            device_status: bytes[7],
            actual_power: read_u32_le(bytes, 8) as i32,
            vacuum: read_u32_le(bytes, 12) as i32,
        }
    }
}

} // verus!
