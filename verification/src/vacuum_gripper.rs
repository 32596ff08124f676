//! The vacuum gripper's profiles and state, and the decisions of its interface.

use vstd::prelude::*;

use crate::errors::{command_failure, protocol_failure, FrankaError, FrankaResult};
use crate::text::{concat_text, decimal, owned_text, text_then_number};
use crate::wire::le_bytes::{read_u16_le, seq_u16_at};
use crate::wire::vacuum::{
    Command, DeviceStatus, Profile, RawVacuumGripperState, VacuumGripperStatus, VacuumRequest,
};

verus! {

/// Production setup profile for the vacuum gripper.
#[derive(Debug, Clone, Copy, PartialEq, Eq, Structural)]
pub enum VacuumProfile {
    P0,
    P1,
    P2,
    P3,
}

impl VacuumProfile {
    /// The profile's code on the wire.
    pub open spec fn spec_to_wire(self) -> u8 {
        match self {
            VacuumProfile::P0 => 0,
            VacuumProfile::P1 => 1,
            VacuumProfile::P2 => 2,
            VacuumProfile::P3 => 3,
        }
    }

    /// The profile's code on the wire.
    pub fn to_wire(self) -> (c: u8)
        ensures
            c == self.spec_to_wire(),
    {
        match self {
            VacuumProfile::P0 => 0,
            VacuumProfile::P1 => 1,
            VacuumProfile::P2 => 2,
            VacuumProfile::P3 => 3,
        }
    }
}

/// Device status of the vacuum gripper.
#[derive(Debug, Clone, Copy, PartialEq, Eq, Structural)]
pub enum VacuumDeviceStatus {
    /// Device is working optimally.
    Green,
    /// Device is working but there are warnings.
    Yellow,
    /// Device is working but there are severe warnings.
    Orange,
    /// Device is not working properly.
    Red,
}

/// Current state of the vacuum gripper.
#[derive(Debug, Clone)]
pub struct VacuumGripperState {
    /// Vacuum value is within the setpoint area.
    pub in_control_range: bool,
    /// The part has been detached after a suction cycle.
    pub part_detached: bool,
    /// Vacuum is over H2 threshold (part present).
    pub part_present: bool,
    /// Current device status.
    pub device_status: VacuumDeviceStatus,
    /// Current actual power in percent.
    pub actual_power: u16,
    /// Current system vacuum in mbar.
    pub vacuum: u16,
}

/// The device status that a wire code reports; codes without a status read as `Red`.
pub open spec fn spec_device_status_from_wire(code: u8) -> VacuumDeviceStatus {
    match DeviceStatus::spec_from_u8(code) {
        Some(DeviceStatus::Green) => VacuumDeviceStatus::Green,
        Some(DeviceStatus::Yellow) => VacuumDeviceStatus::Yellow,
        Some(DeviceStatus::Orange) => VacuumDeviceStatus::Orange,
        Some(DeviceStatus::Red) => VacuumDeviceStatus::Red,
        None => VacuumDeviceStatus::Red,
    }
}

impl VacuumGripperState {
    /// The state reported by a raw state packet: flags are true when their byte is not
    /// zero, unknown device status codes read as `Red`, and the power and vacuum keep the
    /// low 16 bits of their wire values.
    pub fn from_raw(raw: &RawVacuumGripperState) -> (s: VacuumGripperState)
        ensures
            s.in_control_range == (raw.in_control_range != 0),
            s.part_detached == (raw.part_detached != 0),
            s.part_present == (raw.part_present != 0),
            s.device_status == spec_device_status_from_wire(raw.device_status),
            s.actual_power == raw.actual_power as u16,
            s.vacuum == raw.vacuum as u16,
    {
        let device_status = match DeviceStatus::from_u8(raw.device_status) {
            Some(DeviceStatus::Green) => VacuumDeviceStatus::Green,
            Some(DeviceStatus::Yellow) => VacuumDeviceStatus::Yellow,
            Some(DeviceStatus::Orange) => VacuumDeviceStatus::Orange,
            Some(DeviceStatus::Red) => VacuumDeviceStatus::Red,
            None => VacuumDeviceStatus::Red,
        };
        VacuumGripperState {
            in_control_range: raw.in_control_range != 0,
            part_detached: raw.part_detached != 0,
            part_present: raw.part_present != 0,
            device_status,
            actual_power: raw.actual_power as u16,
            vacuum: raw.vacuum as u16,
        }
    }
}

/// The vacuum request for a setpoint (in units of 10 mbar), a timeout in milliseconds and
/// a profile.
pub fn vacuum_request(vacuum_setpoint: u8, timeout_ms: u64, profile: VacuumProfile) -> (r:
    VacuumRequest)
    ensures
        r.vacuum == vacuum_setpoint,
        r.profile == profile.spec_to_wire(),
        r.timeout_ms == timeout_ms,
{
    VacuumRequest { vacuum: vacuum_setpoint, profile: profile.to_wire(), timeout_ms }
}

/// The status of a vacuum gripper response: the 16-bit value after the 10-byte header.
/// A response shorter than 12 bytes is a protocol error, a status without a meaning too.
pub fn parse_vacuum_status(response_bytes: &[u8]) -> (r: FrankaResult<VacuumGripperStatus>)
    ensures
        response_bytes@.len() < 12 ==> protocol_failure(
            r,
            "vacuum gripper response too short"@,
        ),
        response_bytes@.len() >= 12 ==> {
            let code = seq_u16_at(response_bytes@, 10);
            match VacuumGripperStatus::spec_from_u16(code) {
                Some(s) => r == Ok::<VacuumGripperStatus, FrankaError>(s),
                None => protocol_failure(
                    r,
                    "unknown vacuum gripper status: "@ + decimal(code as nat),
                ),
            }
        },
        response_bytes@.len() >= 12 ==> forall|c: crate::wire::vacuum::CommandResponse|
            crate::wire::vacuum::CommandResponse::decodes(
                c,
                response_bytes@.skip(crate::wire::vacuum::CommandHeader::SIZE as int),
            ) ==> match VacuumGripperStatus::spec_from_u16(c.status) {
                Some(s) => r == Ok::<VacuumGripperStatus, FrankaError>(s),
                None => r is Err,
            },
{
    if response_bytes.len() < 12 {
        return Err(
            FrankaError::Protocol { message: owned_text("vacuum gripper response too short") },
        );
    }
    let status_u16 = read_u16_le(response_bytes, 10);
    match VacuumGripperStatus::from_u16(status_u16) {
        Some(s) => Ok(s),
        None => Err(
            FrankaError::Protocol {
                message: text_then_number("unknown vacuum gripper status: ", status_u16 as u64),
            },
        ),
    }
}

/// What a vacuum gripper command's status means: success is `true`, an unsuccessful
/// attempt `false`, failure and abortion are command errors naming the command.
pub fn vacuum_command_result(command: Command, status: VacuumGripperStatus) -> (r: FrankaResult<
    bool,
>)
    ensures
        status == VacuumGripperStatus::Success ==> r == Ok::<bool, FrankaError>(true),
        status == VacuumGripperStatus::Unsuccessful ==> r == Ok::<bool, FrankaError>(false),
        status == VacuumGripperStatus::Fail ==> command_failure(
            r,
            "vacuum gripper command "@ + command.spec_debug_name() + " failed"@,
        ),
        status == VacuumGripperStatus::Aborted ==> command_failure(
            r,
            "vacuum gripper command "@ + command.spec_debug_name() + " aborted"@,
        ),
{
    match status {
        VacuumGripperStatus::Success => Ok(true),
        VacuumGripperStatus::Unsuccessful => Ok(false),
        VacuumGripperStatus::Fail => {
            let m = concat_text("vacuum gripper command ", command.debug_name());
            Err(FrankaError::Command { message: concat_text(m.as_str(), " failed") })
        },
        VacuumGripperStatus::Aborted => {
            let m = concat_text("vacuum gripper command ", command.debug_name());
            Err(FrankaError::Command { message: concat_text(m.as_str(), " aborted") })
        },
    }
}

/// Profile `Pk` travels as the number `k`, the code of the wire profile of the same name.
pub proof fn lemma_vacuum_profile_codes()
    ensures
        VacuumProfile::P0.spec_to_wire() == 0 && Profile::P0.spec_code() == 0,
        VacuumProfile::P1.spec_to_wire() == 1 && Profile::P1.spec_code() == 1,
        VacuumProfile::P2.spec_to_wire() == 2 && Profile::P2.spec_code() == 2,
        VacuumProfile::P3.spec_to_wire() == 3 && Profile::P3.spec_code() == 3,
{
}

/// Device status codes 0 to 3 read as Green, Yellow, Orange and Red; any other code as Red.
pub proof fn lemma_device_status_wire_codes()
    ensures
        spec_device_status_from_wire(0) == VacuumDeviceStatus::Green,
        spec_device_status_from_wire(1) == VacuumDeviceStatus::Yellow,
        spec_device_status_from_wire(2) == VacuumDeviceStatus::Orange,
        spec_device_status_from_wire(3) == VacuumDeviceStatus::Red,
        forall|c: u8| c > 3 ==> #[trigger] spec_device_status_from_wire(c) == VacuumDeviceStatus::Red,
{
}

} // verus!
