//! Connection handshakes: the connect requests and the interpretation of the
//! responses of the robot, the gripper and the vacuum gripper.

use vstd::prelude::*;

use crate::constants::{
    GRIPPER_PROTOCOL_VERSION, ROBOT_PROTOCOL_VERSION, VACUUM_GRIPPER_PROTOCOL_VERSION,
};
use crate::errors::{protocol_failure, FrankaError, FrankaResult};
use crate::text::{decimal, owned_text, text_then_number};
use crate::wire::le_bytes::{read_u16_le, seq_u16_at};
use crate::wire::{gripper, robot, vacuum};

verus! {

/// The outcome of a handshake with a response of status `status` and version `version`:
/// status 0 accepts the server's version, status 1 reports incompatible versions, any
/// other status is a protocol error naming it.
pub open spec fn handshake_outcome(
    status: nat,
    version: u16,
    library_version: u16,
    unexpected_prefix: Seq<char>,
    r: FrankaResult<u16>,
) -> bool {
    if status == 0 {
        r == Ok::<u16, FrankaError>(version)
    } else if status == 1 {
        r matches Err(FrankaError::IncompatibleVersion { server_version, library_version: lv })
            && server_version == version && lv == library_version
    } else {
        protocol_failure(r, unexpected_prefix + decimal(status))
    }
}

/// The connect request of the robot protocol: this library's protocol version and the
/// local UDP port that the robot should stream state to.
pub fn robot_connect_request(udp_port: u16) -> (r: robot::ConnectRequest)
    ensures
        r.version == ROBOT_PROTOCOL_VERSION,
        r.udp_port == udp_port,
{
    robot::ConnectRequest { version: ROBOT_PROTOCOL_VERSION, udp_port }
}

/// The connect request of the gripper protocol.
pub fn gripper_connect_request(udp_port: u16) -> (r: gripper::ConnectRequest)
    ensures
        r.version == GRIPPER_PROTOCOL_VERSION,
        r.udp_port == udp_port,
{
    gripper::ConnectRequest { version: GRIPPER_PROTOCOL_VERSION, udp_port }
}

/// The connect request of the vacuum gripper protocol.
pub fn vacuum_gripper_connect_request(udp_port: u16) -> (r: vacuum::ConnectRequest)
    ensures
        r.version == VACUUM_GRIPPER_PROTOCOL_VERSION,
        r.udp_port == udp_port,
{
    vacuum::ConnectRequest { version: VACUUM_GRIPPER_PROTOCOL_VERSION, udp_port }
}

/// The server's protocol version from the robot's connect response: header (12), then
/// the status byte and the version. A response shorter than 15 bytes is a protocol error.
pub fn robot_connect_response_result(response_bytes: &[u8]) -> (r: FrankaResult<u16>)
    ensures
        response_bytes@.len() < 15 ==> protocol_failure(r, "Connect response too short"@),
        response_bytes@.len() >= 15 ==> handshake_outcome(
            response_bytes@[12] as nat,
            seq_u16_at(response_bytes@, 13),
            ROBOT_PROTOCOL_VERSION,
            "unexpected connect status: "@,
            r,
        ),
        response_bytes@.len() >= robot::CommandHeader::SIZE + robot::ConnectResponse::SIZE
            ==> forall|c: robot::ConnectResponse|
            robot::ConnectResponse::decodes(c, response_bytes@.skip(robot::CommandHeader::SIZE as int))
                ==> handshake_outcome(
                c.status as nat,
                c.version,
                ROBOT_PROTOCOL_VERSION,
                "unexpected connect status: "@,
                r,
            ),
{
    if response_bytes.len() < 15 {
        return Err(FrankaError::Protocol { message: owned_text("Connect response too short") });
    }
    let status = response_bytes[12];
    let version = read_u16_le(response_bytes, 13);
    match status {
        0 => Ok(version),
        1 => Err(
            FrankaError::IncompatibleVersion {
                server_version: version,
                library_version: ROBOT_PROTOCOL_VERSION,
            },
        ),
        _ => Err(
            FrankaError::Protocol {
                message: text_then_number("unexpected connect status: ", status as u64),
            },
        ),
    }
}

/// The outcome of a gripper-style handshake, whose response carries a 16-bit status and
/// the version after a header of `header_size` bytes.
fn device_connect_result(
    response_bytes: &[u8],
    library_version: u16,
    too_short: &str,
    unexpected_prefix: &str,
) -> (r: FrankaResult<u16>)
    ensures
        response_bytes@.len() < 14 ==> protocol_failure(r, too_short@),
        response_bytes@.len() >= 14 ==> handshake_outcome(
            seq_u16_at(response_bytes@, 10) as nat,
            seq_u16_at(response_bytes@, 12),
            library_version,
            unexpected_prefix@,
            r,
        ),
{
    if response_bytes.len() < 14 {
        return Err(FrankaError::Protocol { message: owned_text(too_short) });
    }
    let status = read_u16_le(response_bytes, 10);
    let version = read_u16_le(response_bytes, 12);
    if status == 0 {
        Ok(version)
    } else if status == 1 {
        Err(FrankaError::IncompatibleVersion { server_version: version, library_version })
    } else {
        Err(FrankaError::Protocol { message: text_then_number(unexpected_prefix, status as u64) })
    }
}

/// The server's protocol version from the gripper's connect response: header (10),
/// then the 16-bit status and the version. A response shorter than 14 bytes is a
/// protocol error.
pub fn gripper_connect_response_result(response_bytes: &[u8]) -> (r: FrankaResult<u16>)
    ensures
        response_bytes@.len() < 14 ==> protocol_failure(
            r,
            "Gripper connect response too short"@,
        ),
        response_bytes@.len() >= 14 ==> handshake_outcome(
            seq_u16_at(response_bytes@, 10) as nat,
            seq_u16_at(response_bytes@, 12),
            GRIPPER_PROTOCOL_VERSION,
            "unexpected gripper connect status: "@,
            r,
        ),        response_bytes@.len() >= gripper::CommandHeader::SIZE + gripper::ConnectResponse::SIZE
            ==> forall|c: gripper::ConnectResponse|
            gripper::ConnectResponse::decodes(c, response_bytes@.skip(gripper::CommandHeader::SIZE as int))
                ==> handshake_outcome(
                c.status as nat,
                c.version,
                GRIPPER_PROTOCOL_VERSION,
                "unexpected gripper connect status: "@,
                r,
            ),
{
    device_connect_result(
        response_bytes,
        GRIPPER_PROTOCOL_VERSION,
        "Gripper connect response too short",
        "unexpected gripper connect status: ",
    )
}

/// The server's protocol version from the vacuum gripper's connect response: header
/// (10), then the 16-bit status and the version. A response shorter than 14 bytes is a
/// protocol error.
pub fn vacuum_gripper_connect_response_result(response_bytes: &[u8]) -> (r: FrankaResult<u16>)
    ensures
        response_bytes@.len() < 14 ==> protocol_failure(
            r,
            "Vacuum gripper connect response too short"@,
        ),
        response_bytes@.len() >= 14 ==> handshake_outcome(
            seq_u16_at(response_bytes@, 10) as nat,
            seq_u16_at(response_bytes@, 12),
            VACUUM_GRIPPER_PROTOCOL_VERSION,
            "unexpected vacuum gripper connect status: "@,
            r,
        ),        response_bytes@.len() >= vacuum::CommandHeader::SIZE + vacuum::ConnectResponse::SIZE
            ==> forall|c: vacuum::ConnectResponse|
            vacuum::ConnectResponse::decodes(c, response_bytes@.skip(vacuum::CommandHeader::SIZE as int))
                ==> handshake_outcome(
                c.status as nat,
                c.version,
                VACUUM_GRIPPER_PROTOCOL_VERSION,
                "unexpected vacuum gripper connect status: "@,
                r,
            ),
{
    device_connect_result(
        response_bytes,
        VACUUM_GRIPPER_PROTOCOL_VERSION,
        "Vacuum gripper connect response too short",
        "unexpected vacuum gripper connect status: ",
    )
}

} // verus!
