//! Decisions of the parallel gripper interface: the status of a response and what it
//! means for a command.

use vstd::prelude::*;

use crate::errors::{command_failure, protocol_failure, FrankaError, FrankaResult};
use crate::text::{concat_text, decimal, owned_text, text_then_number};
use crate::wire::gripper::{Command, GripperStatus};
use crate::wire::le_bytes::{read_u16_le, seq_u16_at};

verus! {

/// The status of a gripper response: the 16-bit value after the 10-byte gripper header.
/// A response shorter than 12 bytes is a protocol error, a status without a meaning too.
pub fn parse_gripper_status(response_bytes: &[u8]) -> (r: FrankaResult<GripperStatus>)
    ensures
        response_bytes@.len() < 12 ==> protocol_failure(r, "gripper response too short"@),
        response_bytes@.len() >= 12 ==> {
            let code = seq_u16_at(response_bytes@, 10);
            match GripperStatus::spec_from_u16(code) {
                Some(s) => r == Ok::<GripperStatus, FrankaError>(s),
                None => protocol_failure(r, "unknown gripper status: "@ + decimal(code as nat)),
            }
        },
        response_bytes@.len() >= 12 ==> forall|c: crate::wire::gripper::CommandResponse|
            crate::wire::gripper::CommandResponse::decodes(
                c,
                response_bytes@.skip(crate::wire::gripper::CommandHeader::SIZE as int),
            ) ==> match GripperStatus::spec_from_u16(c.status) {
                Some(s) => r == Ok::<GripperStatus, FrankaError>(s),
                None => r is Err,
            },
{
    if response_bytes.len() < 12 {
        return Err(FrankaError::Protocol { message: owned_text("gripper response too short") });
    }
    let status_u16 = read_u16_le(response_bytes, 10);
    match GripperStatus::from_u16(status_u16) {
        Some(s) => Ok(s),
        None => Err(
            FrankaError::Protocol {
                message: text_then_number("unknown gripper status: ", status_u16 as u64),
            },
        ),
    }
}

/// What a gripper command's status means: success is `true`, an unsuccessful attempt
/// `false`, failure and abortion are command errors naming the command.
pub fn gripper_command_result(command: Command, status: GripperStatus) -> (r: FrankaResult<bool>)
    ensures
        status == GripperStatus::Success ==> r == Ok::<bool, FrankaError>(true),
        status == GripperStatus::Unsuccessful ==> r == Ok::<bool, FrankaError>(false),
        status == GripperStatus::Fail ==> command_failure(
            r,
            "gripper command "@ + command.spec_debug_name() + " failed"@,
        ),
        status == GripperStatus::Aborted ==> command_failure(
            r,
            "gripper command "@ + command.spec_debug_name() + " aborted"@,
        ),
{
    match status {
        GripperStatus::Success => Ok(true),
        GripperStatus::Unsuccessful => Ok(false),
        GripperStatus::Fail => {
            let m = concat_text("gripper command ", command.debug_name());
            Err(FrankaError::Command { message: concat_text(m.as_str(), " failed") })
        },
        GripperStatus::Aborted => {
            let m = concat_text("gripper command ", command.debug_name());
            Err(FrankaError::Command { message: concat_text(m.as_str(), " aborted") })
        },
    }
}

/// The result of a gripper command given its whole response.
pub fn gripper_response_result(command: Command, response_bytes: &[u8]) -> (r: FrankaResult<
    bool,
>)
    ensures
        response_bytes@.len() < 12 ==> protocol_failure(r, "gripper response too short"@),
        response_bytes@.len() >= 12 ==> {
            let code = seq_u16_at(response_bytes@, 10);
            &&& GripperStatus::spec_from_u16(code) is None ==> protocol_failure(
                r,
                "unknown gripper status: "@ + decimal(code as nat),
            )
            &&& GripperStatus::spec_from_u16(code) == Some(GripperStatus::Success) ==> r == Ok::<
                bool,
                FrankaError,
            >(true)
            &&& GripperStatus::spec_from_u16(code) == Some(GripperStatus::Unsuccessful) ==> r
                == Ok::<bool, FrankaError>(false)
            &&& GripperStatus::spec_from_u16(code) == Some(GripperStatus::Fail) ==> command_failure(
                r,
                "gripper command "@ + command.spec_debug_name() + " failed"@,
            )
            &&& GripperStatus::spec_from_u16(code) == Some(GripperStatus::Aborted)
                ==> command_failure(
                r,
                "gripper command "@ + command.spec_debug_name() + " aborted"@,
            )
        },
{
    let status = parse_gripper_status(response_bytes)?;
    gripper_command_result(command, status)
}

} // verus!
