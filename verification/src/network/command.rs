//! Interpretation of the robot's responses to TCP commands.

use vstd::prelude::*;

use crate::errors::{
    command_failure, is_command_error, is_protocol_error, protocol_failure, FrankaError,
    FrankaResult,
};
use crate::text::{concat_text, decimal, owned_text, text_then_number};
use crate::utf8::{string_from_utf8, utf8_error_text};
use crate::wire::robot::{CommandHeader, CommandResponse, GetterSetterStatus};

verus! {

/// The status byte of a response: the first byte after the 12-byte header.
pub open spec fn response_status(response: Seq<u8>) -> u8 {
    response[12]
}

/// The error text for a response without a status byte.
pub open spec fn no_status_text() -> Seq<char> {
    "response too short to contain status"@
}

/// Extract the status byte from a response message: refused with a protocol error when
/// the response ends with (or before the end of) its header.
pub fn parse_response_status(response_bytes: &[u8]) -> (r: FrankaResult<u8>)
    ensures
        r is Ok <==> response_bytes@.len() > 12,
        r matches Ok(s) ==> s == response_status(response_bytes@),
        r matches Ok(s) ==> forall|c: CommandResponse|
            CommandResponse::decodes(c, response_bytes@.skip(CommandHeader::SIZE as int))
                ==> s == c.status,
        r matches Err(e) ==> is_protocol_error(e, no_status_text()),
{
    if response_bytes.len() <= 12 {
        return Err(FrankaError::Protocol { message: owned_text("response too short to contain status") });
    }
    Ok(response_bytes[12])
}

/// What a setter command's status byte means: success, one of the three refusals (a
/// command error), or an unknown status (a protocol error).
pub open spec fn setter_outcome(status: u8, r: FrankaResult<()>) -> bool {
    match GetterSetterStatus::spec_from_u8(status) {
        Some(GetterSetterStatus::Success) => r is Ok,
        Some(GetterSetterStatus::CommandNotPossibleRejected) => command_failure(r, "command not possible in current state"@),
        Some(GetterSetterStatus::InvalidArgumentRejected) => command_failure(r, "invalid argument"@,
        ),
        Some(GetterSetterStatus::CommandRejectedDueToActivatedSafetyFunctions) => command_failure(r, "command rejected due to activated safety functions"@),
        None => protocol_failure(r, "unknown setter status: "@ + decimal(status as nat),
        ),
    }
}

/// The result of a setter command (collision behavior, impedances, guiding mode,
/// frames, load) given the status byte of its response.
pub fn setter_status_result(status: u8) -> (r: FrankaResult<()>)
    ensures
        setter_outcome(status, r),
{
    match GetterSetterStatus::from_u8(status) {
        Some(GetterSetterStatus::Success) => Ok(()),
        Some(GetterSetterStatus::CommandNotPossibleRejected) => Err(
            FrankaError::Command { message: owned_text("command not possible in current state") },
        ),
        Some(GetterSetterStatus::InvalidArgumentRejected) => Err(
            FrankaError::Command { message: owned_text("invalid argument") },
        ),
        Some(GetterSetterStatus::CommandRejectedDueToActivatedSafetyFunctions) => Err(
            FrankaError::Command {
                message: owned_text("command rejected due to activated safety functions"),
            },
        ),
        None => Err(
            FrankaError::Protocol {
                message: text_then_number("unknown setter status: ", status as u64),
            },
        ),
    }
}

/// The result of a setter command given its whole response: a response without a
/// status byte is a protocol error, otherwise the status decides.
pub fn setter_response_result(response_bytes: &[u8]) -> (r: FrankaResult<()>)
    ensures
        response_bytes@.len() <= 12 ==> protocol_failure(r, no_status_text()),
        response_bytes@.len() > 12 ==> setter_outcome(response_status(response_bytes@), r),
{
    let status = parse_response_status(response_bytes)?;
    setter_status_result(status)
}

/// The result of an automatic error recovery given its whole response: status 0 is
/// success, any other status a command error that names it.
pub fn error_recovery_response_result(response_bytes: &[u8]) -> (r: FrankaResult<()>)
    ensures
        response_bytes@.len() <= 12 ==> protocol_failure(r, no_status_text()),
        response_bytes@.len() > 12 ==> {
            let status = response_status(response_bytes@);
            &&& r is Ok <==> status == 0
            &&& r matches Err(e) ==> is_command_error(
                e,
                "automatic error recovery failed with status "@ + decimal(status as nat),
            )
        },
{
    let status = parse_response_status(response_bytes)?;
    if status == 0 {
        Ok(())
    } else {
        Err(
            FrankaError::Command {
                message: text_then_number("automatic error recovery failed with status ", status as u64),
            },
        )
    }
}

/// The robot model (URDF text) carried by a GetRobotModel response: header (12),
/// status (1), then the UTF-8 text.
///
/// A response of at most 13 bytes is a protocol error, a nonzero status a command
/// error, text that is not UTF-8 a protocol error.
pub fn robot_model_from_response(response_bytes: &[u8]) -> (r: FrankaResult<String>)
    ensures
        response_bytes@.len() <= 13 ==> protocol_failure(r, "GetRobotModel response too short"@,
        ),
        response_bytes@.len() > 13 ==> {
            let status = response_status(response_bytes@);
            let text = response_bytes@.skip(13);
            &&& status != 0 ==> command_failure(r, "GetRobotModel failed with status "@ + decimal(status as nat),
            )
            &&& status == 0 && vstd::utf8::valid_utf8(text) ==> (r matches Ok(s) && s@ == vstd::utf8::decode_utf8(text))
            &&& status == 0 && !vstd::utf8::valid_utf8(text) ==> (r matches Err(e) && e matches FrankaError::Protocol { message } && message@.len() >= 23
                && message@.subrange(0, 23) == "invalid URDF encoding: "@)
        },
{
    if response_bytes.len() <= 13 {
        return Err(FrankaError::Protocol { message: owned_text("GetRobotModel response too short") });
    }
    let status = response_bytes[12];
    if status != 0 {
        return Err(
            FrankaError::Command {
                message: text_then_number("GetRobotModel failed with status ", status as u64),
            },
        );
    }
    let mut urdf_bytes: Vec<u8> = Vec::new();
    let mut i: usize = 13;
    while i < response_bytes.len()
        invariant
            13 <= i <= response_bytes@.len(),
            urdf_bytes@ == response_bytes@.subrange(13, i as int),
        decreases response_bytes@.len() - i,
    {
        urdf_bytes.push(response_bytes[i]);
        i = i + 1;
        assert(urdf_bytes@ =~= response_bytes@.subrange(13, i as int));
    }
    assert(urdf_bytes@ =~= response_bytes@.skip(13));
    match string_from_utf8(urdf_bytes) {
        Ok(urdf) => Ok(urdf),
        Err(e) => {
            let detail = utf8_error_text(&e);
            let message = concat_text("invalid URDF encoding: ", detail.as_str());
            proof {
                reveal_strlit("invalid URDF encoding: ");
                assert(message@.subrange(0, 23) =~= "invalid URDF encoding: "@);
            }
            Err(FrankaError::Protocol { message })
        },
    }
}

} // verus!
