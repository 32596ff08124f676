//! The wire codes of every enumerated protocol value, as the protocol fixes them: each
//! value's code, the value each code decodes to, and the names that messages print.

use vstd::prelude::*;

verus! {

/// The codes of the robot commands on the wire, in the protocol's order from 0.
pub proof fn lemma_robot_command_codes()
    ensures
        crate::wire::robot::Command::Connect.spec_code() == 0u32,
        crate::wire::robot::Command::Move.spec_code() == 1u32,
        crate::wire::robot::Command::StopMove.spec_code() == 2u32,
        crate::wire::robot::Command::SetCollisionBehavior.spec_code() == 3u32,
        crate::wire::robot::Command::SetJointImpedance.spec_code() == 4u32,
        crate::wire::robot::Command::SetCartesianImpedance.spec_code() == 5u32,
        crate::wire::robot::Command::SetGuidingMode.spec_code() == 6u32,
        crate::wire::robot::Command::SetEeToK.spec_code() == 7u32,
        crate::wire::robot::Command::SetNeToEe.spec_code() == 8u32,
        crate::wire::robot::Command::SetLoad.spec_code() == 9u32,
        crate::wire::robot::Command::AutomaticErrorRecovery.spec_code() == 10u32,
        crate::wire::robot::Command::GetRobotModel.spec_code() == 11u32,
{
}

/// The codes of the robot connect statuses on the wire, in the protocol's order from 0.
pub proof fn lemma_robot_connect_status_codes()
    ensures
        crate::wire::robot::ConnectStatus::Success.spec_code() == 0u8,
        crate::wire::robot::ConnectStatus::IncompatibleLibraryVersion.spec_code() == 1u8,
{
}

/// The codes of the Move statuses on the wire, in the protocol's order from 0, the values that
/// the codes decode to, and the names that messages print.
pub proof fn lemma_robot_move_status_codes()
    ensures
        crate::wire::robot::MoveStatus::Success.spec_code() == 0u8,
        crate::wire::robot::MoveStatus::MotionStarted.spec_code() == 1u8,
        crate::wire::robot::MoveStatus::Preempted.spec_code() == 2u8,
        crate::wire::robot::MoveStatus::PreemptedDueToActivatedSafetyFunctions.spec_code() == 3u8,
        crate::wire::robot::MoveStatus::CommandRejectedDueToActivatedSafetyFunctions.spec_code() == 4u8,
        crate::wire::robot::MoveStatus::CommandNotPossibleRejected.spec_code() == 5u8,
        crate::wire::robot::MoveStatus::StartAtSingularPoseRejected.spec_code() == 6u8,
        crate::wire::robot::MoveStatus::InvalidArgumentRejected.spec_code() == 7u8,
        crate::wire::robot::MoveStatus::ReflexAborted.spec_code() == 8u8,
        crate::wire::robot::MoveStatus::EmergencyAborted.spec_code() == 9u8,
        crate::wire::robot::MoveStatus::InputErrorAborted.spec_code() == 10u8,
        crate::wire::robot::MoveStatus::Aborted.spec_code() == 11u8,
        crate::wire::robot::MoveStatus::spec_from_u8(0u8) == Some(crate::wire::robot::MoveStatus::Success),
        crate::wire::robot::MoveStatus::spec_from_u8(1u8) == Some(crate::wire::robot::MoveStatus::MotionStarted),
        crate::wire::robot::MoveStatus::spec_from_u8(2u8) == Some(crate::wire::robot::MoveStatus::Preempted),
        crate::wire::robot::MoveStatus::spec_from_u8(3u8) == Some(crate::wire::robot::MoveStatus::PreemptedDueToActivatedSafetyFunctions),
        crate::wire::robot::MoveStatus::spec_from_u8(4u8) == Some(crate::wire::robot::MoveStatus::CommandRejectedDueToActivatedSafetyFunctions),
        crate::wire::robot::MoveStatus::spec_from_u8(5u8) == Some(crate::wire::robot::MoveStatus::CommandNotPossibleRejected),
        crate::wire::robot::MoveStatus::spec_from_u8(6u8) == Some(crate::wire::robot::MoveStatus::StartAtSingularPoseRejected),
        crate::wire::robot::MoveStatus::spec_from_u8(7u8) == Some(crate::wire::robot::MoveStatus::InvalidArgumentRejected),
        crate::wire::robot::MoveStatus::spec_from_u8(8u8) == Some(crate::wire::robot::MoveStatus::ReflexAborted),
        crate::wire::robot::MoveStatus::spec_from_u8(9u8) == Some(crate::wire::robot::MoveStatus::EmergencyAborted),
        crate::wire::robot::MoveStatus::spec_from_u8(10u8) == Some(crate::wire::robot::MoveStatus::InputErrorAborted),
        crate::wire::robot::MoveStatus::spec_from_u8(11u8) == Some(crate::wire::robot::MoveStatus::Aborted),
        forall|c: u8| c >= 12 ==> #[trigger] crate::wire::robot::MoveStatus::spec_from_u8(c) is None,
        crate::wire::robot::MoveStatus::Success.spec_debug_name() == "Success"@,
        crate::wire::robot::MoveStatus::MotionStarted.spec_debug_name() == "MotionStarted"@,
        crate::wire::robot::MoveStatus::Preempted.spec_debug_name() == "Preempted"@,
        crate::wire::robot::MoveStatus::PreemptedDueToActivatedSafetyFunctions.spec_debug_name() == "PreemptedDueToActivatedSafetyFunctions"@,
        crate::wire::robot::MoveStatus::CommandRejectedDueToActivatedSafetyFunctions.spec_debug_name() == "CommandRejectedDueToActivatedSafetyFunctions"@,
        crate::wire::robot::MoveStatus::CommandNotPossibleRejected.spec_debug_name() == "CommandNotPossibleRejected"@,
        crate::wire::robot::MoveStatus::StartAtSingularPoseRejected.spec_debug_name() == "StartAtSingularPoseRejected"@,
        crate::wire::robot::MoveStatus::InvalidArgumentRejected.spec_debug_name() == "InvalidArgumentRejected"@,
        crate::wire::robot::MoveStatus::ReflexAborted.spec_debug_name() == "ReflexAborted"@,
        crate::wire::robot::MoveStatus::EmergencyAborted.spec_debug_name() == "EmergencyAborted"@,
        crate::wire::robot::MoveStatus::InputErrorAborted.spec_debug_name() == "InputErrorAborted"@,
        crate::wire::robot::MoveStatus::Aborted.spec_debug_name() == "Aborted"@,
{
}

/// The codes of the setter statuses on the wire, in the protocol's order from 0, the values that
/// the codes decode to.
pub proof fn lemma_robot_getter_setter_status_codes()
    ensures
        crate::wire::robot::GetterSetterStatus::Success.spec_code() == 0u8,
        crate::wire::robot::GetterSetterStatus::CommandNotPossibleRejected.spec_code() == 1u8,
        crate::wire::robot::GetterSetterStatus::InvalidArgumentRejected.spec_code() == 2u8,
        crate::wire::robot::GetterSetterStatus::CommandRejectedDueToActivatedSafetyFunctions.spec_code() == 3u8,
        crate::wire::robot::GetterSetterStatus::spec_from_u8(0u8) == Some(crate::wire::robot::GetterSetterStatus::Success),
        crate::wire::robot::GetterSetterStatus::spec_from_u8(1u8) == Some(crate::wire::robot::GetterSetterStatus::CommandNotPossibleRejected),
        crate::wire::robot::GetterSetterStatus::spec_from_u8(2u8) == Some(crate::wire::robot::GetterSetterStatus::InvalidArgumentRejected),
        crate::wire::robot::GetterSetterStatus::spec_from_u8(3u8) == Some(crate::wire::robot::GetterSetterStatus::CommandRejectedDueToActivatedSafetyFunctions),
        forall|c: u8| c >= 4 ==> #[trigger] crate::wire::robot::GetterSetterStatus::spec_from_u8(c) is None,
{
}

/// The codes of the StopMove statuses on the wire, in the protocol's order from 0.
pub proof fn lemma_robot_stop_move_status_codes()
    ensures
        crate::wire::robot::StopMoveStatus::Success.spec_code() == 0u8,
        crate::wire::robot::StopMoveStatus::CommandNotPossibleRejected.spec_code() == 1u8,
        crate::wire::robot::StopMoveStatus::CommandRejectedDueToActivatedSafetyFunctions.spec_code() == 2u8,
        crate::wire::robot::StopMoveStatus::EmergencyAborted.spec_code() == 3u8,
        crate::wire::robot::StopMoveStatus::ReflexAborted.spec_code() == 4u8,
        crate::wire::robot::StopMoveStatus::Aborted.spec_code() == 5u8,
{
}

/// The codes of the automatic error recovery statuses on the wire, in the protocol's order from 0.
pub proof fn lemma_robot_automatic_error_recovery_status_codes()
    ensures
        crate::wire::robot::AutomaticErrorRecoveryStatus::Success.spec_code() == 0u8,
        crate::wire::robot::AutomaticErrorRecoveryStatus::CommandNotPossibleRejected.spec_code() == 1u8,
        crate::wire::robot::AutomaticErrorRecoveryStatus::CommandRejectedDueToActivatedSafetyFunctions.spec_code() == 2u8,
        crate::wire::robot::AutomaticErrorRecoveryStatus::ManualErrorRecoveryRequiredRejected.spec_code() == 3u8,
        crate::wire::robot::AutomaticErrorRecoveryStatus::ReflexAborted.spec_code() == 4u8,
        crate::wire::robot::AutomaticErrorRecoveryStatus::EmergencyAborted.spec_code() == 5u8,
        crate::wire::robot::AutomaticErrorRecoveryStatus::Aborted.spec_code() == 6u8,
{
}

/// The codes of the gripper commands on the wire, in the protocol's order from 0, and the names that messages print.
pub proof fn lemma_gripper_command_codes()
    ensures
        crate::wire::gripper::Command::Connect.spec_code() == 0u16,
        crate::wire::gripper::Command::Homing.spec_code() == 1u16,
        crate::wire::gripper::Command::Grasp.spec_code() == 2u16,
        crate::wire::gripper::Command::Move.spec_code() == 3u16,
        crate::wire::gripper::Command::Stop.spec_code() == 4u16,
        crate::wire::gripper::Command::Connect.spec_debug_name() == "Connect"@,
        crate::wire::gripper::Command::Homing.spec_debug_name() == "Homing"@,
        crate::wire::gripper::Command::Grasp.spec_debug_name() == "Grasp"@,
        crate::wire::gripper::Command::Move.spec_debug_name() == "Move"@,
        crate::wire::gripper::Command::Stop.spec_debug_name() == "Stop"@,
{
}

/// The codes of the gripper statuses on the wire, in the protocol's order from 0, the values that
/// the codes decode to.
pub proof fn lemma_gripper_gripper_status_codes()
    ensures
        crate::wire::gripper::GripperStatus::Success.spec_code() == 0u16,
        crate::wire::gripper::GripperStatus::Fail.spec_code() == 1u16,
        crate::wire::gripper::GripperStatus::Unsuccessful.spec_code() == 2u16,
        crate::wire::gripper::GripperStatus::Aborted.spec_code() == 3u16,
        crate::wire::gripper::GripperStatus::spec_from_u16(0u16) == Some(crate::wire::gripper::GripperStatus::Success),
        crate::wire::gripper::GripperStatus::spec_from_u16(1u16) == Some(crate::wire::gripper::GripperStatus::Fail),
        crate::wire::gripper::GripperStatus::spec_from_u16(2u16) == Some(crate::wire::gripper::GripperStatus::Unsuccessful),
        crate::wire::gripper::GripperStatus::spec_from_u16(3u16) == Some(crate::wire::gripper::GripperStatus::Aborted),
        forall|c: u16| c >= 4 ==> #[trigger] crate::wire::gripper::GripperStatus::spec_from_u16(c) is None,
{
}

/// The codes of the vacuum gripper commands on the wire, in the protocol's order from 0, and the names that messages print.
pub proof fn lemma_vacuum_command_codes()
    ensures
        crate::wire::vacuum::Command::Connect.spec_code() == 0u16,
        crate::wire::vacuum::Command::Vacuum.spec_code() == 1u16,
        crate::wire::vacuum::Command::DropOff.spec_code() == 2u16,
        crate::wire::vacuum::Command::Stop.spec_code() == 3u16,
        crate::wire::vacuum::Command::Connect.spec_debug_name() == "Connect"@,
        crate::wire::vacuum::Command::Vacuum.spec_debug_name() == "Vacuum"@,
        crate::wire::vacuum::Command::DropOff.spec_debug_name() == "DropOff"@,
        crate::wire::vacuum::Command::Stop.spec_debug_name() == "Stop"@,
{
}

/// The codes of the vacuum profiles on the wire, in the protocol's order from 0.
pub proof fn lemma_vacuum_profile_codes()
    ensures
        crate::wire::vacuum::Profile::P0.spec_code() == 0u8,
        crate::wire::vacuum::Profile::P1.spec_code() == 1u8,
        crate::wire::vacuum::Profile::P2.spec_code() == 2u8,
        crate::wire::vacuum::Profile::P3.spec_code() == 3u8,
{
}

/// The codes of the vacuum device statuses on the wire, in the protocol's order from 0, the values that
/// the codes decode to.
pub proof fn lemma_vacuum_device_status_codes()
    ensures
        crate::wire::vacuum::DeviceStatus::Green.spec_code() == 0u8,
        crate::wire::vacuum::DeviceStatus::Yellow.spec_code() == 1u8,
        crate::wire::vacuum::DeviceStatus::Orange.spec_code() == 2u8,
        crate::wire::vacuum::DeviceStatus::Red.spec_code() == 3u8,
        crate::wire::vacuum::DeviceStatus::spec_from_u8(0u8) == Some(crate::wire::vacuum::DeviceStatus::Green),
        crate::wire::vacuum::DeviceStatus::spec_from_u8(1u8) == Some(crate::wire::vacuum::DeviceStatus::Yellow),
        crate::wire::vacuum::DeviceStatus::spec_from_u8(2u8) == Some(crate::wire::vacuum::DeviceStatus::Orange),
        crate::wire::vacuum::DeviceStatus::spec_from_u8(3u8) == Some(crate::wire::vacuum::DeviceStatus::Red),
        forall|c: u8| c >= 4 ==> #[trigger] crate::wire::vacuum::DeviceStatus::spec_from_u8(c) is None,
{
}

/// The codes of the vacuum gripper statuses on the wire, in the protocol's order from 0, the values that
/// the codes decode to.
pub proof fn lemma_vacuum_vacuum_gripper_status_codes()
    ensures
        crate::wire::vacuum::VacuumGripperStatus::Success.spec_code() == 0u16,
        crate::wire::vacuum::VacuumGripperStatus::Fail.spec_code() == 1u16,
        crate::wire::vacuum::VacuumGripperStatus::Unsuccessful.spec_code() == 2u16,
        crate::wire::vacuum::VacuumGripperStatus::Aborted.spec_code() == 3u16,
        crate::wire::vacuum::VacuumGripperStatus::spec_from_u16(0u16) == Some(crate::wire::vacuum::VacuumGripperStatus::Success),
        crate::wire::vacuum::VacuumGripperStatus::spec_from_u16(1u16) == Some(crate::wire::vacuum::VacuumGripperStatus::Fail),
        crate::wire::vacuum::VacuumGripperStatus::spec_from_u16(2u16) == Some(crate::wire::vacuum::VacuumGripperStatus::Unsuccessful),
        crate::wire::vacuum::VacuumGripperStatus::spec_from_u16(3u16) == Some(crate::wire::vacuum::VacuumGripperStatus::Aborted),
        forall|c: u16| c >= 4 ==> #[trigger] crate::wire::vacuum::VacuumGripperStatus::spec_from_u16(c) is None,
{
}

} // verus!
