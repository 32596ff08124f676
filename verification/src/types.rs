//! Domain enums: reference frames, robot and controller modes.

use vstd::prelude::*;

verus! {

/// Reference frame for kinematics computations.
#[derive(Debug, Clone, Copy, PartialEq, Eq, Hash, Structural)]
pub enum Frame {
    Joint1,
    Joint2,
    Joint3,
    Joint4,
    Joint5,
    Joint6,
    Joint7,
    Flange,
    EndEffector,
    Stiffness,
}

/// How many joints move a given frame: joint `k`'s frame is moved by the first `k`
/// joints, every frame from joint 7 outward by all seven.
pub open spec fn spec_active_joints_for_frame(frame: Frame) -> usize {
    match frame {
        Frame::Joint1 => 1,
        Frame::Joint2 => 2,
        Frame::Joint3 => 3,
        Frame::Joint4 => 4,
        Frame::Joint5 => 5,
        Frame::Joint6 => 6,
        Frame::Joint7 | Frame::Flange | Frame::EndEffector | Frame::Stiffness => 7,
    }
}

/// Returns how many joints contribute to a given frame.
pub fn active_joints_for_frame(frame: Frame) -> (n: usize)
    ensures
        n == spec_active_joints_for_frame(frame),
{
    match frame {
        Frame::Joint1 => 1,
        Frame::Joint2 => 2,
        Frame::Joint3 => 3,
        Frame::Joint4 => 4,
        Frame::Joint5 => 5,
        Frame::Joint6 => 6,
        Frame::Joint7 | Frame::Flange | Frame::EndEffector | Frame::Stiffness => 7,
    }
}

/// Robot operating mode.
#[derive(Debug, Clone, Copy, PartialEq, Eq, Structural)]
pub enum RobotMode {
    Other,
    Idle,
    Move,
    Guiding,
    Reflex,
    UserStopped,
    AutomaticErrorRecovery,
}

/// The robot mode that the wire value `value` stands for; unknown values are `Other`.
pub open spec fn spec_robot_mode_from_wire(value: u8) -> RobotMode {
    if value == 1 {
        RobotMode::Idle
    } else if value == 2 {
        RobotMode::Move
    } else if value == 3 {
        RobotMode::Guiding
    } else if value == 4 {
        RobotMode::Reflex
    } else if value == 5 {
        RobotMode::UserStopped
    } else if value == 6 {
        RobotMode::AutomaticErrorRecovery
    } else {
        RobotMode::Other
    }
}

impl RobotMode {
    /// The robot mode of a wire value; unknown values are `Other`.
    pub fn from_wire(value: u8) -> (m: RobotMode)
        ensures
            m == spec_robot_mode_from_wire(value),
    {
        match value {
            1 => RobotMode::Idle,
            2 => RobotMode::Move,
            3 => RobotMode::Guiding,
            4 => RobotMode::Reflex,
            5 => RobotMode::UserStopped,
            6 => RobotMode::AutomaticErrorRecovery,
            _ => RobotMode::Other,
        }
    }
}

/// Active controller mode on the robot.
#[derive(Debug, Clone, Copy, PartialEq, Eq, Structural)]
pub enum ControllerMode {
    JointImpedance,
    CartesianImpedance,
    ExternalController,
}

impl ControllerMode {
    /// The mode's code on the wire.
    pub open spec fn spec_code(self) -> u32 {
        match self {
            ControllerMode::JointImpedance => 0,
            ControllerMode::CartesianImpedance => 1,
            ControllerMode::ExternalController => 2,
        }
    }

    /// The mode's code on the wire.
    pub fn code(self) -> (c: u32)
        ensures
            c == self.spec_code(),
    {
        match self {
            ControllerMode::JointImpedance => 0,
            ControllerMode::CartesianImpedance => 1,
            ControllerMode::ExternalController => 2,
        }
    }
}

/// Whether to enforce real-time scheduling for the control loop thread.
#[derive(Debug, Clone, Copy, PartialEq, Eq, Structural)]
pub enum RealtimeConfig {
    Enforce,
    Ignore,
}

/// Motion generator mode (reflects what the robot is currently doing).
#[derive(Debug, Clone, Copy, PartialEq, Eq, Structural)]
pub enum MotionGeneratorMode {
    Idle,
    JointPosition,
    JointVelocity,
    CartesianPosition,
    CartesianVelocity,
    NoMotionGenerator,
}

/// The motion generator mode that the wire value `value` stands for; unknown values
/// are `NoMotionGenerator`.
pub open spec fn spec_motion_generator_mode_from_wire(value: u8) -> MotionGeneratorMode {
    if value == 0 {
        MotionGeneratorMode::Idle
    } else if value == 1 {
        MotionGeneratorMode::JointPosition
    } else if value == 2 {
        MotionGeneratorMode::JointVelocity
    } else if value == 3 {
        MotionGeneratorMode::CartesianPosition
    } else if value == 4 {
        MotionGeneratorMode::CartesianVelocity
    } else {
        MotionGeneratorMode::NoMotionGenerator
    }
}

impl MotionGeneratorMode {
    /// The motion generator mode of a wire value; unknown values are `NoMotionGenerator`.
    pub fn from_wire(value: u8) -> (m: MotionGeneratorMode)
        ensures
            m == spec_motion_generator_mode_from_wire(value),
    {
        match value {
            0 => MotionGeneratorMode::Idle,
            1 => MotionGeneratorMode::JointPosition,
            2 => MotionGeneratorMode::JointVelocity,
            3 => MotionGeneratorMode::CartesianPosition,
            4 => MotionGeneratorMode::CartesianVelocity,
            _ => MotionGeneratorMode::NoMotionGenerator,
        }
    }

    /// The mode's code on the wire.
    pub open spec fn spec_code(self) -> u32 {
        match self {
            MotionGeneratorMode::Idle => 0,
            MotionGeneratorMode::JointPosition => 1,
            MotionGeneratorMode::JointVelocity => 2,
            MotionGeneratorMode::CartesianPosition => 3,
            MotionGeneratorMode::CartesianVelocity => 4,
            MotionGeneratorMode::NoMotionGenerator => 5,
        }
    }

    /// The mode's code on the wire.
    pub fn code(self) -> (c: u32)
        ensures
            c == self.spec_code(),
    {
        match self {
            MotionGeneratorMode::Idle => 0,
            MotionGeneratorMode::JointPosition => 1,
            MotionGeneratorMode::JointVelocity => 2,
            MotionGeneratorMode::CartesianPosition => 3,
            MotionGeneratorMode::CartesianVelocity => 4,
            MotionGeneratorMode::NoMotionGenerator => 5,
        }
    }
}

/// Reading back the wire code of a motion generator mode gives the mode.
pub proof fn lemma_motion_generator_mode_code_roundtrip(m: MotionGeneratorMode)
    ensures
        spec_motion_generator_mode_from_wire(m.spec_code() as u8) == m,
{
}

/// Every robot mode but `Other` has exactly one wire value in 1..=6, and reading any
/// other value gives `Other`.
pub proof fn lemma_robot_mode_from_wire_values(value: u8)
    ensures
        (spec_robot_mode_from_wire(value) != RobotMode::Other) <==> (1 <= value <= 6),
        forall|w: u8|
            1 <= value <= 6 && 1 <= w <= 6 && spec_robot_mode_from_wire(w)
                == spec_robot_mode_from_wire(value) ==> w == value,
{
}

/// The wire values of the robot modes: 1 to 6 stand for Idle, Move, Guiding, Reflex,
/// UserStopped and AutomaticErrorRecovery, every other value for Other.
pub proof fn lemma_robot_mode_wire_codes()
    ensures
        spec_robot_mode_from_wire(0) == RobotMode::Other,
        spec_robot_mode_from_wire(1) == RobotMode::Idle,
        spec_robot_mode_from_wire(2) == RobotMode::Move,
        spec_robot_mode_from_wire(3) == RobotMode::Guiding,
        spec_robot_mode_from_wire(4) == RobotMode::Reflex,
        spec_robot_mode_from_wire(5) == RobotMode::UserStopped,
        spec_robot_mode_from_wire(6) == RobotMode::AutomaticErrorRecovery,
        forall|v: u8| v > 6 ==> #[trigger] spec_robot_mode_from_wire(v) == RobotMode::Other,
{
}

/// The wire codes of the controller modes: JointImpedance 0, CartesianImpedance 1,
/// ExternalController 2.
pub proof fn lemma_controller_mode_codes()
    ensures
        ControllerMode::JointImpedance.spec_code() == 0,
        ControllerMode::CartesianImpedance.spec_code() == 1,
        ControllerMode::ExternalController.spec_code() == 2,
{
}

/// The wire codes of the motion generator modes, 0 to 5 in the order Idle, JointPosition,
/// JointVelocity, CartesianPosition, CartesianVelocity, NoMotionGenerator; decoding reads
/// 0 to 4 back and every other value as NoMotionGenerator.
pub proof fn lemma_motion_generator_mode_codes()
    ensures
        MotionGeneratorMode::Idle.spec_code() == 0,
        MotionGeneratorMode::JointPosition.spec_code() == 1,
        MotionGeneratorMode::JointVelocity.spec_code() == 2,
        MotionGeneratorMode::CartesianPosition.spec_code() == 3,
        MotionGeneratorMode::CartesianVelocity.spec_code() == 4,
        MotionGeneratorMode::NoMotionGenerator.spec_code() == 5,
        spec_motion_generator_mode_from_wire(0) == MotionGeneratorMode::Idle,
        spec_motion_generator_mode_from_wire(1) == MotionGeneratorMode::JointPosition,
        spec_motion_generator_mode_from_wire(2) == MotionGeneratorMode::JointVelocity,
        spec_motion_generator_mode_from_wire(3) == MotionGeneratorMode::CartesianPosition,
        spec_motion_generator_mode_from_wire(4) == MotionGeneratorMode::CartesianVelocity,
        forall|v: u8| v > 4 ==> #[trigger] spec_motion_generator_mode_from_wire(v)
            == MotionGeneratorMode::NoMotionGenerator,
{
}

/// Joint `k`'s frame is moved by the first `k` joints; the flange, end-effector and
/// stiffness frames by all seven.
pub proof fn lemma_active_joints_values()
    ensures
        spec_active_joints_for_frame(Frame::Joint1) == 1,
        spec_active_joints_for_frame(Frame::Joint2) == 2,
        spec_active_joints_for_frame(Frame::Joint3) == 3,
        spec_active_joints_for_frame(Frame::Joint4) == 4,
        spec_active_joints_for_frame(Frame::Joint5) == 5,
        spec_active_joints_for_frame(Frame::Joint6) == 6,
        spec_active_joints_for_frame(Frame::Joint7) == 7,
        spec_active_joints_for_frame(Frame::Flange) == 7,
        spec_active_joints_for_frame(Frame::EndEffector) == 7,
        spec_active_joints_for_frame(Frame::Stiffness) == 7,
{
}

} // verus!
