//! Robot error flags and the library's error type.

use vstd::prelude::*;

use crate::text::{concat_text, decimal, owned_text, text_then_number, text_with_number};

verus! {

/// Number of error flags that the robot reports.
pub const NUM_ROBOT_ERRORS: usize = 41;

/// Mask of the bits that carry a robot error flag.
pub const ROBOT_ERRORS_MASK: u64 = 0x1ff_ffff_ffff;

/// Whether bit `i` of `bits` is set.
pub open spec fn bit_set(bits: u64, i: u64) -> bool {
    (bits >> i) & 1u64 == 1u64
}

/// Robot error flags. Each flag corresponds to a specific safety or limit violation;
/// bit `i` stands for entry `i` of the robot's error array. Only the low 41 bits are used.
#[derive(Debug, Clone, Copy, PartialEq, Eq, Structural)]
pub struct RobotErrors {
    bits: u64,
}

/// The single-bit masks of the error flags, named after the violation they report.
impl RobotErrors {
    pub const JOINT_POSITION_LIMITS_VIOLATION: u64 = 0x1;
    pub const CARTESIAN_POSITION_LIMITS_VIOLATION: u64 = 0x2;
    pub const SELF_COLLISION_AVOIDANCE_VIOLATION: u64 = 0x4;
    pub const JOINT_VELOCITY_VIOLATION: u64 = 0x8;
    pub const CARTESIAN_VELOCITY_VIOLATION: u64 = 0x10;
    pub const FORCE_CONTROL_SAFETY_VIOLATION: u64 = 0x20;
    pub const JOINT_REFLEX: u64 = 0x40;
    pub const CARTESIAN_REFLEX: u64 = 0x80;
    pub const MAX_GOAL_POSE_DEVIATION_VIOLATION: u64 = 0x100;
    pub const MAX_PATH_POSE_DEVIATION_VIOLATION: u64 = 0x200;
    pub const CARTESIAN_VELOCITY_PROFILE_SAFETY_VIOLATION: u64 = 0x400;
    pub const JOINT_POSITION_MOTION_GENERATOR_START_POSE_INVALID: u64 = 0x800;
    pub const JOINT_MOTION_GENERATOR_POSITION_LIMITS_VIOLATION: u64 = 0x1000;
    pub const JOINT_MOTION_GENERATOR_VELOCITY_LIMITS_VIOLATION: u64 = 0x2000;
    pub const JOINT_MOTION_GENERATOR_VELOCITY_DISCONTINUITY: u64 = 0x4000;
    pub const JOINT_MOTION_GENERATOR_ACCELERATION_DISCONTINUITY: u64 = 0x8000;
    pub const CARTESIAN_POSITION_MOTION_GENERATOR_START_POSE_INVALID: u64 = 0x10000;
    pub const CARTESIAN_MOTION_GENERATOR_ELBOW_LIMIT_VIOLATION: u64 = 0x20000;
    pub const CARTESIAN_MOTION_GENERATOR_VELOCITY_LIMITS_VIOLATION: u64 = 0x40000;
    pub const CARTESIAN_MOTION_GENERATOR_VELOCITY_DISCONTINUITY: u64 = 0x80000;
    pub const CARTESIAN_MOTION_GENERATOR_ACCELERATION_DISCONTINUITY: u64 = 0x100000;
    pub const CARTESIAN_MOTION_GENERATOR_ELBOW_SIGN_INCONSISTENT: u64 = 0x200000;
    pub const CARTESIAN_MOTION_GENERATOR_START_ELBOW_INVALID: u64 = 0x400000;
    pub const CARTESIAN_MOTION_GENERATOR_JOINT_POSITION_LIMITS_VIOLATION: u64 = 0x800000;
    pub const CARTESIAN_MOTION_GENERATOR_JOINT_VELOCITY_LIMITS_VIOLATION: u64 = 0x1000000;
    pub const CARTESIAN_MOTION_GENERATOR_JOINT_VELOCITY_DISCONTINUITY: u64 = 0x2000000;
    pub const CARTESIAN_MOTION_GENERATOR_JOINT_ACCELERATION_DISCONTINUITY: u64 = 0x4000000;
    pub const CARTESIAN_POSITION_MOTION_GENERATOR_INVALID_FRAME: u64 = 0x8000000;
    pub const FORCE_CONTROLLER_DESIRED_FORCE_TOLERANCE_VIOLATION: u64 = 0x10000000;
    pub const CONTROLLER_TORQUE_DISCONTINUITY: u64 = 0x20000000;
    pub const START_ELBOW_SIGN_INCONSISTENT: u64 = 0x40000000;
    pub const COMMUNICATION_CONSTRAINTS_VIOLATION: u64 = 0x80000000;
    pub const POWER_LIMIT_VIOLATION: u64 = 0x100000000;
    pub const JOINT_P2P_INSUFFICIENT_TORQUE_FOR_PLANNING: u64 = 0x200000000;
    pub const TAU_J_RANGE_VIOLATION: u64 = 0x400000000;
    pub const INSTABILITY_DETECTED: u64 = 0x800000000;
    pub const JOINT_MOVE_IN_WRONG_DIRECTION: u64 = 0x1000000000;
    pub const CARTESIAN_SPLINE_MOTION_GENERATOR_VIOLATION: u64 = 0x2000000000;
    pub const JOINT_VIA_MOTION_GENERATOR_PLANNING_JOINT_LIMIT_VIOLATION: u64 = 0x4000000000;
    pub const BASE_ACCELERATION_INITIALIZATION_TIMEOUT: u64 = 0x8000000000;
    pub const BASE_ACCELERATION_INVALID_READING: u64 = 0x10000000000;
}

impl RobotErrors {
    /// The raw flag bits.
    pub closed spec fn spec_bits(self) -> u64 {
        self.bits
    }

    /// The value has only bits of known flags set.
    pub open spec fn wf(self) -> bool {
        self.spec_bits() & !ROBOT_ERRORS_MASK == 0
    }

    /// No flag set.
    pub fn empty() -> (r: RobotErrors)
        ensures
            r.spec_bits() == 0,
    {
        RobotErrors { bits: 0 }
    }

    /// The flags of `bits`, with the bits of unknown flags cleared.
    pub fn from_bits_truncate(bits: u64) -> (r: RobotErrors)
        ensures
            r.spec_bits() == bits & ROBOT_ERRORS_MASK,
    {
        RobotErrors { bits: bits & ROBOT_ERRORS_MASK }
    }

    /// The raw flag bits.
    pub fn bits(&self) -> (b: u64)
        ensures
            b == self.spec_bits(),
    {
        self.bits
    }

    /// Whether every flag of `mask` is set.
    pub fn contains(&self, mask: u64) -> (b: bool)
        ensures
            b == (self.spec_bits() & mask == mask),
    {
        self.bits & mask == mask
    }

    /// Whether no flag is set.
    pub fn is_empty(&self) -> (b: bool)
        ensures
            b == (self.spec_bits() == 0),
    {
        self.bits == 0
    }

    /// Construct from the wire-format boolean array: flag `i` is set exactly when
    /// `errors[i]` is true.
    pub fn from_bool_array(errors: &[bool; 41]) -> (r: RobotErrors)
        ensures
            r.wf(),
            forall|i: u64| #![trigger bit_set(r.spec_bits(), i)]
                i < 41 ==> (bit_set(r.spec_bits(), i) <==> errors@[i as int]),
            forall|i: u64| #![trigger bit_set(r.spec_bits(), i)]
                41 <= i < 64 ==> !bit_set(r.spec_bits(), i),
            r.spec_bits() != 0 <==> exists|i: int| 0 <= i < 41 && #[trigger] errors@[i],
    {
        let mut bits: u64 = 0;
        let mut i: u64 = 0;
        proof {
            assert forall|j: u64| j < 64 implies !bit_set(0u64, j) by {
                assert((0u64 >> j) & 1u64 == 0u64) by (bit_vector);
            }
        }
        while i < 41
            invariant
                i <= 41,
                forall|j: u64| #![trigger bit_set(bits, j)]
                    j < i ==> (bit_set(bits, j) <==> errors@[j as int]),
                forall|j: u64| #![trigger bit_set(bits, j)] i <= j < 64 ==> !bit_set(bits, j),
                bits != 0 <==> exists|j: int| 0 <= j < i && #[trigger] errors@[j],
            decreases 41 - i,
        {
            if errors[i as usize] {
                let ghost old_bits = bits;
                bits = bits | (1u64 << i);
                assert(bits != 0) by (bit_vector)
                    requires
                        bits == old_bits | (1u64 << i),
                        i < 64,
                ;
                assert(errors@[i as int]);
                proof {
                    assert forall|j: u64| j < 64 implies #[trigger] bit_set(bits, j) == (bit_set(
                        old_bits,
                        j,
                    ) || j == i) by {
                        lemma_set_bit(old_bits, i, j);
                    }
                }
            }
            i = i + 1;
        }
        proof {
            lemma_high_bits_clear(bits);
        }
        RobotErrors { bits }
    }

    /// Returns true if any errors are active.
    pub fn has_errors(&self) -> (b: bool)
        ensures
            b == (self.spec_bits() != 0),
    {
        !self.is_empty()
    }

    /// The flags set in either value.
    pub fn union(self, other: RobotErrors) -> (r: RobotErrors)
        ensures
            r.spec_bits() == self.spec_bits() | other.spec_bits(),
    {
        RobotErrors { bits: self.bits | other.bits }
    }

    /// The flags set in both values.
    pub fn intersection(self, other: RobotErrors) -> (r: RobotErrors)
        ensures
            r.spec_bits() == self.spec_bits() & other.spec_bits(),
    {
        RobotErrors { bits: self.bits & other.bits }
    }

    /// Sets the flags of `mask` that belong to a known flag.
    pub fn insert(&mut self, mask: u64)
        ensures
            final(self).spec_bits() == old(self).spec_bits() | (mask & ROBOT_ERRORS_MASK),
    {
        self.bits = self.bits | (mask & ROBOT_ERRORS_MASK);
    }

    /// Clears the flags of `mask`.
    pub fn remove(&mut self, mask: u64)
        ensures
            final(self).spec_bits() == old(self).spec_bits() & !mask,
    {
        self.bits = self.bits & !mask;
    }
}

/// Setting bit `i` sets bit `i` and leaves every other bit as it was.
pub proof fn lemma_set_bit(bits: u64, i: u64, j: u64)
    requires
        i < 64,
        j < 64,
    ensures
        bit_set(bits | (1u64 << i), j) == (bit_set(bits, j) || j == i),
{
    assert((((bits | (1u64 << i)) >> j) & 1u64 == 1u64) == (((bits >> j) & 1u64 == 1u64) || j == i))
        by (bit_vector)
        requires
            i < 64,
            j < 64,
    ;
}

/// A value whose bits 41 to 63 are clear has no bit outside the error mask.
proof fn lemma_high_bits_clear(bits: u64)
    requires
        forall|j: u64| #![trigger bit_set(bits, j)] 41 <= j < 64 ==> !bit_set(bits, j),
    ensures
        bits & !ROBOT_ERRORS_MASK == 0,
{
    assert(!bit_set(bits, 41u64));
    assert(!bit_set(bits, 42u64));
    assert(!bit_set(bits, 43u64));
    assert(!bit_set(bits, 44u64));
    assert(!bit_set(bits, 45u64));
    assert(!bit_set(bits, 46u64));
    assert(!bit_set(bits, 47u64));
    assert(!bit_set(bits, 48u64));
    assert(!bit_set(bits, 49u64));
    assert(!bit_set(bits, 50u64));
    assert(!bit_set(bits, 51u64));
    assert(!bit_set(bits, 52u64));
    assert(!bit_set(bits, 53u64));
    assert(!bit_set(bits, 54u64));
    assert(!bit_set(bits, 55u64));
    assert(!bit_set(bits, 56u64));
    assert(!bit_set(bits, 57u64));
    assert(!bit_set(bits, 58u64));
    assert(!bit_set(bits, 59u64));
    assert(!bit_set(bits, 60u64));
    assert(!bit_set(bits, 61u64));
    assert(!bit_set(bits, 62u64));
    assert(!bit_set(bits, 63u64));
    assert(bits & !0x1ff_ffff_ffffu64 == 0) by (bit_vector)
        requires
            (bits >> 41u64) & 1u64 != 1u64 && (bits >> 42u64) & 1u64 != 1u64 && (bits >> 43u64) & 1u64 != 1u64 && (bits >> 44u64) & 1u64 != 1u64 && (bits >> 45u64) & 1u64 != 1u64 && (bits >> 46u64) & 1u64 != 1u64 && (bits >> 47u64) & 1u64 != 1u64 && (bits >> 48u64) & 1u64 != 1u64 && (bits >> 49u64) & 1u64 != 1u64 && (bits >> 50u64) & 1u64 != 1u64 && (bits >> 51u64) & 1u64 != 1u64 && (bits >> 52u64) & 1u64 != 1u64 && (bits >> 53u64) & 1u64 != 1u64 && (bits >> 54u64) & 1u64 != 1u64 && (bits >> 55u64) & 1u64 != 1u64 && (bits >> 56u64) & 1u64 != 1u64 && (bits >> 57u64) & 1u64 != 1u64 && (bits >> 58u64) & 1u64 != 1u64 && (bits >> 59u64) & 1u64 != 1u64 && (bits >> 60u64) & 1u64 != 1u64 && (bits >> 61u64) & 1u64 != 1u64 && (bits >> 62u64) & 1u64 != 1u64 && (bits >> 63u64) & 1u64 != 1u64,
    ;
}

} // verus!

verus! {

/// Errors that can occur when communicating with or controlling the robot.
#[derive(Debug)]
pub enum FrankaError {
    Network { message: String },
    Protocol { message: String },
    IncompatibleVersion { server_version: u16, library_version: u16 },
    Control { message: String },
    Command { message: String },
    Realtime { message: String },
    Model { message: String },
    InvalidOperation { message: String },
}

/// Convenience type alias for results from franka-rs operations.
pub type FrankaResult<T> = Result<T, FrankaError>;

/// `e` is a network error with the text `m`.
pub open spec fn is_network_error(e: FrankaError, m: Seq<char>) -> bool {
    e matches FrankaError::Network { message } && message@ == m
}

/// `e` is a protocol error with the text `m`.
pub open spec fn is_protocol_error(e: FrankaError, m: Seq<char>) -> bool {
    e matches FrankaError::Protocol { message } && message@ == m
}

/// `e` is a command error with the text `m`.
pub open spec fn is_command_error(e: FrankaError, m: Seq<char>) -> bool {
    e matches FrankaError::Command { message } && message@ == m
}

/// `r` failed with a protocol error with the text `m`.
pub open spec fn protocol_failure<T>(r: FrankaResult<T>, m: Seq<char>) -> bool {
    r matches Err(e) && is_protocol_error(e, m)
}

/// `r` failed with a command error with the text `m`.
pub open spec fn command_failure<T>(r: FrankaResult<T>, m: Seq<char>) -> bool {
    r matches Err(e) && is_command_error(e, m)
}

/// The text that describes an error.
pub open spec fn display_text(e: FrankaError) -> Seq<char> {
    match e {
        FrankaError::Network { message } => "network error: "@ + message@,
        FrankaError::Protocol { message } => "protocol error: "@ + message@,
        FrankaError::IncompatibleVersion { server_version, library_version } =>
            "incompatible version: server="@ + decimal(server_version as nat) + ", library="@
            + decimal(library_version as nat),
        FrankaError::Control { message } => "control error: "@ + message@,
        FrankaError::Command { message } => "command rejected: "@ + message@,
        FrankaError::Realtime { message } => "realtime error: "@ + message@,
        FrankaError::Model { message } => "model error: "@ + message@,
        FrankaError::InvalidOperation { message } => "invalid operation: "@ + message@,
    }
}

impl FrankaError {
    /// The text that describes the error.
    pub fn to_string(&self) -> (s: String)
        ensures
            s@ == display_text(*self),
    {
        match self {
            FrankaError::Network { message } => concat_text("network error: ", message.as_str()),
            FrankaError::Protocol { message } => concat_text("protocol error: ", message.as_str()),
            FrankaError::IncompatibleVersion { server_version, library_version } => {
                let head = text_with_number(
                    "incompatible version: server=",
                    *server_version as u64,
                    ", library=",
                );
                text_then_number(head.as_str(), *library_version as u64)
            },
            FrankaError::Control { message } => concat_text("control error: ", message.as_str()),
            FrankaError::Command { message } => concat_text("command rejected: ", message.as_str()),
            FrankaError::Realtime { message } => concat_text("realtime error: ", message.as_str()),
            FrankaError::Model { message } => concat_text("model error: ", message.as_str()),
            FrankaError::InvalidOperation { message } => concat_text(
                "invalid operation: ",
                message.as_str(),
            ),
        }
    }

    /// A network error with the given text.
    pub fn network(message: &str) -> (e: FrankaError)
        ensures
            is_network_error(e, message@),
    {
        FrankaError::Network { message: owned_text(message) }
    }
}

} // verus!
