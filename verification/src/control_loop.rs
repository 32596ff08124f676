//! The decisions of the 1 kHz control loop that do not touch floating-point values:
//! the Move request, interpreting the responses to Move and StopMove, assembling the command sent each
//! cycle, and choosing the reference of the first filtered command.

use vstd::prelude::*;

use crate::errors::{command_failure, protocol_failure, FrankaError, FrankaResult};
use crate::text::{concat_text, decimal, owned_text, text_then_number};
use crate::types::{ControllerMode, MotionGeneratorMode};
use crate::wire::robot::{
    ControllerCommand, MotionGeneratorCommand, MoveRequest, MoveStatus, RobotCommand,
};

verus! {

/// Bit pattern of the default maximum translational deviation of a motion, `10.0`.
pub const DEFAULT_DEVIATION_TRANSLATION_BITS: u64 = 0x4024_0000_0000_0000;

/// Bit pattern of the default maximum rotational deviation of a motion, `3.12`.
pub const DEFAULT_DEVIATION_ROTATION_BITS: u64 = 0x4008_f5c2_8f5c_28f6;

/// Bit pattern of the default maximum elbow deviation of a motion, `2π`.
pub const DEFAULT_DEVIATION_ELBOW_BITS: u64 = 0x4019_21fb_5444_2d18;

/// The Move request that starts a motion: the two modes, the default deviations for
/// both the path and the goal pose, a synchronous motion generator and zero maximum
/// velocities.
pub fn move_request(
    controller_mode: ControllerMode,
    motion_generator_mode: MotionGeneratorMode,
) -> (r: MoveRequest)
    ensures
        r.controller_mode == controller_mode.spec_code(),
        r.motion_generator_mode == motion_generator_mode.spec_code(),
        r.maximum_path_deviation_translation == DEFAULT_DEVIATION_TRANSLATION_BITS,
        r.maximum_path_deviation_rotation == DEFAULT_DEVIATION_ROTATION_BITS,
        r.maximum_path_deviation_elbow == DEFAULT_DEVIATION_ELBOW_BITS,
        r.maximum_goal_pose_deviation_translation == DEFAULT_DEVIATION_TRANSLATION_BITS,
        r.maximum_goal_pose_deviation_rotation == DEFAULT_DEVIATION_ROTATION_BITS,
        r.maximum_goal_pose_deviation_elbow == DEFAULT_DEVIATION_ELBOW_BITS,
        r.use_async_motion_generator == 0,
        r.maximum_velocity@ == Seq::new(7, |i: int| 0u64),
{
    let r = MoveRequest {
        controller_mode: controller_mode.code(),
        motion_generator_mode: motion_generator_mode.code(),
        maximum_path_deviation_translation: DEFAULT_DEVIATION_TRANSLATION_BITS,
        maximum_path_deviation_rotation: DEFAULT_DEVIATION_ROTATION_BITS,
        maximum_path_deviation_elbow: DEFAULT_DEVIATION_ELBOW_BITS,
        maximum_goal_pose_deviation_translation: DEFAULT_DEVIATION_TRANSLATION_BITS,
        maximum_goal_pose_deviation_rotation: DEFAULT_DEVIATION_ROTATION_BITS,
        maximum_goal_pose_deviation_elbow: DEFAULT_DEVIATION_ELBOW_BITS,
        use_async_motion_generator: 0,
        maximum_velocity: [0u64; 7],
    };
    assert(r.maximum_velocity@ =~= Seq::new(7, |i: int| 0u64));
    r
}

/// The outcome of a Move command with response `response` sent as `command_id`:
/// Success or MotionStarted give the command id (which identifies the motion), any other
/// known status is a command error naming it, an unknown status a protocol error.
pub open spec fn move_outcome(response: Seq<u8>, command_id: u32, r: FrankaResult<u32>) -> bool {
    if response.len() <= 12 {
        protocol_failure(r, "Move response too short"@)
    } else {
        let status = response[12];
        match MoveStatus::spec_from_u8(status) {
            Some(MoveStatus::Success) | Some(MoveStatus::MotionStarted) => r == Ok::<
                u32,
                FrankaError,
            >(command_id),
            Some(s) => command_failure(r, "Move command rejected: "@ + s.spec_debug_name()),
            None => protocol_failure(r, "unknown Move status: "@ + decimal(status as nat)),
        }
    }
}

/// The motion id from the response to a Move command sent as `command_id`.
pub fn move_response_result(response: &[u8], command_id: u32) -> (r: FrankaResult<u32>)
    ensures
        move_outcome(response@, command_id, r),
{
    if response.len() <= 12 {
        return Err(FrankaError::Protocol { message: owned_text("Move response too short") });
    }
    let status = response[12];
    match MoveStatus::from_u8(status) {
        Some(MoveStatus::Success) | Some(MoveStatus::MotionStarted) => Ok(command_id),
        Some(s) => Err(
            FrankaError::Command {
                message: concat_text("Move command rejected: ", s.debug_name()),
            },
        ),
        None => Err(
            FrankaError::Protocol {
                message: text_then_number("unknown Move status: ", status as u64),
            },
        ),
    }
}

/// The result of finishing a motion given the StopMove response: any response with a
/// status byte is accepted, whatever the status.
pub fn finish_motion_response_result(response: &[u8]) -> (r: FrankaResult<()>)
    ensures
        r is Ok <==> response@.len() > 12,
        r is Err ==> protocol_failure(r, "StopMove response too short"@),
{
    if response.len() <= 12 {
        return Err(FrankaError::Protocol { message: owned_text("StopMove response too short") });
    }
    Ok(())
}

/// The result of stopping all motions given the StopMove response: status 0 is
/// success, any other status a command error naming it.
pub fn stop_response_result(response: &[u8]) -> (r: FrankaResult<()>)
    ensures
        response@.len() <= 12 ==> protocol_failure(r, "StopMove response too short"@),
        response@.len() > 12 ==> {
            &&& r is Ok <==> response@[12] == 0
            &&& r is Err ==> command_failure(
                r,
                "StopMove failed with status "@ + decimal(response@[12] as nat),
            )
        },
{
    if response.len() <= 12 {
        return Err(FrankaError::Protocol { message: owned_text("StopMove response too short") });
    }
    let status = response[12];
    if status == 0 {
        Ok(())
    } else {
        Err(
            FrankaError::Command {
                message: text_then_number("StopMove failed with status ", status as u64),
            },
        )
    }
}

/// A motion generator command whose values are all zero (bit pattern of `0.0`) and
/// whose flags are clear.
pub open spec fn is_zero_motion(m: MotionGeneratorCommand) -> bool {
    &&& m.q_c@ == Seq::new(7, |i: int| 0u64)
    &&& m.dq_c@ == Seq::new(7, |i: int| 0u64)
    &&& m.o_t_ee_c@ == Seq::new(16, |i: int| 0u64)
    &&& m.o_dp_ee_c@ == Seq::new(6, |i: int| 0u64)
    &&& m.elbow_c@ == Seq::new(2, |i: int| 0u64)
    &&& m.valid_elbow == 0
    &&& m.motion_generation_finished == 0
}

/// A controller command whose torques are all zero (bit pattern of `0.0`) and whose
/// flag is clear.
pub open spec fn is_zero_control(c: ControllerCommand) -> bool {
    &&& c.tau_j_d@ == Seq::new(7, |i: int| 0u64)
    &&& c.torque_command_finished == 0
}

/// A motion generator command with all values zero and flags clear.
pub fn zero_motion_command() -> (m: MotionGeneratorCommand)
    ensures
        is_zero_motion(m),
{
    let m = MotionGeneratorCommand {
        q_c: [0u64; 7],
        dq_c: [0u64; 7],
        o_t_ee_c: [0u64; 16],
        o_dp_ee_c: [0u64; 6],
        elbow_c: [0u64; 2],
        valid_elbow: 0,
        motion_generation_finished: 0,
    };
    assert(m.q_c@ =~= Seq::new(7, |i: int| 0u64));
    assert(m.dq_c@ =~= Seq::new(7, |i: int| 0u64));
    assert(m.o_t_ee_c@ =~= Seq::new(16, |i: int| 0u64));
    assert(m.o_dp_ee_c@ =~= Seq::new(6, |i: int| 0u64));
    assert(m.elbow_c@ =~= Seq::new(2, |i: int| 0u64));
    m
}

/// A controller command with all torques zero and the flag clear.
pub fn zero_controller_command() -> (c: ControllerCommand)
    ensures
        is_zero_control(c),
{
    let c = ControllerCommand { tau_j_d: [0u64; 7], torque_command_finished: 0 };
    assert(c.tau_j_d@ =~= Seq::new(7, |i: int| 0u64));
    c
}

/// Assembles the command sent in one control cycle: the given motion and control parts
/// (all zero where absent), with the finished flag of each part set when it finished and
/// otherwise as given.
pub fn build_robot_command(
    message_id: u64,
    motion: Option<&MotionGeneratorCommand>,
    control: Option<&ControllerCommand>,
    motion_finished: bool,
    control_finished: bool,
) -> (r: RobotCommand)
    ensures
        r.message_id == message_id,
        match motion {
            Some(m) => {
                &&& r.motion.q_c == m.q_c
                &&& r.motion.dq_c == m.dq_c
                &&& r.motion.o_t_ee_c == m.o_t_ee_c
                &&& r.motion.o_dp_ee_c == m.o_dp_ee_c
                &&& r.motion.elbow_c == m.elbow_c
                &&& r.motion.valid_elbow == m.valid_elbow
                &&& r.motion.motion_generation_finished == if motion_finished {
                    1
                } else {
                    m.motion_generation_finished
                }
            },
            None => is_zero_motion(
                MotionGeneratorCommand { motion_generation_finished: 0, ..r.motion },
            ) && r.motion.motion_generation_finished == if motion_finished {
                1u8
            } else {
                0u8
            },
        },
        match control {
            Some(c) => {
                &&& r.control.tau_j_d == c.tau_j_d
                &&& r.control.torque_command_finished == if control_finished {
                    1
                } else {
                    c.torque_command_finished
                }
            },
            None => is_zero_control(
                ControllerCommand { torque_command_finished: 0, ..r.control },
            ) && r.control.torque_command_finished == if control_finished {
                1u8
            } else {
                0u8
            },
        },
{
    let mut motion_cmd = match motion {
        Some(m) => *m,
        None => zero_motion_command(),
    };
    let mut control_cmd = match control {
        Some(c) => *c,
        None => zero_controller_command(),
    };
    if motion_finished {
        motion_cmd.motion_generation_finished = 1;
    }
    if control_finished {
        control_cmd.torque_command_finished = 1;
    }
    RobotCommand { message_id, motion: motion_cmd, control: control_cmd }
}

/// Whether the filter of a motion has seen its first command.
pub struct FilterState {
    pub initialized: bool,
}

impl FilterState {
    /// A filter that has not seen a command yet.
    pub fn new() -> (f: FilterState)
        ensures
            !f.initialized,
    {
        FilterState { initialized: false }
    }

    /// The reference that a new command is filtered and rate-limited against: the command
    /// itself the first time (which marks the filter as initialized), afterwards the
    /// robot's last desired value.
    pub fn select_reference<T: Copy>(&mut self, commanded: T, last_desired: T) -> (r: T)
        ensures
            final(self).initialized,
            r == if old(self).initialized {
                last_desired
            } else {
                commanded
            },
    {
        if !self.initialized {
            self.initialized = true;
            commanded
        } else {
            last_desired
        }
    }
}

} // verus!

verus! {

/// Where a control loop stands.
#[derive(Debug, Clone, Copy, PartialEq, Eq, Structural)]
pub enum LoopPhase {
    /// Waiting for the next robot state.
    Receiving,
    /// Running the callbacks on the state received and sending the command.
    Cycling,
    /// The motion ended normally; its StopMove is being sent and checked.
    Finishing,
    /// The motion ended with an error; its StopMove is being sent, its response ignored.
    Cancelling,
    /// The loop is over.
    Done,
}

/// What a control loop reports after doing the action it was given.
#[derive(Debug, Clone, Copy, PartialEq, Eq, Structural)]
pub enum LoopEvent {
    /// A robot state arrived; `has_errors` tells whether it reports active errors.
    StateReceived { has_errors: bool },
    /// The cycle's command was sent; `finished` tells whether it was the final one.
    CommandSent { finished: bool },
    /// The StopMove exchange ended; `ok` tells whether its response was accepted.
    Stopped { ok: bool },
    /// Receiving, processing or sending failed.
    Failed,
}

/// What a control loop does next.
#[derive(Debug, Clone, Copy, PartialEq, Eq, Structural)]
pub enum LoopAction {
    /// Wait for the next robot state.
    ReceiveState,
    /// Run the callbacks on the state, process and send their command.
    RunCycle,
    /// Send StopMove and check its response.
    FinishMotion,
    /// Send StopMove and ignore its response.
    CancelMotion,
    /// Return the log of the motion.
    ReturnLog,
    /// Return the error that ended the motion.
    ReturnError,
}

/// The next phase and action of a control loop in `phase` on `event`.
pub open spec fn loop_transition(phase: LoopPhase, event: LoopEvent) -> (LoopPhase, LoopAction) {
    match (phase, event) {
        (LoopPhase::Receiving, LoopEvent::StateReceived { has_errors }) => if has_errors {
            (LoopPhase::Cancelling, LoopAction::CancelMotion)
        } else {
            (LoopPhase::Cycling, LoopAction::RunCycle)
        },
        (LoopPhase::Cycling, LoopEvent::CommandSent { finished }) => if finished {
            (LoopPhase::Finishing, LoopAction::FinishMotion)
        } else {
            (LoopPhase::Receiving, LoopAction::ReceiveState)
        },
        (LoopPhase::Finishing, LoopEvent::Stopped { ok }) => if ok {
            (LoopPhase::Done, LoopAction::ReturnLog)
        } else {
            (LoopPhase::Done, LoopAction::ReturnError)
        },
        (LoopPhase::Finishing, LoopEvent::Failed) => (LoopPhase::Done, LoopAction::ReturnError),
        (LoopPhase::Cancelling, _) => (LoopPhase::Done, LoopAction::ReturnError),
        (LoopPhase::Receiving, _) | (LoopPhase::Cycling, _) => (
            LoopPhase::Cancelling,
            LoopAction::CancelMotion,
        ),
        (LoopPhase::Finishing, _) => (LoopPhase::Done, LoopAction::ReturnError),
        (LoopPhase::Done, _) => (LoopPhase::Done, LoopAction::ReturnError),
    }
}

/// The decisions of a 1 kHz control loop once its motion has started: receive a state,
/// stop on reported errors, run a cycle, stop after the final command, and end a motion
/// normally (StopMove checked) or after an error (StopMove sent, response ignored).
pub struct ControlLoop {
    phase: LoopPhase,
}

impl ControlLoop {
    /// The loop's phase.
    pub closed spec fn spec_phase(&self) -> LoopPhase {
        self.phase
    }

    /// A loop whose motion has just started: it first waits for a robot state.
    pub fn new() -> (l: ControlLoop)
        ensures
            l.spec_phase() == LoopPhase::Receiving,
    {
        ControlLoop { phase: LoopPhase::Receiving }
    }

    /// The action to begin with.
    pub fn first_action(&self) -> (a: LoopAction)
        ensures
            a == LoopAction::ReceiveState,
    {
        LoopAction::ReceiveState
    }

    /// The loop's phase.
    pub fn phase(&self) -> (p: LoopPhase)
        ensures
            p == self.spec_phase(),
    {
        self.phase
    }

    /// Takes the outcome of the last action and says what to do next.
    pub fn step(&mut self, event: LoopEvent) -> (a: LoopAction)
        ensures
            (final(self).spec_phase(), a) == loop_transition(old(self).spec_phase(), event),
    {
        let (phase, action) = match (self.phase, event) {
            (LoopPhase::Receiving, LoopEvent::StateReceived { has_errors }) => if has_errors {
                (LoopPhase::Cancelling, LoopAction::CancelMotion)
            } else {
                (LoopPhase::Cycling, LoopAction::RunCycle)
            },
            (LoopPhase::Cycling, LoopEvent::CommandSent { finished }) => if finished {
                (LoopPhase::Finishing, LoopAction::FinishMotion)
            } else {
                (LoopPhase::Receiving, LoopAction::ReceiveState)
            },
            (LoopPhase::Finishing, LoopEvent::Stopped { ok }) => if ok {
                (LoopPhase::Done, LoopAction::ReturnLog)
            } else {
                (LoopPhase::Done, LoopAction::ReturnError)
            },
            (LoopPhase::Finishing, LoopEvent::Failed) => (LoopPhase::Done, LoopAction::ReturnError),
            (LoopPhase::Cancelling, _) => (LoopPhase::Done, LoopAction::ReturnError),
            (LoopPhase::Receiving, _) | (LoopPhase::Cycling, _) => (
                LoopPhase::Cancelling,
                LoopAction::CancelMotion,
            ),
            (LoopPhase::Finishing, _) => (LoopPhase::Done, LoopAction::ReturnError),
            (LoopPhase::Done, _) => (LoopPhase::Done, LoopAction::ReturnError),
        };
        self.phase = phase;
        action
    }
}

/// What a control loop does on each event: it runs a cycle exactly on an error-free state
/// received while waiting for one, waits for the next state exactly after a command that
/// was not the final one, sends a checked StopMove exactly after the final command, and
/// returns the log exactly after that StopMove was accepted. Any other event while the
/// motion runs (a state with errors, a failure) leads to an unchecked StopMove; a stopped
/// loop returns an error unless its checked StopMove was accepted; and the next phase is
/// the one the action leads to, the loop staying over once it is over.
pub proof fn lemma_loop_decisions(phase: LoopPhase, event: LoopEvent)
    ensures
        (loop_transition(phase, event).1 == LoopAction::RunCycle) <==> (phase == LoopPhase::Receiving
            && event == (LoopEvent::StateReceived { has_errors: false })),
        (loop_transition(phase, event).1 == LoopAction::ReceiveState) <==> (phase
            == LoopPhase::Cycling && event == (LoopEvent::CommandSent { finished: false })),
        (loop_transition(phase, event).1 == LoopAction::FinishMotion) <==> (phase
            == LoopPhase::Cycling && event == (LoopEvent::CommandSent { finished: true })),
        (loop_transition(phase, event).1 == LoopAction::ReturnLog) <==> (phase
            == LoopPhase::Finishing && event == (LoopEvent::Stopped { ok: true })),
        (loop_transition(phase, event).1 == LoopAction::CancelMotion) <==> ((phase
            == LoopPhase::Receiving && event != (LoopEvent::StateReceived { has_errors: false }))
            || (phase == LoopPhase::Cycling && !(event is CommandSent))),
        (phase == LoopPhase::Finishing || phase == LoopPhase::Cancelling || phase
            == LoopPhase::Done) && loop_transition(phase, event).1 != LoopAction::ReturnLog
            ==> loop_transition(phase, event).1 == LoopAction::ReturnError,
        loop_transition(phase, event).0 == match loop_transition(phase, event).1 {
            LoopAction::ReceiveState => LoopPhase::Receiving,
            LoopAction::RunCycle => LoopPhase::Cycling,
            LoopAction::FinishMotion => LoopPhase::Finishing,
            LoopAction::CancelMotion => LoopPhase::Cancelling,
            LoopAction::ReturnLog | LoopAction::ReturnError => LoopPhase::Done,
        },
{
}

} // verus!
