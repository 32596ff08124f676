//! The bookkeeping of a control session driven by its caller (no callback): which
//! message id the next command carries, and whether the final command was handed out.

use vstd::prelude::*;

use crate::control_loop::{
    is_zero_control, is_zero_motion, zero_controller_command, zero_motion_command,
};
use crate::wire::robot::{ControllerCommand, MotionGeneratorCommand, RobotCommand};

verus! {

/// What a session commands: torques only, or a motion generator.
#[derive(Debug, Clone, Copy, PartialEq, Eq, Structural)]
pub enum SessionKind {
    /// Torques only; the final command sets the torque flag.
    Torque,
    /// A motion generator (with torques or not); the final command sets the motion flag.
    Motion,
}

/// The state of a control session as its contracts see it.
pub struct SessionView {
    pub kind: SessionKind,
    pub message_id: u64,
    pub finished: bool,
}

/// The final command of a session of kind `kind` whose next message id is `message_id`:
/// everything zero but the finished flag of the part that the session commands.
pub open spec fn is_final_command(kind: SessionKind, message_id: u64, c: RobotCommand) -> bool {
    &&& c.message_id == message_id
    &&& match kind {
        SessionKind::Torque => {
            &&& is_zero_motion(c.motion)
            &&& c.control.tau_j_d@ == Seq::new(7, |i: int| 0u64)
            &&& c.control.torque_command_finished == 1
        },
        SessionKind::Motion => {
            &&& is_zero_control(c.control)
            &&& is_zero_motion(MotionGeneratorCommand { motion_generation_finished: 0, ..c.motion })
            &&& c.motion.motion_generation_finished == 1
        },
    }
}

/// The session and the command handed out after `finish` on session `s`: nothing the
/// second time, the final command the first time.
pub open spec fn finish_step(s: SessionView) -> (SessionView, Option<u64>) {
    if s.finished {
        (s, None)
    } else {
        (SessionView { finished: true, ..s }, Some(s.message_id))
    }
}

/// The message ids and finished flag of a control session.
pub struct ControlSession {
    kind: SessionKind,
    message_id: u64,
    finished: bool,
}

impl View for ControlSession {
    type V = SessionView;

    closed spec fn view(&self) -> SessionView {
        SessionView { kind: self.kind, message_id: self.message_id, finished: self.finished }
    }
}

impl ControlSession {
    /// A session that has just started: its first command carries message id 0.
    pub fn new(kind: SessionKind) -> (s: ControlSession)
        ensures
            s@ == (SessionView { kind, message_id: 0, finished: false }),
    {
        ControlSession { kind, message_id: 0, finished: false }
    }

    /// The message id of the next command.
    pub fn message_id(&self) -> (id: u64)
        ensures
            id == self@.message_id,
    {
        self.message_id
    }

    /// Whether the final command was handed out.
    pub fn is_finished(&self) -> (b: bool)
        ensures
            b == self@.finished,
    {
        self.finished
    }

    /// Whether another command can be written: the next message id has a successor.
    pub fn can_write(&self) -> (b: bool)
        ensures
            b == (self@.message_id < u64::MAX),
    {
        self.message_id < u64::MAX
    }

    /// The command that carries `motion` and `tau_j_d` (zero torques where absent) under
    /// the next message id, which then advances by one.
    pub fn next_command(
        &mut self,
        motion: Option<&MotionGeneratorCommand>,
        tau_j_d: Option<[u64; 7]>,
    ) -> (c: RobotCommand)
        requires
            old(self)@.message_id < u64::MAX,
        ensures
            c.message_id == old(self)@.message_id,
            final(self)@ == (SessionView { message_id: (old(self)@.message_id + 1) as u64, ..old(self)@ }),
            match motion {
                Some(m) => c.motion == *m,
                None => is_zero_motion(c.motion),
            },
            match tau_j_d {
                Some(t) => c.control.tau_j_d == t && c.control.torque_command_finished == 0,
                None => is_zero_control(c.control),
            },
    {
        let motion_cmd = match motion {
            Some(m) => *m,
            None => zero_motion_command(),
        };
        let control_cmd = match tau_j_d {
            Some(t) => ControllerCommand { tau_j_d: t, torque_command_finished: 0 },
            None => zero_controller_command(),
        };
        let c = RobotCommand { message_id: self.message_id, motion: motion_cmd, control: control_cmd };
        self.message_id = self.message_id + 1;
        c
    }

    /// Ends the session: the first time, marks it finished and hands out its final
    /// command (under the next message id, which does not advance); afterwards, nothing.
    pub fn finish(&mut self) -> (c: Option<RobotCommand>)
        ensures
            final(self)@ == finish_step(old(self)@).0,
            match finish_step(old(self)@).1 {
                Some(id) => c is Some && is_final_command(old(self)@.kind, id, c->0),
                None => c is None,
            },
    {
        if self.finished {
            return None;
        }
        self.finished = true;
        let mut motion_cmd = zero_motion_command();
        let mut control_cmd = zero_controller_command();
        match self.kind {
            SessionKind::Torque => control_cmd.torque_command_finished = 1,
            SessionKind::Motion => motion_cmd.motion_generation_finished = 1,
        }
        Some(RobotCommand { message_id: self.message_id, motion: motion_cmd, control: control_cmd })
    }
}

/// A session hands out its final command once: after a `finish`, every later `finish`
/// hands out nothing and leaves the session as it is.
pub proof fn lemma_finish_once(s: SessionView)
    ensures
        finish_step(s).0.finished,
        finish_step(finish_step(s).0).1 is None,
        finish_step(finish_step(s).0).0 == finish_step(s).0,
        finish_step(s).0.message_id == s.message_id,
        finish_step(s).0.kind == s.kind,
{
}

} // verus!
