use franka_rs::control_loop::move_request;
use franka_rs::types::{ControllerMode, MotionGeneratorMode};
use franka_rs::control_loop::{ControlLoop, LoopAction, LoopEvent, LoopPhase};

fn run(events: &[LoopEvent]) -> (Vec<LoopAction>, LoopPhase) {
    let mut control = ControlLoop::new();
    let mut actions = vec![control.first_action()];
    for event in events {
        actions.push(control.step(*event));
    }
    (actions, control.phase())
}

#[test]
fn control_loop_normal_motion_returns_log() {
    let (actions, phase) = run(&[
        LoopEvent::StateReceived { has_errors: false },
        LoopEvent::CommandSent { finished: false },
        LoopEvent::StateReceived { has_errors: false },
        LoopEvent::CommandSent { finished: true },
        LoopEvent::Stopped { ok: true },
    ]);
    assert_eq!(
        actions,
        vec![
            LoopAction::ReceiveState,
            LoopAction::RunCycle,
            LoopAction::ReceiveState,
            LoopAction::RunCycle,
            LoopAction::FinishMotion,
            LoopAction::ReturnLog,
        ]
    );
    assert_eq!(phase, LoopPhase::Done);
}

#[test]
fn control_loop_reported_errors_cancel_motion() {
    let (actions, phase) = run(&[
        LoopEvent::StateReceived { has_errors: true },
        LoopEvent::Stopped { ok: false },
    ]);
    assert_eq!(
        actions,
        vec![LoopAction::ReceiveState, LoopAction::CancelMotion, LoopAction::ReturnError]
    );
    assert_eq!(phase, LoopPhase::Done);
}

#[test]
fn control_loop_failed_cycle_cancels_motion() {
    let (actions, _) = run(&[
        LoopEvent::StateReceived { has_errors: false },
        LoopEvent::Failed,
        LoopEvent::Stopped { ok: true },
    ]);
    assert_eq!(
        actions,
        vec![
            LoopAction::ReceiveState,
            LoopAction::RunCycle,
            LoopAction::CancelMotion,
            LoopAction::ReturnError,
        ]
    );
}

#[test]
fn control_loop_failed_receive_cancels_motion() {
    let (actions, _) = run(&[LoopEvent::Failed, LoopEvent::Stopped { ok: false }]);
    assert_eq!(
        actions,
        vec![LoopAction::ReceiveState, LoopAction::CancelMotion, LoopAction::ReturnError]
    );
}

#[test]
fn control_loop_rejected_stop_returns_error() {
    let (actions, phase) = run(&[
        LoopEvent::StateReceived { has_errors: false },
        LoopEvent::CommandSent { finished: true },
        LoopEvent::Stopped { ok: false },
    ]);
    assert_eq!(actions[3], LoopAction::ReturnError);
    assert_eq!(phase, LoopPhase::Done);
}

#[test]
fn control_loop_stays_done() {
    let mut control = ControlLoop::new();
    control.step(LoopEvent::Failed);
    control.step(LoopEvent::Stopped { ok: false });
    assert_eq!(control.phase(), LoopPhase::Done);
    assert_eq!(control.step(LoopEvent::StateReceived { has_errors: false }), LoopAction::ReturnError);
    assert_eq!(control.phase(), LoopPhase::Done);
}

use franka_rs::active_control::{ControlSession, SessionKind};
use franka_rs::control_loop::zero_motion_command;

#[test]
fn session_commands_carry_consecutive_ids() {
    let mut session = ControlSession::new(SessionKind::Torque);
    let tau = [1.5f64.to_bits(); 7];
    let first = session.next_command(None, Some(tau));
    let second = session.next_command(None, Some(tau));
    assert_eq!(first.message_id, 0);
    assert_eq!(second.message_id, 1);
    assert_eq!(session.message_id(), 2);
    assert_eq!(first.control.tau_j_d, tau);
    assert_eq!(first.control.torque_command_finished, 0);
    assert_eq!(first.motion.q_c, [0u64; 7]);
}

#[test]
fn session_motion_command_keeps_motion() {
    let mut session = ControlSession::new(SessionKind::Motion);
    let mut motion = zero_motion_command();
    motion.q_c = [0.25f64.to_bits(); 7];
    motion.valid_elbow = 1;
    let c = session.next_command(Some(&motion), None);
    assert_eq!(c.motion.q_c, motion.q_c);
    assert_eq!(c.motion.valid_elbow, 1);
    assert_eq!(c.control.tau_j_d, [0u64; 7]);
}

#[test]
fn torque_session_finishes_once() {
    let mut session = ControlSession::new(SessionKind::Torque);
    session.next_command(None, Some([0u64; 7]));
    let last = session.finish().expect("first finish hands out the final command");
    assert_eq!(last.message_id, 1);
    assert_eq!(last.control.torque_command_finished, 1);
    assert_eq!(last.motion.motion_generation_finished, 0);
    assert!(session.is_finished());
    assert!(session.finish().is_none());
    assert_eq!(session.message_id(), 1);
}

#[test]
fn motion_session_final_command_sets_motion_flag() {
    let mut session = ControlSession::new(SessionKind::Motion);
    let last = session.finish().unwrap();
    assert_eq!(last.message_id, 0);
    assert_eq!(last.motion.motion_generation_finished, 1);
    assert_eq!(last.control.torque_command_finished, 0);
    assert!(session.finish().is_none());
}

#[test]
fn move_request_defaults() {
    let r = move_request(ControllerMode::ExternalController, MotionGeneratorMode::JointVelocity);
    assert_eq!(r.controller_mode, 2);
    assert_eq!(r.motion_generator_mode, 2);
    assert_eq!(r.maximum_path_deviation_translation, 10.0f64.to_bits());
    assert_eq!(r.maximum_path_deviation_rotation, 3.12f64.to_bits());
    assert_eq!(r.maximum_path_deviation_elbow, (2.0 * std::f64::consts::PI).to_bits());
    assert_eq!(r.maximum_goal_pose_deviation_translation, 10.0f64.to_bits());
    assert_eq!(r.maximum_goal_pose_deviation_rotation, 3.12f64.to_bits());
    assert_eq!(r.maximum_goal_pose_deviation_elbow, (2.0 * std::f64::consts::PI).to_bits());
    assert_eq!(r.use_async_motion_generator, 0);
    assert_eq!(r.maximum_velocity, [0.0f64.to_bits(); 7]);
    let n = move_request(ControllerMode::JointImpedance, MotionGeneratorMode::NoMotionGenerator);
    assert_eq!((n.controller_mode, n.motion_generator_mode), (0, 5));
}
