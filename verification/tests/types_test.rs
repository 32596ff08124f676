use std::ops::ControlFlow;

use franka_rs::control_loop::FilterState;
use franka_rs::control_types::{is_finished, motion_value, MotionResult};
use franka_rs::network::NetworkConfig;
use franka_rs::robot::guiding_mode_request;
use franka_rs::types::{active_joints_for_frame, ControllerMode, Frame, MotionGeneratorMode, RobotMode};

#[test]
fn robot_mode_from_wire() {
    assert_eq!(RobotMode::from_wire(0), RobotMode::Other);
    assert_eq!(RobotMode::from_wire(1), RobotMode::Idle);
    assert_eq!(RobotMode::from_wire(2), RobotMode::Move);
    assert_eq!(RobotMode::from_wire(5), RobotMode::UserStopped);
    assert_eq!(RobotMode::from_wire(255), RobotMode::Other);
}

#[test]
fn motion_generator_mode_codes_roundtrip() {
    let modes = [
        MotionGeneratorMode::Idle,
        MotionGeneratorMode::JointPosition,
        MotionGeneratorMode::JointVelocity,
        MotionGeneratorMode::CartesianPosition,
        MotionGeneratorMode::CartesianVelocity,
        MotionGeneratorMode::NoMotionGenerator,
    ];
    for (i, m) in modes.iter().enumerate() {
        assert_eq!(m.code(), i as u32);
        assert_eq!(MotionGeneratorMode::from_wire(m.code() as u8), *m);
    }
    assert_eq!(MotionGeneratorMode::from_wire(200), MotionGeneratorMode::NoMotionGenerator);
    assert_eq!(ControllerMode::ExternalController.code(), 2);
}

#[test]
fn active_joints_per_frame() {
    assert_eq!(active_joints_for_frame(Frame::Joint1), 1);
    assert_eq!(active_joints_for_frame(Frame::Joint6), 6);
    assert_eq!(active_joints_for_frame(Frame::Joint7), 7);
    assert_eq!(active_joints_for_frame(Frame::Stiffness), 7);
}

#[test]
fn motion_results() {
    let c: MotionResult<u32> = ControlFlow::Continue(3);
    let b: MotionResult<u32> = ControlFlow::Break(4);
    assert_eq!(motion_value(&c), 3);
    assert_eq!(motion_value(&b), 4);
    assert!(!is_finished(&c));
    assert!(is_finished(&b));
}

#[test]
fn filter_reference_is_command_first_then_desired() {
    let mut f = FilterState::new();
    assert!(!f.initialized);
    assert_eq!(f.select_reference(1.0f64, 2.0f64), 1.0);
    assert!(f.initialized);
    assert_eq!(f.select_reference(1.0f64, 2.0f64), 2.0);
}

#[test]
fn guiding_mode_flags_to_bytes() {
    let r = guiding_mode_request([true, false, true, false, false, true], true);
    assert_eq!(r.guiding_mode, [1, 0, 1, 0, 0, 1]);
    assert_eq!(r.nullspace, 1);
    let r = guiding_mode_request([false; 6], false);
    assert_eq!(r.to_bytes(), vec![0; 7]);
}

#[test]
fn network_config_defaults() {
    let c = NetworkConfig::default();
    assert!(c.keepalive_enabled);
    assert_eq!(c.tcp_timeout.as_millis(), 1000);
    assert_eq!(c.udp_timeout.as_millis(), 1000);
    assert_eq!(c.keepalive_idle.as_secs(), 1);
    assert_eq!(c.keepalive_interval.as_secs(), 3);
    let d = c.clone();
    assert_eq!(d.tcp_timeout, c.tcp_timeout);
}
