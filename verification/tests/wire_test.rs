use franka_rs::control_loop::{build_robot_command, zero_controller_command, zero_motion_command};
use franka_rs::wire::robot::{
    CommandHeader, ConnectRequest, ConnectResponse, ControllerCommand, MotionGeneratorCommand,
    MoveStatus, RawRobotState, RobotCommand, GetterSetterStatus, Command, SetJointImpedanceRequest,
    SetLoadRequest, MoveRequest, SetCollisionBehaviorRequest,
};
use franka_rs::wire::{gripper, vacuum};

#[test]
fn command_header_size() {
    assert_eq!(CommandHeader::SIZE, 12);
}

#[test]
fn connect_request_size() {
    assert_eq!(std::mem::size_of::<ConnectRequest>(), 4);
}

#[test]
fn connect_response_size() {
    assert_eq!(ConnectResponse::SIZE, 3);
}

#[test]
fn motion_generator_command_size() {
    // 7*8 + 7*8 + 16*8 + 6*8 + 2*8 + 1 + 1 = 56+56+128+48+16+2 = 306
    assert_eq!(MotionGeneratorCommand::SIZE, 306);
}

#[test]
fn controller_command_size() {
    // 7*8 + 1 = 57
    assert_eq!(ControllerCommand::SIZE, 57);
}

#[test]
fn robot_command_size() {
    // 8 + 306 + 57 = 371
    assert_eq!(RobotCommand::SIZE, 371);
}

#[test]
fn raw_robot_state_from_bytes_roundtrip() {
    let mut bytes = vec![0u8; RawRobotState::SIZE];
    bytes[0..8].copy_from_slice(&42u64.to_ne_bytes());

    let state = RawRobotState::from_bytes(&bytes);
    let msg_id = { state.message_id };
    assert_eq!(msg_id, 42);
}

#[test]
fn robot_command_to_bytes_roundtrip() {
    let mut cmd = build_robot_command(0, None, None, false, false);
    cmd.message_id = 123;
    cmd.control.tau_j_d[0] = 1.5f64.to_bits();

    let bytes = cmd.to_bytes();
    assert_eq!(bytes.len(), RobotCommand::SIZE);

    let msg_id = u64::from_ne_bytes(bytes[0..8].try_into().unwrap());
    let tau_offset = 8 + MotionGeneratorCommand::SIZE;
    let tau = f64::from_ne_bytes(bytes[tau_offset..tau_offset + 8].try_into().unwrap());
    assert_eq!(msg_id, 123);
    assert_eq!(tau, 1.5);
}

#[test]
fn errors_as_bools_conversion() {
    let zeroed = vec![0u8; RawRobotState::SIZE];
    let mut state = RawRobotState::from_bytes(&zeroed);
    state.errors[0] = 1;
    state.errors[6] = 1;
    state.errors[40] = 1;

    let bools = state.errors_as_bools();
    assert!(bools[0]);
    assert!(!bools[1]);
    assert!(bools[6]);
    assert!(bools[40]);
}

#[test]
fn raw_robot_state_field_offsets() {
    assert_eq!(RawRobotState::SIZE, 1377);
    let mut bytes = vec![0u8; RawRobotState::SIZE + 5];
    // o_t_ee[1] sits right after the message id and o_t_ee[0].
    bytes[12..16].copy_from_slice(&2.5f32.to_ne_bytes());
    // q[3]: 8 + 6*64 + 4 + 36 + 12 + 4 + 36 + 12 + 8 + 8 + 3*28 + 3*4
    let q3 = 8 + 6 * 64 + 4 + 36 + 12 + 4 + 36 + 12 + 8 + 8 + 3 * 28 + 3 * 4;
    bytes[q3..q3 + 4].copy_from_slice(&(-1.25f32).to_ne_bytes());
    // The trailing fields: modes, error flags, reflex flags, robot mode, success rate.
    let tail = RawRobotState::SIZE - (1 + 1 + 41 + 41 + 1 + 4);
    bytes[tail] = 3;
    bytes[tail + 1] = 2;
    bytes[tail + 2 + 5] = 7;
    bytes[tail + 2 + 41 + 40] = 1;
    bytes[tail + 2 + 82] = 6;
    bytes[tail + 2 + 83..tail + 2 + 87].copy_from_slice(&0.5f32.to_ne_bytes());
    let state = RawRobotState::from_bytes(&bytes);
    assert_eq!(f32::from_bits(state.o_t_ee[1]), 2.5);
    assert_eq!(f32::from_bits(state.q[3]), -1.25);
    assert_eq!(state.motion_generator_mode, 3);
    assert_eq!(state.controller_mode, 2);
    assert!(state.errors_as_bools()[5]);
    assert!(state.reflex_reason_as_bools()[40]);
    assert!(!state.reflex_reason_as_bools()[39]);
    assert_eq!(state.robot_mode, 6);
    assert_eq!(f32::from_bits(state.control_command_success_rate), 0.5);
}

#[test]
fn command_header_roundtrip_and_layout() {
    let header = CommandHeader { command: 0x0102_0304, command_id: 7, size: 300 };
    let bytes = header.to_bytes();
    assert_eq!(&bytes[0..4], &[4, 3, 2, 1]);
    assert_eq!(&bytes[8..12], &300u32.to_le_bytes());
    let back = CommandHeader::from_bytes(&bytes);
    assert_eq!({ back.command }, 0x0102_0304);
    assert_eq!({ back.command_id }, 7);
    assert_eq!({ back.size }, 300);

    let g = gripper::CommandHeader { command: 2, command_id: 9, size: 50 };
    let gb = g.to_bytes();
    assert_eq!(gripper::CommandHeader::SIZE, 10);
    assert_eq!(&gb[0..2], &2u16.to_le_bytes());
    let gback = gripper::CommandHeader::from_bytes(&gb);
    assert_eq!(({ gback.command }, { gback.command_id }, { gback.size }), (2, 9, 50));

    let v = vacuum::CommandHeader { command: 3, command_id: 1, size: 18 };
    let vback = vacuum::CommandHeader::from_bytes(&v.to_bytes());
    assert_eq!(({ vback.command }, { vback.command_id }, { vback.size }), (3, 1, 18));
}

#[test]
fn request_encodings() {
    let req = ConnectRequest { version: 10, udp_port: 0x1234 };
    assert_eq!(req.to_bytes(), vec![10, 0, 0x34, 0x12]);

    let mut k = [0u64; 7];
    for (i, v) in k.iter_mut().enumerate() {
        *v = (i as f64 * 100.0).to_bits();
    }
    let imp = SetJointImpedanceRequest { k_theta: k };
    let bytes = imp.to_bytes();
    assert_eq!(bytes.len(), SetJointImpedanceRequest::SIZE);
    assert_eq!(f64::from_le_bytes(bytes[48..56].try_into().unwrap()), 600.0);

    let load = SetLoadRequest { m_load: 2.0f64.to_bits(), f_x_cload: [0; 3], i_load: [0; 9] };
    let lb = load.to_bytes();
    assert_eq!(lb.len(), 104);
    assert_eq!(f64::from_le_bytes(lb[0..8].try_into().unwrap()), 2.0);

    let mv = MoveRequest {
        controller_mode: 2,
        motion_generator_mode: 5,
        maximum_path_deviation_translation: 10.0f64.to_bits(),
        maximum_path_deviation_rotation: 3.12f64.to_bits(),
        maximum_path_deviation_elbow: 1.0f64.to_bits(),
        maximum_goal_pose_deviation_translation: 10.0f64.to_bits(),
        maximum_goal_pose_deviation_rotation: 3.12f64.to_bits(),
        maximum_goal_pose_deviation_elbow: 1.0f64.to_bits(),
        use_async_motion_generator: 1,
        maximum_velocity: [0; 7],
    };
    let mb = mv.to_bytes();
    assert_eq!(mb.len(), MoveRequest::SIZE);
    assert_eq!(&mb[0..8], &[2, 0, 0, 0, 5, 0, 0, 0]);
    assert_eq!(mb[56], 1);

    let coll = SetCollisionBehaviorRequest {
        lower_torque_thresholds_acceleration: [1; 7],
        upper_torque_thresholds_acceleration: [2; 7],
        lower_torque_thresholds_nominal: [3; 7],
        upper_torque_thresholds_nominal: [4; 7],
        lower_force_thresholds_acceleration: [5; 6],
        upper_force_thresholds_acceleration: [6; 6],
        lower_force_thresholds_nominal: [7; 6],
        upper_force_thresholds_nominal: [8; 6],
    };
    let cb = coll.to_bytes();
    assert_eq!(cb.len(), 416);
    assert_eq!(cb[0], 1);
    assert_eq!(cb[415 - 7], 8);
}

#[test]
fn build_robot_command_sets_finished_flags() {
    let mut motion = zero_motion_command();
    motion.q_c[2] = 0.25f64.to_bits();
    let control = ControllerCommand { tau_j_d: [1.0f64.to_bits(); 7], torque_command_finished: 0 };
    let cmd = build_robot_command(17, Some(&motion), Some(&control), true, false);
    assert_eq!({ cmd.message_id }, 17);
    assert_eq!(cmd.motion.motion_generation_finished, 1);
    assert_eq!(cmd.control.torque_command_finished, 0);
    assert_eq!(f64::from_bits(cmd.motion.q_c[2]), 0.25);
    assert_eq!(f64::from_bits(cmd.control.tau_j_d[6]), 1.0);

    let only_torque = build_robot_command(1, None, Some(&control), false, true);
    assert_eq!(only_torque.motion.motion_generation_finished, 0);
    assert_eq!(only_torque.control.torque_command_finished, 1);
    assert_eq!(only_torque.motion.q_c, [0u64; 7]);
    let zero = zero_controller_command();
    assert_eq!(zero.tau_j_d, [0u64; 7]);
}

#[test]
fn status_codes_roundtrip() {
    for code in 0u8..=255 {
        match MoveStatus::from_u8(code) {
            Some(s) => assert_eq!(s.code(), code),
            None => assert!(code >= 12),
        }
        match GetterSetterStatus::from_u8(code) {
            Some(s) => assert_eq!(s.code(), code),
            None => assert!(code >= 4),
        }
    }
    assert_eq!(MoveStatus::from_u8(11), Some(MoveStatus::Aborted));
    assert_eq!(MoveStatus::Preempted.debug_name(), "Preempted");
    assert_eq!(Command::GetRobotModel.code(), 11);
    assert_eq!(gripper::GripperStatus::from_u16(3), Some(gripper::GripperStatus::Aborted));
    assert_eq!(gripper::GripperStatus::from_u16(4), None);
    assert_eq!(vacuum::VacuumGripperStatus::from_u16(2), Some(vacuum::VacuumGripperStatus::Unsuccessful));
    assert_eq!(vacuum::DeviceStatus::from_u8(1), Some(vacuum::DeviceStatus::Yellow));
    assert_eq!(vacuum::DeviceStatus::from_u8(4), None);
}

#[test]
fn gripper_and_vacuum_state_decoding() {
    let mut bytes = vec![0u8; gripper::RawGripperState::SIZE];
    bytes[0..4].copy_from_slice(&5u32.to_le_bytes());
    bytes[4..12].copy_from_slice(&0.04f64.to_le_bytes());
    bytes[12..20].copy_from_slice(&0.08f64.to_le_bytes());
    bytes[20] = 1;
    bytes[21..23].copy_from_slice(&31u16.to_le_bytes());
    let g = gripper::RawGripperState::from_bytes(&bytes);
    assert_eq!({ g.message_id }, 5);
    assert_eq!(f64::from_bits(g.width), 0.04);
    assert_eq!(f64::from_bits(g.max_width), 0.08);
    assert_eq!(g.is_grasped, 1);
    assert_eq!({ g.temperature }, 31);

    let mut vb = vec![0u8; vacuum::RawVacuumGripperState::SIZE];
    vb[4] = 1;
    vb[7] = 9;
    vb[8..12].copy_from_slice(&(-3i32).to_le_bytes());
    vb[12..16].copy_from_slice(&70000i32.to_le_bytes());
    let v = vacuum::RawVacuumGripperState::from_bytes(&vb);
    assert_eq!(v.in_control_range, 1);
    assert_eq!(v.device_status, 9);
    assert_eq!({ v.actual_power }, -3);
    assert_eq!({ v.vacuum }, 70000);

    let vr = vacuum::VacuumRequest { vacuum: 100, profile: 2, timeout_ms: 1500 };
    let b = vr.to_bytes();
    assert_eq!(b.len(), 10);
    assert_eq!(&b[0..2], &[100, 2]);
    assert_eq!(&b[2..10], &1500u64.to_le_bytes());
    assert_eq!(vacuum::DropOffRequest { timeout_ms: 7 }.to_bytes(), 7u64.to_le_bytes().to_vec());
}

#[test]
fn raw_robot_state_from_packet_refuses_short_packets() {
    let mut buf = vec![0u8; RawRobotState::SIZE + 128];
    buf[0..8].copy_from_slice(&42u64.to_le_bytes());
    assert!(RawRobotState::from_packet(&buf, RawRobotState::SIZE - 1).is_none());
    assert!(RawRobotState::from_packet(&buf, 0).is_none());
    let s = RawRobotState::from_packet(&buf, RawRobotState::SIZE).expect("full packet");
    assert_eq!(s.message_id, 42);
    assert_eq!(RawRobotState::from_packet(&buf, buf.len()).unwrap().message_id, 42);
}
