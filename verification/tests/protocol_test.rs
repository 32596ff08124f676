use franka_rs::control_loop::{finish_motion_response_result, move_response_result, stop_response_result};
use franka_rs::errors::FrankaError;
use franka_rs::gripper::{gripper_command_result, gripper_response_result, parse_gripper_status};
use franka_rs::network::command::{
    error_recovery_response_result, parse_response_status, robot_model_from_response,
    setter_response_result, setter_status_result,
};
use franka_rs::network::handshake::{
    gripper_connect_response_result, robot_connect_response_result,
    vacuum_gripper_connect_response_result, robot_connect_request,
};
use franka_rs::vacuum_gripper::{
    parse_vacuum_status, vacuum_command_result, vacuum_request, VacuumDeviceStatus,
    VacuumGripperState, VacuumProfile,
};
use franka_rs::wire::gripper::{Command as GripperCommand, GripperStatus};
use franka_rs::wire::vacuum::{Command as VacuumCommand, RawVacuumGripperState, VacuumGripperStatus};

fn response(status: &[u8]) -> Vec<u8> {
    let mut r = vec![0u8; 12];
    r.extend_from_slice(status);
    r
}

fn text(r: Result<impl std::fmt::Debug, FrankaError>) -> String {
    r.unwrap_err().to_string()
}

#[test]
fn status_byte_follows_header() {
    assert_eq!(parse_response_status(&response(&[7])).unwrap(), 7);
    assert_eq!(
        text(parse_response_status(&response(&[]))),
        "protocol error: response too short to contain status"
    );
}

#[test]
fn setter_statuses() {
    assert!(setter_status_result(0).is_ok());
    assert_eq!(text(setter_status_result(1)), "command rejected: command not possible in current state");
    assert_eq!(text(setter_status_result(2)), "command rejected: invalid argument");
    assert_eq!(
        text(setter_status_result(3)),
        "command rejected: command rejected due to activated safety functions"
    );
    assert_eq!(text(setter_status_result(42)), "protocol error: unknown setter status: 42");
    assert!(setter_response_result(&response(&[0])).is_ok());
    assert!(setter_response_result(&[0u8; 12]).is_err());
}

#[test]
fn error_recovery_statuses() {
    assert!(error_recovery_response_result(&response(&[0])).is_ok());
    assert_eq!(
        text(error_recovery_response_result(&response(&[3]))),
        "command rejected: automatic error recovery failed with status 3"
    );
}

#[test]
fn robot_model_text() {
    let mut r = response(&[0]);
    r.extend_from_slice("<robot/>".as_bytes());
    assert_eq!(robot_model_from_response(&r).unwrap(), "<robot/>");
    assert_eq!(
        text(robot_model_from_response(&response(&[0]))),
        "protocol error: GetRobotModel response too short"
    );
    let mut failed = response(&[2]);
    failed.push(b'x');
    assert_eq!(text(robot_model_from_response(&failed)), "command rejected: GetRobotModel failed with status 2");
    let mut bad = response(&[0]);
    bad.extend_from_slice(&[0xff, 0xfe]);
    assert!(text(robot_model_from_response(&bad)).starts_with("protocol error: invalid URDF encoding: "));
}

#[test]
fn robot_handshake_outcomes() {
    let mut ok = response(&[0]);
    ok.extend_from_slice(&10u16.to_le_bytes());
    assert_eq!(robot_connect_response_result(&ok).unwrap(), 10);

    let mut incompatible = response(&[1]);
    incompatible.extend_from_slice(&12u16.to_le_bytes());
    match robot_connect_response_result(&incompatible) {
        Err(FrankaError::IncompatibleVersion { server_version, library_version }) => {
            assert_eq!(server_version, 12);
            assert_eq!(library_version, 10);
        }
        other => panic!("expected IncompatibleVersion, got: {other:?}"),
    }

    let mut odd = response(&[5]);
    odd.extend_from_slice(&10u16.to_le_bytes());
    assert_eq!(text(robot_connect_response_result(&odd)), "protocol error: unexpected connect status: 5");
    assert_eq!(text(robot_connect_response_result(&response(&[0, 1]))), "protocol error: Connect response too short");

    let req = robot_connect_request(4321);
    assert_eq!(req.version, 10);
    assert_eq!(req.udp_port, 4321);
}

#[test]
fn device_handshake_outcomes() {
    let mut g = vec![0u8; 10];
    g.extend_from_slice(&0u16.to_le_bytes());
    g.extend_from_slice(&3u16.to_le_bytes());
    assert_eq!(gripper_connect_response_result(&g).unwrap(), 3);
    let mut gi = vec![0u8; 10];
    gi.extend_from_slice(&1u16.to_le_bytes());
    gi.extend_from_slice(&2u16.to_le_bytes());
    assert!(matches!(
        gripper_connect_response_result(&gi),
        Err(FrankaError::IncompatibleVersion { server_version: 2, library_version: 3 })
    ));
    assert_eq!(
        text(gripper_connect_response_result(&[0u8; 13])),
        "protocol error: Gripper connect response too short"
    );
    let mut v = vec![0u8; 10];
    v.extend_from_slice(&9u16.to_le_bytes());
    v.extend_from_slice(&1u16.to_le_bytes());
    assert_eq!(
        text(vacuum_gripper_connect_response_result(&v)),
        "protocol error: unexpected vacuum gripper connect status: 9"
    );
}

#[test]
fn move_and_stop_responses() {
    assert_eq!(move_response_result(&response(&[0]), 5).unwrap(), 5);
    assert_eq!(move_response_result(&response(&[1]), 6).unwrap(), 6);
    assert_eq!(
        text(move_response_result(&response(&[8]), 6)),
        "command rejected: Move command rejected: ReflexAborted"
    );
    assert_eq!(text(move_response_result(&response(&[99]), 6)), "protocol error: unknown Move status: 99");
    assert_eq!(text(move_response_result(&[0u8; 12], 6)), "protocol error: Move response too short");
    assert!(finish_motion_response_result(&response(&[4])).is_ok());
    assert_eq!(text(finish_motion_response_result(&[0u8; 5])), "protocol error: StopMove response too short");
    assert!(stop_response_result(&response(&[0])).is_ok());
    assert_eq!(text(stop_response_result(&response(&[2]))), "command rejected: StopMove failed with status 2");
}

#[test]
fn gripper_statuses() {
    let mut r = vec![0u8; 10];
    r.extend_from_slice(&2u16.to_le_bytes());
    assert_eq!(parse_gripper_status(&r).unwrap(), GripperStatus::Unsuccessful);
    assert!(!gripper_response_result(GripperCommand::Grasp, &r).unwrap());
    assert!(gripper_command_result(GripperCommand::Homing, GripperStatus::Success).unwrap());
    assert_eq!(
        text(gripper_command_result(GripperCommand::Move, GripperStatus::Fail)),
        "command rejected: gripper command Move failed"
    );
    assert_eq!(
        text(gripper_command_result(GripperCommand::Stop, GripperStatus::Aborted)),
        "command rejected: gripper command Stop aborted"
    );
    let mut unknown = vec![0u8; 10];
    unknown.extend_from_slice(&77u16.to_le_bytes());
    assert_eq!(text(parse_gripper_status(&unknown)), "protocol error: unknown gripper status: 77");
    assert_eq!(text(parse_gripper_status(&[0u8; 11])), "protocol error: gripper response too short");
}

#[test]
fn vacuum_statuses_and_state() {
    let mut r = vec![0u8; 10];
    r.extend_from_slice(&0u16.to_le_bytes());
    assert_eq!(parse_vacuum_status(&r).unwrap(), VacuumGripperStatus::Success);
    assert!(vacuum_command_result(VacuumCommand::Vacuum, VacuumGripperStatus::Success).unwrap());
    assert_eq!(
        text(vacuum_command_result(VacuumCommand::DropOff, VacuumGripperStatus::Aborted)),
        "command rejected: vacuum gripper command DropOff aborted"
    );
    let req = vacuum_request(50, 2000, VacuumProfile::P3);
    assert_eq!((req.vacuum, req.profile, { req.timeout_ms }), (50, 3, 2000));

    let raw = RawVacuumGripperState {
        message_id: 1,
        in_control_range: 1,
        part_detached: 0,
        part_present: 2,
        device_status: 7,
        actual_power: 70_000,
        vacuum: 300,
    };
    let s = VacuumGripperState::from_raw(&raw);
    assert!(s.in_control_range);
    assert!(!s.part_detached);
    assert!(s.part_present);
    assert_eq!(s.device_status, VacuumDeviceStatus::Red);
    assert_eq!(s.actual_power, (70_000i32 as u16));
    assert_eq!(s.vacuum, 300);
    let raw2 = RawVacuumGripperState { device_status: 1, ..raw };
    assert_eq!(VacuumGripperState::from_raw(&raw2).device_status, VacuumDeviceStatus::Yellow);
}
