use franka_rs::text::{text_then_number, text_with_number};
use franka_rs::errors::{FrankaError, RobotErrors};

#[test]
fn robot_errors_from_bool_array_empty() {
    let bools = [false; 41];
    let errors = RobotErrors::from_bool_array(&bools);
    assert!(!errors.has_errors());
    assert!(errors.is_empty());
}

#[test]
fn robot_errors_from_bool_array_single() {
    let mut bools = [false; 41];
    bools[0] = true;
    let errors = RobotErrors::from_bool_array(&bools);
    assert!(errors.has_errors());
    assert!(errors.contains(RobotErrors::JOINT_POSITION_LIMITS_VIOLATION));
    assert!(!errors.contains(RobotErrors::CARTESIAN_REFLEX));
}

#[test]
fn robot_errors_from_bool_array_multiple() {
    let mut bools = [false; 41];
    bools[6] = true; // JOINT_REFLEX
    bools[7] = true; // CARTESIAN_REFLEX
    bools[40] = true; // BASE_ACCELERATION_INVALID_READING
    let errors = RobotErrors::from_bool_array(&bools);
    assert!(errors.contains(RobotErrors::JOINT_REFLEX));
    assert!(errors.contains(RobotErrors::CARTESIAN_REFLEX));
    assert!(errors.contains(RobotErrors::BASE_ACCELERATION_INVALID_READING));
    assert!(!errors.contains(RobotErrors::POWER_LIMIT_VIOLATION));
}

#[test]
fn franka_error_display() {
    let err = FrankaError::network("connection timeout");
    assert_eq!(err.to_string(), "network error: connection timeout");

    let err = FrankaError::IncompatibleVersion {
        server_version: 10,
        library_version: 9,
    };
    assert_eq!(
        err.to_string(),
        "incompatible version: server=10, library=9"
    );
}

#[test]
fn robot_errors_bits_follow_array_positions() {
    let mut bools = [false; 41];
    bools[3] = true;
    bools[32] = true;
    let errors = RobotErrors::from_bool_array(&bools);
    assert_eq!(errors.bits(), (1u64 << 3) | (1u64 << 32));
    assert!(errors.contains(RobotErrors::JOINT_VELOCITY_VIOLATION));
    assert!(errors.contains(RobotErrors::POWER_LIMIT_VIOLATION));
    assert!(errors.contains(RobotErrors::JOINT_VELOCITY_VIOLATION | RobotErrors::POWER_LIMIT_VIOLATION));
    assert!(!errors.contains(RobotErrors::JOINT_REFLEX | RobotErrors::POWER_LIMIT_VIOLATION));
}

#[test]
fn robot_errors_truncate_unknown_bits() {
    let errors = RobotErrors::from_bits_truncate(u64::MAX);
    assert_eq!(errors.bits(), (1u64 << 41) - 1);
    assert!(RobotErrors::empty().is_empty());
    assert!(!RobotErrors::empty().has_errors());
}

#[test]
fn every_error_variant_has_its_text() {
    let cases = [
        (FrankaError::Protocol { message: "a".to_string() }, "protocol error: a"),
        (FrankaError::Control { message: "b".to_string() }, "control error: b"),
        (FrankaError::Command { message: "c".to_string() }, "command rejected: c"),
        (FrankaError::Realtime { message: "d".to_string() }, "realtime error: d"),
        (FrankaError::Model { message: "e".to_string() }, "model error: e"),
        (FrankaError::InvalidOperation { message: "f".to_string() }, "invalid operation: f"),
    ];
    for (err, text) in cases.iter() {
        assert_eq!(err.to_string(), *text);
    }
    let err = FrankaError::IncompatibleVersion { server_version: 0, library_version: 65535 };
    assert_eq!(err.to_string(), "incompatible version: server=0, library=65535");
}

#[test]
fn robot_errors_set_operations() {
    let a = RobotErrors::from_bits_truncate(RobotErrors::JOINT_POSITION_LIMITS_VIOLATION);
    let b = RobotErrors::from_bits_truncate(RobotErrors::CARTESIAN_POSITION_LIMITS_VIOLATION);
    let both = a.union(b);
    assert_eq!(both.bits(), 0x3);
    assert_eq!(both.intersection(a).bits(), 0x1);
    assert!(a.intersection(b).is_empty());
    let mut c = RobotErrors::empty();
    c.insert(RobotErrors::MAX_PATH_POSE_DEVIATION_VIOLATION | (1u64 << 50));
    assert_eq!(c.bits(), RobotErrors::MAX_PATH_POSE_DEVIATION_VIOLATION);
    c.insert(RobotErrors::JOINT_POSITION_LIMITS_VIOLATION);
    c.remove(RobotErrors::MAX_PATH_POSE_DEVIATION_VIOLATION);
    assert_eq!(c.bits(), RobotErrors::JOINT_POSITION_LIMITS_VIOLATION);
}

#[test]
fn decimal_numbers_in_messages() {
    assert_eq!(text_then_number("n=", 0), "n=0");
    assert_eq!(text_then_number("n=", 7), "n=7");
    assert_eq!(text_then_number("n=", 10), "n=10");
    assert_eq!(text_then_number("n=", 1234567890), "n=1234567890");
    assert_eq!(text_with_number("[", u64::MAX, "]"), "[18446744073709551615]");
}
