//! Binary wire formats of the robot, gripper and vacuum gripper protocols.

pub mod codes;
pub mod gripper;
pub mod layout;
pub mod le_bytes;
pub mod robot;
pub mod vacuum;
