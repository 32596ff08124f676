//! Verified core of a client library for the Franka Control Interface (FCI):
//! wire-format encoding and decoding, TCP message framing, command bookkeeping,
//! status decoding and the bookkeeping state of the control loop.

pub mod active_control;
pub mod constants;
pub mod control_loop;
pub mod control_types;
pub mod errors;
pub mod gripper;
pub mod logging;
pub mod network;
pub mod robot;
pub mod text;
pub mod types;
pub mod utf8;
pub mod vacuum_gripper;
pub mod wire;
