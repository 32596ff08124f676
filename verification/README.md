# franka_rs

A client library for the Franka Control Interface (FCI) of the Franka Emika Panda
and FR3 robots, split in two:

- `src/` is the verified library (Verus). It holds the protocol logic: the packed
  little-endian wire formats of the robot, gripper and vacuum gripper protocols
  (floating-point fields travel as their IEEE-754 bit patterns), TCP message
  framing, the command-id and response bookkeeping of the command connection, the
  interpretation of every response status, the connection handshakes, the command
  assembled each control cycle, the decisions of the control loop (when to run a
  cycle, finish or cancel a motion, return the log or the error), the message ids
  and single final command of a caller-driven control session, robot error flags,
  the ring-buffer logger, and the error type with its message texts. Contracts state each function's result
  exactly, with one exception: for a robot model that is not UTF-8, only the prefix of
  the error text is stated, not the detail that the standard library's error adds; the laws (round trips of encodings, reassembly of framed messages from any number of pieces,
  when a header is pending,
  responses handed out once, the logger keeping the latest entries) are proof
  functions next to the code they speak of.
- `app/` is ordinary Rust around it: the sockets, the 1 kHz control loops that
  perform what the library's loop decides and run the user callbacks, and everything computed in floating point (kinematics,
  dynamics, low-pass filtering, rate limiting), which uses `nalgebra`.

`tests/` exercises the library from outside.
