//! Motion-control core for a two-joint polar plotting arm.
//!
//! The library converts polar targets (already reduced to joint angles by the
//! caller's floating-point front end) into absolute dual-axis step positions,
//! schedules coordinated dual-stepper moves so both axes start and finish
//! together, and defines the controller state machine and bounded FIFO
//! hand-off queues that connect the command producer, the motion consumer and
//! the status output.

pub mod arm;
pub mod command;
pub mod kinematics;
pub mod messages;
pub mod parse;
pub mod queue;
pub mod step_position;
pub mod stepper_pair;
