//! Decision logic of an autonomous PX4 flight mission: the phase state
//! machine that drives an off-board controlled vehicle from priming through
//! take-off, a waypoint square, return and landing, the vehicle commands it
//! issues, and a smaller demonstration controller with timed transitions.
pub mod telemetry;
pub mod command;
pub mod mission;
pub mod clock;
pub mod controller;
pub mod properties;
