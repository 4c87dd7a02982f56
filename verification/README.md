# px4_fsm

Verified decision logic of an autonomous PX4 off-board flight node.

- `src/mission.rs` – the mission phase machine: one control cycle
  (`MissionState::step`) from telemetry and time to the next state, the
  vehicle command to send and whether the mission is over; the position
  set-points of the square route.
- `src/properties.rs` – proved properties of that machine: phase order,
  failsafe and pose-loss landings, no flight without a valid pose, the
  waypoint invariant, and the closed square route.
- `src/command.rs` – vehicle command numbers, parameters and messages.
- `src/telemetry.rs` – the vehicle status the mission decides on.
- `src/clock.rs` – wall-clock readings and microsecond time stamps.
- `src/controller.rs` – a demonstration controller with timed transitions.
- `app/` – the ROS 2 node and the asynchronous demonstration loop, which
  move messages and sleep while the library decides.
