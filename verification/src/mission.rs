//! The mission state machine of the off-board flight node.
//!
//! Each control cycle the node publishes the current position set-point,
//! lets the middleware deliver new telemetry, and then calls
//! [`MissionState::step`] with that telemetry and the current time. The step
//! applies the safety checks, advances the phase and says which vehicle
//! command, if any, to send and whether the mission is over.
//!
//! Times are nanoseconds on a monotonic clock chosen by the caller; an
//! elapsed time never goes below zero, as with `Instant::elapsed`.
use vstd::prelude::*;

use crate::command::VehicleCommandKind;
use crate::telemetry::Telemetry;

verus! {

/// How long off-board set-points are streamed before the first mode request.
pub const PRIME_TIME_NS: u64 = 1_000_000_000;
/// How long a pose may stay invalid before the failsafe takes over.
pub const POSE_TIMEOUT_NS: u64 = 15_000_000_000;
/// How long a mode, arming or take-off step may take.
pub const STEP_TIMEOUT_NS: u64 = 10_000_000_000;
/// How long the vehicle holds after take-off.
pub const HOLD_TIME_NS: u64 = 3_000_000_000;
/// How long the vehicle flies towards each waypoint.
pub const WAYPOINT_TIME_NS: u64 = 8_000_000_000;
/// How long a landing is given before disarming.
pub const LANDING_TIME_NS: u64 = 10_000_000_000;
/// How long disarm commands are sent.
pub const DISARM_TIME_NS: u64 = 5_000_000_000;
/// How long a failsafe landing is given before disarming.
pub const FAILSAFE_LANDING_TIME_NS: u64 = 15_000_000_000;

/// Take-off altitude in millimetres along the local down axis.
pub const TAKEOFF_ALT_MM: i32 = -5000;
/// Side of the waypoint square in millimetres.
pub const SQUARE_SIDE_MM: i32 = 5000;
/// Number of waypoints of the mission.
pub const WAYPOINT_COUNT: usize = 5;

/// The phases of the mission.
#[derive(Clone, Copy, Debug, PartialEq, Eq, Structural)]
pub enum Phase {
    Prime,
    WaitPose,
    RequestOffboard,
    RequestArm,
    Takeoff,
    Hold,
    Waypoints,
    RTL,
    Land,
    Disarm,
    Done,
    Failsafe,
}

/// A position in the local north-east-down frame, in millimetres.
#[derive(Clone, Copy, Debug, PartialEq, Eq, Structural)]
pub struct Position {
    pub x: i32,
    pub y: i32,
    pub z: i32,
}

/// The state that the control loop carries from one cycle to the next.
#[derive(Clone, Copy, Debug, PartialEq, Eq, Structural)]
pub struct MissionState {
    pub phase: Phase,
    /// Index of the waypoint being flown to.
    pub current_wp: usize,
    /// When the current phase (or waypoint leg) began.
    pub phase_start: u64,
    /// When the hold after take-off began.
    pub hold_start: u64,
}

/// What one control cycle asks of the node.
#[derive(Clone, Copy, Debug, PartialEq, Eq)]
pub struct StepOutput {
    /// The vehicle command to send in this cycle, if any.
    pub command: Option<VehicleCommandKind>,
    /// Whether the mission is over and the loop is to stop.
    pub finished: bool,
}

/// Time from `start` to `now`, zero when `now` is not later.
pub open spec fn elapsed(start: u64, now: u64) -> int {
    if now >= start {
        now - start
    } else {
        0
    }
}

/// The waypoints: a square of side five metres at take-off altitude,
/// starting and ending above the launch point.
pub open spec fn mission_waypoint(index: int) -> Position {
    if index == 1 {
        Position { x: SQUARE_SIDE_MM, y: 0, z: TAKEOFF_ALT_MM }
    } else if index == 2 {
        Position { x: SQUARE_SIDE_MM, y: SQUARE_SIDE_MM, z: TAKEOFF_ALT_MM }
    } else if index == 3 {
        Position { x: 0, y: SQUARE_SIDE_MM, z: TAKEOFF_ALT_MM }
    } else {
        Position { x: 0, y: 0, z: TAKEOFF_ALT_MM }
    }
}

/// The take-off set-point, straight above the launch point.
pub open spec fn takeoff_point() -> Position {
    Position { x: 0, y: 0, z: TAKEOFF_ALT_MM }
}

/// The phases in which an invalid pose is tolerated without limit.
pub open spec fn pose_loss_tolerated(phase: Phase) -> bool {
    phase is Prime || phase is WaitPose || phase is Done || phase is Failsafe
}

/// `s` with phase `phase` begun at `now`.
pub open spec fn enter(s: MissionState, phase: Phase, now: u64) -> MissionState {
    MissionState { phase, phase_start: now, ..s }
}

pub open spec fn idle() -> StepOutput {
    StepOutput { command: None, finished: false }
}

pub open spec fn send(cmd: VehicleCommandKind) -> StepOutput {
    StepOutput { command: Some(cmd), finished: false }
}

/// The state at the start of a mission whose loop starts at `now`.
pub open spec fn initial_state(now: u64) -> MissionState {
    MissionState { phase: Phase::Prime, current_wp: 0, phase_start: now, hold_start: now }
}

/// The safety checks that precede the phase logic: a pose that stays
/// invalid too long in flight, and a failsafe reported by the vehicle, both
/// switch to the failsafe phase.
pub open spec fn safety_checked(s: MissionState, t: Telemetry, now: u64) -> MissionState {
    let s1 = if !t.pose_valid && !pose_loss_tolerated(s.phase) && elapsed(s.phase_start, now)
        > POSE_TIMEOUT_NS {
        enter(s, Phase::Failsafe, now)
    } else {
        s
    };
    if t.failsafe && !(s1.phase is Failsafe || s1.phase is Done) {
        enter(s1, Phase::Failsafe, now)
    } else {
        s1
    }
}

/// The phase logic of one cycle.
pub open spec fn phase_logic(s: MissionState, t: Telemetry, now: u64) -> (MissionState, StepOutput) {
    let el = elapsed(s.phase_start, now);
    match s.phase {
        Phase::Prime => if el > PRIME_TIME_NS {
            (enter(s, Phase::WaitPose, now), send(VehicleCommandKind::SetOffboardMode))
        } else {
            (s, idle())
        },
        Phase::WaitPose => if t.pose_valid {
            (enter(s, Phase::RequestOffboard, now), idle())
        } else if el > POSE_TIMEOUT_NS {
            (enter(s, Phase::Failsafe, now), idle())
        } else {
            (s, idle())
        },
        Phase::RequestOffboard => if el > STEP_TIMEOUT_NS {
            (MissionState { phase: Phase::Failsafe, ..s }, send(VehicleCommandKind::SetOffboardMode))
        } else {
            (enter(s, Phase::RequestArm, now), send(VehicleCommandKind::SetOffboardMode))
        },
        Phase::RequestArm => if el > STEP_TIMEOUT_NS {
            (MissionState { phase: Phase::Failsafe, ..s }, send(VehicleCommandKind::Arm))
        } else if t.armed() {
            (enter(s, Phase::Takeoff, now), send(VehicleCommandKind::Arm))
        } else {
            (s, send(VehicleCommandKind::Arm))
        },
        Phase::Takeoff => if el > STEP_TIMEOUT_NS && t.pose_valid {
            (MissionState { phase: Phase::Hold, phase_start: now, hold_start: now, ..s }, idle())
        } else {
            (s, idle())
        },
        Phase::Hold => if elapsed(s.hold_start, now) >= HOLD_TIME_NS {
            (MissionState { phase: Phase::Waypoints, current_wp: 0, phase_start: now, ..s }, idle())
        } else {
            (s, idle())
        },
        Phase::Waypoints => if s.current_wp >= WAYPOINT_COUNT {
            (enter(s, Phase::RTL, now), idle())
        } else if el >= WAYPOINT_TIME_NS {
            (MissionState { current_wp: (s.current_wp + 1) as usize, phase_start: now, ..s }, idle())
        } else {
            (s, idle())
        },
        Phase::RTL => (enter(s, Phase::Land, now), idle()),
        Phase::Land => if el >= LANDING_TIME_NS {
            (enter(s, Phase::Disarm, now), send(VehicleCommandKind::Land))
        } else {
            (s, send(VehicleCommandKind::Land))
        },
        Phase::Disarm => if el >= DISARM_TIME_NS {
            (MissionState { phase: Phase::Done, ..s }, send(VehicleCommandKind::Disarm))
        } else {
            (s, send(VehicleCommandKind::Disarm))
        },
        Phase::Failsafe => if el >= FAILSAFE_LANDING_TIME_NS {
            (enter(s, Phase::Disarm, now), send(VehicleCommandKind::Land))
        } else {
            (s, send(VehicleCommandKind::Land))
        },
        Phase::Done => (s, StepOutput { command: None, finished: true }),
    }
}

/// One control cycle: the safety checks, then the phase logic.
pub open spec fn mission_step(s: MissionState, t: Telemetry, now: u64) -> (MissionState, StepOutput) {
    phase_logic(safety_checked(s, t, now), t, now)
}

/// The position set-point published in state `s`.
pub open spec fn setpoint_of(s: MissionState) -> Position {
    match s.phase {
        Phase::Takeoff => takeoff_point(),
        Phase::Waypoints | Phase::RTL => if s.current_wp < WAYPOINT_COUNT {
            mission_waypoint(s.current_wp as int)
        } else {
            mission_waypoint(0)
        },
        _ => mission_waypoint(0),
    }
}

/// Time from `start` to `now`, zero when `now` is not later.
pub fn elapsed_ns(start: u64, now: u64) -> (e: u64)
    ensures
        e == elapsed(start, now),
{
    if now >= start {
        now - start
    } else {
        0
    }
}

/// Waypoint `index` of the mission.
pub fn waypoint(index: usize) -> (p: Position)
    requires
        index < WAYPOINT_COUNT,
    ensures
        p == mission_waypoint(index as int),
{
    if index == 1 {
        Position { x: SQUARE_SIDE_MM, y: 0, z: TAKEOFF_ALT_MM }
    } else if index == 2 {
        Position { x: SQUARE_SIDE_MM, y: SQUARE_SIDE_MM, z: TAKEOFF_ALT_MM }
    } else if index == 3 {
        Position { x: 0, y: SQUARE_SIDE_MM, z: TAKEOFF_ALT_MM }
    } else {
        Position { x: 0, y: 0, z: TAKEOFF_ALT_MM }
    }
}

/// Whether set-points are still streamed during priming: until a full
/// priming time has passed since `start`.
pub fn priming(start: u64, now: u64) -> (still_priming: bool)
    ensures
        still_priming == (elapsed(start, now) < PRIME_TIME_NS),
{
    elapsed_ns(start, now) < PRIME_TIME_NS
}

impl MissionState {
    /// The state at the start of the control loop, at time `now`.
    pub fn new(now: u64) -> (s: Self)
        ensures
            s == initial_state(now),
    {
        MissionState { phase: Phase::Prime, current_wp: 0, phase_start: now, hold_start: now }
    }

    /// The position set-point to publish in this state: the take-off point
    /// while taking off; while flying the waypoints or returning, the
    /// current waypoint, or, once every waypoint has been flown, home (the
    /// first waypoint); and the first waypoint otherwise.
    pub fn setpoint(&self) -> (p: Position)
        ensures
            p == setpoint_of(*self),
    {
        match self.phase {
            Phase::Takeoff => Position { x: 0, y: 0, z: TAKEOFF_ALT_MM },
            Phase::Waypoints | Phase::RTL => {
                if self.current_wp < WAYPOINT_COUNT {
                    waypoint(self.current_wp)
                } else {
                    waypoint(0)
                }
            },
            _ => waypoint(0),
        }
    }

    /// Switches to `phase`, begun at `now`.
    fn enter(&mut self, phase: Phase, now: u64)
        ensures
            *final(self) == enter(*old(self), phase, now),
    {
        self.phase = phase;
        self.phase_start = now;
    }

    /// The safety checks of one cycle.
    fn apply_safety_checks(&mut self, telemetry: &Telemetry, now: u64)
        ensures
            *final(self) == safety_checked(*old(self), *telemetry, now),
    {
        let tolerated = match self.phase {
            Phase::Prime | Phase::WaitPose | Phase::Done | Phase::Failsafe => true,
            _ => false,
        };
        if !telemetry.pose_valid && !tolerated && elapsed_ns(self.phase_start, now)
            > POSE_TIMEOUT_NS {
            self.enter(Phase::Failsafe, now);
        }
        let settled = match self.phase {
            Phase::Failsafe | Phase::Done => true,
            _ => false,
        };
        if telemetry.failsafe && !settled {
            self.enter(Phase::Failsafe, now);
        }
    }

    /// The phase logic of one cycle.
    fn advance_phase(&mut self, telemetry: &Telemetry, now: u64) -> (out: StepOutput)
        ensures
            (*final(self), out) == phase_logic(*old(self), *telemetry, now),
    {
        let el = elapsed_ns(self.phase_start, now);
        let none = StepOutput { command: None, finished: false };
        match self.phase {
            Phase::Prime => {
                if el > PRIME_TIME_NS {
                    self.enter(Phase::WaitPose, now);
                    StepOutput { command: Some(VehicleCommandKind::SetOffboardMode), finished: false }
                } else {
                    none
                }
            },
            Phase::WaitPose => {
                if telemetry.pose_valid {
                    self.enter(Phase::RequestOffboard, now);
                } else if el > POSE_TIMEOUT_NS {
                    self.enter(Phase::Failsafe, now);
                }
                none
            },
            Phase::RequestOffboard => {
                if el > STEP_TIMEOUT_NS {
                    self.phase = Phase::Failsafe;
                } else {
                    self.enter(Phase::RequestArm, now);
                }
                StepOutput { command: Some(VehicleCommandKind::SetOffboardMode), finished: false }
            },
            Phase::RequestArm => {
                if el > STEP_TIMEOUT_NS {
                    self.phase = Phase::Failsafe;
                } else if telemetry.is_armed() {
                    self.enter(Phase::Takeoff, now);
                }
                StepOutput { command: Some(VehicleCommandKind::Arm), finished: false }
            },
            Phase::Takeoff => {
                if el > STEP_TIMEOUT_NS && telemetry.pose_valid {
                    self.enter(Phase::Hold, now);
                    self.hold_start = now;
                }
                none
            },
            Phase::Hold => {
                if elapsed_ns(self.hold_start, now) >= HOLD_TIME_NS {
                    self.enter(Phase::Waypoints, now);
                    self.current_wp = 0;
                }
                none
            },
            Phase::Waypoints => {
                if self.current_wp >= WAYPOINT_COUNT {
                    self.enter(Phase::RTL, now);
                } else if el >= WAYPOINT_TIME_NS {
                    self.current_wp = self.current_wp + 1;
                    self.phase_start = now;
                }
                none
            },
            Phase::RTL => {
                self.enter(Phase::Land, now);
                none
            },
            Phase::Land => {
                if el >= LANDING_TIME_NS {
                    self.enter(Phase::Disarm, now);
                }
                StepOutput { command: Some(VehicleCommandKind::Land), finished: false }
            },
            Phase::Disarm => {
                if el >= DISARM_TIME_NS {
                    self.phase = Phase::Done;
                }
                StepOutput { command: Some(VehicleCommandKind::Disarm), finished: false }
            },
            Phase::Failsafe => {
                if el >= FAILSAFE_LANDING_TIME_NS {
                    self.enter(Phase::Disarm, now);
                }
                StepOutput { command: Some(VehicleCommandKind::Land), finished: false }
            },
            Phase::Done => StepOutput { command: None, finished: true },
        }
    }

    /// One control cycle at time `now` with the latest `telemetry`: the
    /// safety checks, then the phase logic. Returns the command to send in
    /// this cycle and whether the mission is over.
    pub fn step(&mut self, telemetry: &Telemetry, now: u64) -> (out: StepOutput)
        ensures
            (*final(self), out) == mission_step(*old(self), *telemetry, now),
    {
        self.apply_safety_checks(telemetry, now);
        self.advance_phase(telemetry, now)
    }
}

} // verus!
