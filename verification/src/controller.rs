//! A demonstration controller whose mission phases advance on timers.
//!
//! Times are nanoseconds on a monotonic clock chosen by the caller, as in
//! [`crate::mission`]; the controller keeps the time its mission started
//! and measures every timer from it.
use vstd::prelude::*;

use std::time::Duration;

use crate::mission::{elapsed, elapsed_ns};

verus! {

/// Gives `Duration::clone` its contract: `Duration` is `Copy`, and the
/// clone of a `Copy` value is the value itself.
pub assume_specification[<Duration as Clone>::clone](d: &Duration) -> (c: Duration)
    ensures
        c == *d,
;

/// How long the controller initialises before arming.
pub const INITIALIZATION_TIME_NS: u64 = 2_000_000_000;

/// The states of the demonstration mission.
#[derive(Debug, Clone, PartialEq)]
pub enum DroneState {
    Initializing,
    Arming,
    TakingOff,
    Holding { remaining_time: Duration },
    NavigatingToWaypoint { waypoint_index: usize },
    ReturningToLaunch,
    Landing,
    MissionComplete,
    EmergencyLanding { reason: String },
    Failed { reason: String },
}

/// A controller that holds the mission state and the time the mission
/// started.
pub struct AutonomousDroneController {
    current_state: DroneState,
    mission_start_time: u64,
}

/// The state that follows `state` once `elapsed` nanoseconds have passed
/// since the mission started: initialisation ends into arming once the
/// initialisation time is exceeded; every other state stays as it is.
pub open spec fn state_after(state: DroneState, elapsed: int) -> DroneState {
    if state is Initializing && elapsed > INITIALIZATION_TIME_NS {
        DroneState::Arming
    } else {
        state
    }
}

/// The state after one cycle of the mission loop: a state that was carried
/// out without error goes through the timed transitions; a failure turns
/// into an emergency landing for the failure's reason.
pub open spec fn state_after_cycle(
    state: DroneState,
    execution: Result<(), String>,
    elapsed: int,
) -> DroneState {
    match execution {
        Ok(()) => state_after(state, elapsed),
        Err(reason) => DroneState::EmergencyLanding { reason },
    }
}

/// Whether the mission loop stops in `state`.
pub open spec fn mission_over(state: DroneState) -> bool {
    state is MissionComplete || state is Failed
}

impl AutonomousDroneController {
    pub closed spec fn state(&self) -> DroneState {
        self.current_state
    }

    /// When the mission started.
    pub closed spec fn start_ns(&self) -> u64 {
        self.mission_start_time
    }

    /// A controller in the initialising state, whose mission starts at
    /// `now_ns`.
    pub fn new(now_ns: u64) -> (c: Self)
        ensures
            c.state() == DroneState::Initializing,
            c.start_ns() == now_ns,
    {
        AutonomousDroneController { current_state: DroneState::Initializing, mission_start_time: now_ns }
    }

    /// The current state.
    pub fn current_state(&self) -> (s: &DroneState)
        ensures
            *s == self.state(),
    {
        &self.current_state
    }

    /// When the mission started.
    pub fn mission_start_time(&self) -> (t: u64)
        ensures
            t == self.start_ns(),
    {
        self.mission_start_time
    }

    /// Applies the timed transitions at time `now_ns`, measured from the
    /// start of the mission, which stays as it was.
    pub fn check_state_transitions(&mut self, now_ns: u64)
        ensures
            final(self).state() == state_after(
                old(self).state(),
                elapsed(old(self).start_ns(), now_ns),
            ),
            final(self).start_ns() == old(self).start_ns(),
    {
        let over = elapsed_ns(self.mission_start_time, now_ns) > INITIALIZATION_TIME_NS;
        match self.current_state {
            DroneState::Initializing => {
                if over {
                    self.current_state = DroneState::Arming;
                }
            },
            _ => {},
        }
    }

    /// Switches to an emergency landing for `reason`, as the mission loop
    /// does when executing a state fails. The mission start stays.
    pub fn enter_emergency_landing(&mut self, reason: String)
        ensures
            final(self).state() == (DroneState::EmergencyLanding { reason }),
            final(self).start_ns() == old(self).start_ns(),
    {
        self.current_state = DroneState::EmergencyLanding { reason };
    }

    /// Whether the mission loop stops: the mission completed or failed.
    pub fn is_mission_over(&self) -> (over: bool)
        ensures
            over == mission_over(self.state()),
    {
        match self.current_state {
            DroneState::MissionComplete | DroneState::Failed { .. } => true,
            _ => false,
        }
    }

    /// One cycle of the mission loop at time `now_ns`, given how carrying
    /// out the current state went: on success the timed transitions apply,
    /// on failure the controller turns to an emergency landing. Returns
    /// whether the loop stops. The mission start stays.
    pub fn run_cycle(&mut self, execution: Result<(), String>, now_ns: u64) -> (stop: bool)
        ensures
            final(self).state() == state_after_cycle(
                old(self).state(),
                execution,
                elapsed(old(self).start_ns(), now_ns),
            ),
            final(self).start_ns() == old(self).start_ns(),
            stop == mission_over(final(self).state()),
    {
        match execution {
            Ok(()) => self.check_state_transitions(now_ns),
            Err(reason) => self.enter_emergency_landing(reason),
        }
        self.is_mission_over()
    }
}

} // verus!
