//! The part of the vehicle telemetry that the mission logic reads.
use vstd::prelude::*;

verus! {

/// Status values reported by the vehicle, as last received.
///
/// The positions themselves are only displayed, never decided on, so they
/// are kept by the program that owns the subscriptions.
#[derive(Clone, Copy, Debug, PartialEq, Eq, Structural)]
pub struct Telemetry {
    /// Whether the last local position had both a valid horizontal and a
    /// valid vertical estimate.
    pub pose_valid: bool,
    /// Arming state as reported in the vehicle status.
    pub arming_state: u8,
    /// Navigation state as reported in the vehicle status.
    pub nav_state: u8,
    /// Whether the vehicle reports an active failsafe.
    pub failsafe: bool,
}

/// Arming states above this value mean that the vehicle is armed.
pub const ARMING_STATE_DISARMED: u8 = 1;

impl Telemetry {
    /// The vehicle counts as armed when its arming state is above the
    /// disarmed value.
    pub open spec fn armed(self) -> bool {
        self.arming_state > ARMING_STATE_DISARMED
    }

    pub fn is_armed(&self) -> (armed: bool)
        ensures
            armed == self.armed(),
    {
        self.arming_state > ARMING_STATE_DISARMED
    }

    /// Records the validity flags of a newly received local position: the
    /// pose is valid only when both estimates are.
    pub fn record_position(&mut self, xy_valid: bool, z_valid: bool)
        ensures
            final(self).pose_valid == (xy_valid && z_valid),
            final(self).arming_state == old(self).arming_state,
            final(self).nav_state == old(self).nav_state,
            final(self).failsafe == old(self).failsafe,
    {
        self.pose_valid = xy_valid && z_valid;
    }

    /// Records a newly received vehicle status.
    pub fn record_status(&mut self, arming_state: u8, nav_state: u8, failsafe: bool)
        ensures
            final(self).pose_valid == old(self).pose_valid,
            final(self).arming_state == arming_state,
            final(self).nav_state == nav_state,
            final(self).failsafe == failsafe,
    {
        self.arming_state = arming_state;
        self.nav_state = nav_state;
        self.failsafe = failsafe;
    }
}

impl Default for Telemetry {
    /// Nothing received yet: no valid pose, disarmed, no failsafe.
    fn default() -> (t: Self)
        ensures
            t == (Telemetry { pose_valid: false, arming_state: 0, nav_state: 0, failsafe: false }),
    {
        Telemetry { pose_valid: false, arming_state: 0, nav_state: 0, failsafe: false }
    }
}

} // verus!
