use px4_fsm::command::VehicleCommandKind;
use px4_fsm::mission::{
    elapsed_ns, priming, waypoint, MissionState, Phase, Position, StepOutput, WAYPOINT_COUNT,
};
use px4_fsm::telemetry::Telemetry;

const S: u64 = 1_000_000_000;

fn telem(pose_valid: bool, arming_state: u8, failsafe: bool) -> Telemetry {
    Telemetry { pose_valid, arming_state, nav_state: 0, failsafe }
}

fn idle() -> StepOutput {
    StepOutput { command: None, finished: false }
}

fn send(cmd: VehicleCommandKind) -> StepOutput {
    StepOutput { command: Some(cmd), finished: false }
}

#[test]
fn elapsed_never_negative() {
    assert_eq!(elapsed_ns(5, 12), 7);
    assert_eq!(elapsed_ns(12, 5), 0);
    assert_eq!(elapsed_ns(3, 3), 0);
}

#[test]
fn priming_lasts_one_second() {
    assert!(priming(100, 100));
    assert!(priming(100, 100 + S - 1));
    assert!(!priming(100, 100 + S));
}

#[test]
fn waypoints_form_a_square() {
    assert_eq!(waypoint(0), Position { x: 0, y: 0, z: -5000 });
    assert_eq!(waypoint(1), Position { x: 5000, y: 0, z: -5000 });
    assert_eq!(waypoint(2), Position { x: 5000, y: 5000, z: -5000 });
    assert_eq!(waypoint(3), Position { x: 0, y: 5000, z: -5000 });
    assert_eq!(waypoint(4), Position { x: 0, y: 0, z: -5000 });
}

#[test]
fn setpoints_by_phase() {
    let mut s = MissionState::new(0);
    assert_eq!(s.setpoint(), waypoint(0));
    s.phase = Phase::Takeoff;
    assert_eq!(s.setpoint(), Position { x: 0, y: 0, z: -5000 });
    s.phase = Phase::Waypoints;
    s.current_wp = 2;
    assert_eq!(s.setpoint(), waypoint(2));
    s.phase = Phase::Land;
    assert_eq!(s.setpoint(), waypoint(0));
}

#[test]
fn home_setpoint_after_the_last_waypoint() {
    let mut s = MissionState::new(0);
    s.phase = Phase::Waypoints;
    s.current_wp = WAYPOINT_COUNT;
    assert_eq!(s.setpoint(), Position { x: 0, y: 0, z: -5000 });
    s.phase = Phase::RTL;
    assert_eq!(s.setpoint(), Position { x: 0, y: 0, z: -5000 });
    s.current_wp = 3;
    assert_eq!(s.setpoint(), waypoint(3));
}

#[test]
fn nominal_mission_until_the_last_waypoint() {
    let good = telem(true, 0, false);
    let armed = telem(true, 2, false);
    let mut s = MissionState::new(0);
    assert_eq!(s.phase, Phase::Prime);

    // Prime waits strictly more than one second.
    assert_eq!(s.step(&good, S), idle());
    assert_eq!(s.phase, Phase::Prime);
    assert_eq!(s.step(&good, S + 1), send(VehicleCommandKind::SetOffboardMode));
    assert_eq!(s.phase, Phase::WaitPose);
    assert_eq!(s.phase_start, S + 1);

    // A valid pose moves on to the off-board request.
    let t = S + 2;
    assert_eq!(s.step(&good, t), idle());
    assert_eq!(s.phase, Phase::RequestOffboard);
    assert_eq!(s.step(&good, t + 1), send(VehicleCommandKind::SetOffboardMode));
    assert_eq!(s.phase, Phase::RequestArm);

    // Arm requests repeat until the vehicle reports it is armed.
    assert_eq!(s.step(&good, t + 2), send(VehicleCommandKind::Arm));
    assert_eq!(s.phase, Phase::RequestArm);
    assert_eq!(s.step(&armed, t + 3), send(VehicleCommandKind::Arm));
    assert_eq!(s.phase, Phase::Takeoff);
    assert_eq!(s.phase_start, t + 3);

    // Take-off lasts more than ten seconds.
    let t = t + 3;
    assert_eq!(s.step(&armed, t + 10 * S), idle());
    assert_eq!(s.phase, Phase::Takeoff);
    assert_eq!(s.step(&armed, t + 10 * S + 1), idle());
    assert_eq!(s.phase, Phase::Hold);
    assert_eq!(s.hold_start, t + 10 * S + 1);

    // Hold lasts three seconds.
    let t = t + 10 * S + 1;
    s.step(&armed, t + 3 * S - 1);
    assert_eq!(s.phase, Phase::Hold);
    s.step(&armed, t + 3 * S);
    assert_eq!(s.phase, Phase::Waypoints);
    assert_eq!(s.current_wp, 0);

    // Each waypoint is flown for eight seconds.
    let mut t = t + 3 * S;
    for wp in 1..=WAYPOINT_COUNT {
        s.step(&armed, t + 8 * S - 1);
        assert_eq!(s.current_wp, wp - 1);
        t += 8 * S;
        assert_eq!(s.step(&armed, t), idle());
        assert_eq!(s.current_wp, wp);
        assert_eq!(s.phase, Phase::Waypoints);
    }
    // Past the last waypoint the set-point is home.
    assert_eq!(s.setpoint(), waypoint(0));

    // The next cycle begins the return, then the landing.
    s.step(&armed, t + 1);
    assert_eq!(s.phase, Phase::RTL);
    assert_eq!(s.setpoint(), waypoint(0));
    s.step(&armed, t + 2);
    assert_eq!(s.phase, Phase::Land);
}

#[test]
fn nominal_mission_runs_to_the_end() {
    // Healthy telemetry, a cycle every 200 ms: the mission is done within
    // 442 s and never enters the failsafe.
    let armed = telem(true, 2, false);
    let period = S / 5;
    let mut s = MissionState::new(0);
    let mut now = period;
    let mut landed = false;
    let mut disarm_commands = 0;
    while now <= 442 * S {
        let out = s.step(&armed, now);
        assert_ne!(s.phase, Phase::Failsafe);
        if s.phase == Phase::Land {
            landed = true;
        }
        if out.command == Some(VehicleCommandKind::Disarm) {
            disarm_commands += 1;
        }
        now += period;
    }
    assert_eq!(s.phase, Phase::Done);
    assert!(landed);
    assert!(disarm_commands > 0);
}

#[test]
fn landing_disarming_and_end() {
    let good = telem(true, 2, false);
    let mut s = MissionState { phase: Phase::Land, current_wp: 5, phase_start: 0, hold_start: 0 };
    assert_eq!(s.step(&good, 10 * S - 1), send(VehicleCommandKind::Land));
    assert_eq!(s.phase, Phase::Land);
    assert_eq!(s.step(&good, 10 * S), send(VehicleCommandKind::Land));
    assert_eq!(s.phase, Phase::Disarm);
    assert_eq!(s.step(&good, 15 * S - 1), send(VehicleCommandKind::Disarm));
    assert_eq!(s.phase, Phase::Disarm);
    assert_eq!(s.step(&good, 15 * S), send(VehicleCommandKind::Disarm));
    assert_eq!(s.phase, Phase::Done);
    // Reaching the end keeps the phase start time.
    assert_eq!(s.phase_start, 10 * S);
    let before = s;
    assert_eq!(s.step(&good, 99 * S), StepOutput { command: None, finished: true });
    assert_eq!(s, before);
}

#[test]
fn vehicle_failsafe_turns_to_landing() {
    let mut s = MissionState { phase: Phase::Hold, current_wp: 0, phase_start: 0, hold_start: 0 };
    let out = s.step(&telem(true, 2, true), 2 * S);
    assert_eq!(out, send(VehicleCommandKind::Land));
    assert_eq!(s.phase, Phase::Failsafe);
    assert_eq!(s.phase_start, 2 * S);
    // The failsafe landing lasts fifteen seconds, then the vehicle disarms.
    s.step(&telem(true, 2, false), 17 * S - 1);
    assert_eq!(s.phase, Phase::Failsafe);
    assert_eq!(s.step(&telem(true, 2, false), 17 * S), send(VehicleCommandKind::Land));
    assert_eq!(s.phase, Phase::Disarm);
    assert_eq!(s.phase_start, 17 * S);
}

#[test]
fn persistent_failsafe_returns_from_disarm() {
    let mut s = MissionState { phase: Phase::Disarm, current_wp: 0, phase_start: 0, hold_start: 0 };
    assert_eq!(s.step(&telem(true, 2, true), 30 * S), send(VehicleCommandKind::Land));
    assert_eq!(s.phase, Phase::Failsafe);
}

#[test]
fn failsafe_is_ignored_once_done() {
    let mut s = MissionState { phase: Phase::Done, current_wp: 0, phase_start: 0, hold_start: 0 };
    assert_eq!(s.step(&telem(false, 0, true), 100 * S), StepOutput { command: None, finished: true });
    assert_eq!(s.phase, Phase::Done);
}

#[test]
fn pose_loss_in_flight_turns_to_landing() {
    let lost = telem(false, 2, false);
    let mut s = MissionState { phase: Phase::Takeoff, current_wp: 0, phase_start: 0, hold_start: 0 };
    assert_eq!(s.step(&lost, 15 * S), idle());
    assert_eq!(s.phase, Phase::Takeoff);
    assert_eq!(s.step(&lost, 15 * S + 1), send(VehicleCommandKind::Land));
    assert_eq!(s.phase, Phase::Failsafe);
    assert_eq!(s.phase_start, 15 * S + 1);
}

#[test]
fn pose_loss_tolerated_while_priming() {
    let lost = telem(false, 0, false);
    let mut s = MissionState { phase: Phase::Prime, current_wp: 0, phase_start: 0, hold_start: 0 };
    assert_eq!(s.step(&lost, 100 * S), send(VehicleCommandKind::SetOffboardMode));
    assert_eq!(s.phase, Phase::WaitPose);
}

#[test]
fn waiting_for_pose_times_out() {
    let lost = telem(false, 0, false);
    let mut s = MissionState { phase: Phase::WaitPose, current_wp: 0, phase_start: 0, hold_start: 0 };
    assert_eq!(s.step(&lost, 15 * S), idle());
    assert_eq!(s.phase, Phase::WaitPose);
    assert_eq!(s.step(&lost, 15 * S + 1), idle());
    assert_eq!(s.phase, Phase::Failsafe);
    assert_eq!(s.phase_start, 15 * S + 1);
}

#[test]
fn offboard_request_timeout_keeps_phase_start() {
    let good = telem(true, 0, false);
    let mut s =
        MissionState { phase: Phase::RequestOffboard, current_wp: 0, phase_start: 0, hold_start: 0 };
    assert_eq!(s.step(&good, 10 * S + 1), send(VehicleCommandKind::SetOffboardMode));
    assert_eq!(s.phase, Phase::Failsafe);
    assert_eq!(s.phase_start, 0);
}

#[test]
fn arm_request_timeout_keeps_phase_start() {
    let armed = telem(true, 2, false);
    let mut s = MissionState { phase: Phase::RequestArm, current_wp: 0, phase_start: 0, hold_start: 0 };
    assert_eq!(s.step(&armed, 10 * S + 1), send(VehicleCommandKind::Arm));
    assert_eq!(s.phase, Phase::Failsafe);
    assert_eq!(s.phase_start, 0);
}

#[test]
fn arming_state_one_is_not_armed() {
    let mut s = MissionState { phase: Phase::RequestArm, current_wp: 0, phase_start: 0, hold_start: 0 };
    s.step(&telem(true, 1, false), S);
    assert_eq!(s.phase, Phase::RequestArm);
    s.step(&telem(true, 2, false), 2 * S);
    assert_eq!(s.phase, Phase::Takeoff);
}

#[test]
fn takeoff_needs_a_valid_pose() {
    let mut s = MissionState { phase: Phase::Takeoff, current_wp: 0, phase_start: 0, hold_start: 0 };
    s.step(&telem(false, 2, false), 11 * S);
    assert_eq!(s.phase, Phase::Takeoff);
    s.step(&telem(true, 2, false), 12 * S);
    assert_eq!(s.phase, Phase::Hold);
}

#[test]
fn return_begins_after_the_last_waypoint() {
    let good = telem(true, 2, false);
    let mut s = MissionState { phase: Phase::Waypoints, current_wp: 5, phase_start: 0, hold_start: 0 };
    assert_eq!(s.step(&good, 3), idle());
    assert_eq!(s.phase, Phase::RTL);
    assert_eq!(s.phase_start, 3);
    assert_eq!(s.step(&good, 4), idle());
    assert_eq!(s.phase, Phase::Land);
    assert_eq!(s.phase_start, 4);
}

#[test]
fn hold_counts_from_its_own_start() {
    let good = telem(true, 2, false);
    let mut s = MissionState { phase: Phase::Hold, current_wp: 3, phase_start: 0, hold_start: 10 * S };
    s.step(&good, 12 * S);
    assert_eq!(s.phase, Phase::Hold);
    s.step(&good, 13 * S);
    assert_eq!(s.phase, Phase::Waypoints);
    assert_eq!(s.current_wp, 0);
    assert_eq!(s.phase_start, 13 * S);
}

#[test]
fn healthy_mission_arming_late_runs_to_the_end() {
    // The vehicle reports disarmed until well into the arm requests, then
    // armed; pose valid and no failsafe throughout.
    let period = S / 10;
    let mut s = MissionState::new(0);
    let mut now = period;
    while now <= 442 * S {
        let arming_state = if now < 5 * S { 1 } else { 2 };
        s.step(&telem(true, arming_state, false), now);
        assert_ne!(s.phase, Phase::Failsafe);
        now += period;
    }
    assert_eq!(s.phase, Phase::Done);
}

#[test]
fn healthy_mission_never_armed_still_finishes() {
    // Without an arm report the arm requests time out into the failsafe
    // landing, which still ends the mission.
    let period = S / 2;
    let mut s = MissionState::new(0);
    let mut now = period;
    let mut saw_failsafe = false;
    while now <= 442 * S {
        s.step(&telem(true, 1, false), now);
        saw_failsafe |= s.phase == Phase::Failsafe;
        now += period;
    }
    assert!(saw_failsafe);
    assert_eq!(s.phase, Phase::Done);
}
