//! Properties of the mission state machine that hold of every cycle and of
//! every run of cycles.
use vstd::prelude::*;

use crate::command::{command_message_spec, VehicleCommandKind};
use crate::controller::{mission_over, state_after, state_after_cycle, DroneState};
use crate::mission::{
    elapsed, initial_state, mission_step, Position, PRIME_TIME_NS, mission_waypoint, setpoint_of, takeoff_point,
    MissionState, Phase, POSE_TIMEOUT_NS, SQUARE_SIDE_MM, STEP_TIMEOUT_NS, TAKEOFF_ALT_MM,
    WAYPOINT_COUNT,
};
use crate::telemetry::Telemetry;

verus! {

/// The phases in which the vehicle is being readied or flown by the
/// mission: from the off-board request up to the landing.
pub open spec fn in_flight(phase: Phase) -> bool {
    phase is RequestOffboard || phase is RequestArm || phase is Takeoff || phase is Hold
        || phase is Waypoints || phase is RTL || phase is Land
}

/// The phases that only lead to the vehicle being on the ground and
/// disarmed.
pub open spec fn winding_down(phase: Phase) -> bool {
    phase is Failsafe || phase is Disarm || phase is Done
}

/// The phases that may follow `p` in one cycle.
pub open spec fn may_follow(p: Phase, q: Phase) -> bool {
    match p {
        Phase::Prime => q is Prime || q is WaitPose || q is Failsafe,
        Phase::WaitPose => q is WaitPose || q is RequestOffboard || q is Failsafe,
        Phase::RequestOffboard => q is RequestArm || q is Failsafe,
        Phase::RequestArm => q is RequestArm || q is Takeoff || q is Failsafe,
        Phase::Takeoff => q is Takeoff || q is Hold || q is Failsafe,
        Phase::Hold => q is Hold || q is Waypoints || q is Failsafe,
        Phase::Waypoints => q is Waypoints || q is RTL || q is Failsafe,
        Phase::RTL => q is Land || q is Failsafe,
        Phase::Land => q is Land || q is Disarm || q is Failsafe,
        Phase::Disarm => q is Disarm || q is Done || q is Failsafe,
        Phase::Failsafe => q is Failsafe || q is Disarm,
        Phase::Done => q is Done,
    }
}

/// What holds of every state that a run from the start reaches: the
/// waypoint index never passes the number of waypoints, and the return
/// phase is only ever reached with every waypoint flown.
pub open spec fn waypoint_progress_ok(s: MissionState) -> bool {
    &&& s.current_wp <= WAYPOINT_COUNT
    &&& (s.phase is RTL ==> s.current_wp == WAYPOINT_COUNT)
}

/// The route is a closed square at take-off altitude: it starts and ends
/// at the take-off point above the launch position, and each leg moves one
/// side length along exactly one horizontal axis.
pub proof fn square_route()
    ensures
        mission_waypoint(0) == takeoff_point(),
        mission_waypoint((WAYPOINT_COUNT - 1) as int) == takeoff_point(),
        forall|i: int|
            0 <= i < WAYPOINT_COUNT ==> (#[trigger] mission_waypoint(i)).z == TAKEOFF_ALT_MM,
        forall|i: int|
            0 <= i < WAYPOINT_COUNT - 1 ==> {
                let a = #[trigger] mission_waypoint(i);
                let b = mission_waypoint(i + 1);
                ||| (a.x == b.x && (b.y - a.y == SQUARE_SIDE_MM || a.y - b.y == SQUARE_SIDE_MM))
                ||| (a.y == b.y && (b.x - a.x == SQUARE_SIDE_MM || a.x - b.x == SQUARE_SIDE_MM))
            },
{
}

/// The state after running the cycles `inputs`, each a telemetry snapshot
/// and the time of the cycle, from state `s`.
pub open spec fn run(s: MissionState, inputs: Seq<(Telemetry, u64)>) -> MissionState
    decreases inputs.len(),
{
    if inputs.len() == 0 {
        s
    } else {
        run(mission_step(s, inputs[0].0, inputs[0].1).0, inputs.drop_first())
    }
}

/// The phases follow the mission's order: each cycle either keeps the
/// phase, moves on to the next phase of the mission, or turns to the
/// failsafe; the failsafe only leads to disarming, and a finished mission
/// stays finished.
pub proof fn phase_order(s: MissionState, t: Telemetry, now: u64)
    ensures
        may_follow(s.phase, mission_step(s, t, now).0.phase),
{
}

/// A failsafe reported by the vehicle, in any phase but the failsafe
/// itself and the end, turns the mission to the failsafe phase in the same
/// cycle, and that cycle commands a landing.
pub proof fn vehicle_failsafe_lands(s: MissionState, t: Telemetry, now: u64)
    requires
        t.failsafe,
        !(s.phase is Failsafe || s.phase is Done),
    ensures
        mission_step(s, t, now).0.phase is Failsafe,
        mission_step(s, t, now).1.command == Some(VehicleCommandKind::Land),
{
}

/// A pose that has been invalid for longer than the pose timeout since the
/// current phase began, in a phase that flies the vehicle or readies it,
/// turns the mission to the failsafe phase in the same cycle, and that
/// cycle commands a landing.
pub proof fn pose_loss_lands(s: MissionState, t: Telemetry, now: u64)
    requires
        !t.pose_valid,
        in_flight(s.phase) || s.phase is Disarm,
        elapsed(s.phase_start, now) > POSE_TIMEOUT_NS,
    ensures
        mission_step(s, t, now).0.phase is Failsafe,
        mission_step(s, t, now).1.command == Some(VehicleCommandKind::Land),
{
}

/// While in the failsafe phase, every cycle commands a landing, and the
/// only way out is to disarming.
pub proof fn failsafe_keeps_landing(s: MissionState, t: Telemetry, now: u64)
    requires
        s.phase is Failsafe,
    ensures
        mission_step(s, t, now).1.command == Some(VehicleCommandKind::Land),
        mission_step(s, t, now).0.phase is Failsafe || mission_step(s, t, now).0.phase is Disarm,
{
}

/// Once the mission winds down (failsafe, disarming or finished) it never
/// readies or flies the vehicle again: it stays winding down and sends
/// neither an off-board request nor an arm command.
pub proof fn winding_down_is_final(s: MissionState, t: Telemetry, now: u64)
    requires
        winding_down(s.phase),
    ensures
        winding_down(mission_step(s, t, now).0.phase),
        mission_step(s, t, now).1.command != Some(VehicleCommandKind::SetOffboardMode),
        mission_step(s, t, now).1.command != Some(VehicleCommandKind::Arm),
{
}

/// A finished mission stays as it is, sends nothing, and tells the loop to
/// stop; in every other phase the loop goes on.
pub proof fn finished_only_when_done(s: MissionState, t: Telemetry, now: u64)
    ensures
        mission_step(s, t, now).1.finished <==> s.phase is Done,
        s.phase is Done ==> mission_step(s, t, now).0 == s && mission_step(s, t, now).1.command
            is None,
{
}

/// The vehicle is only ever commanded to arm while the arming phase
/// requests it, and only ever commanded to disarm in the disarming phase.
pub proof fn arm_and_disarm_commands_by_phase(s: MissionState, t: Telemetry, now: u64)
    ensures
        mission_step(s, t, now).1.command == Some(VehicleCommandKind::Arm) ==> s.phase
            is RequestArm,
        mission_step(s, t, now).1.command == Some(VehicleCommandKind::Disarm) ==> s.phase
            is Disarm,
{
}

/// Take-off only begins once the vehicle reports that it is armed, and
/// the off-board request only begins once a valid pose has arrived.
pub proof fn guarded_entries(s: MissionState, t: Telemetry, now: u64)
    ensures
        mission_step(s, t, now).0.phase is Takeoff && !(s.phase is Takeoff) ==> t.armed(),
        mission_step(s, t, now).0.phase is RequestOffboard ==> t.pose_valid,
{
}

/// A cycle that starts the flight phases (from priming, waiting for the
/// pose, or winding down) only does so with a valid pose.
pub proof fn flight_starts_with_pose(s: MissionState, t: Telemetry, now: u64)
    requires
        !in_flight(s.phase),
        in_flight(mission_step(s, t, now).0.phase),
    ensures
        t.pose_valid,
{
}

/// The waypoints are flown in order: in the waypoint phase each cycle
/// keeps the current waypoint or moves on to the next one, and the return
/// begins only after the last one.
pub proof fn waypoints_in_order(s: MissionState, t: Telemetry, now: u64)
    requires
        s.phase is Waypoints,
        mission_step(s, t, now).0.phase is Waypoints,
    ensures
        mission_step(s, t, now).0.current_wp == s.current_wp || mission_step(s, t, now).0.current_wp
            == s.current_wp + 1,
{
}

/// The start state satisfies the waypoint invariant, and every cycle keeps
/// it.
pub proof fn waypoint_progress_invariant(s: MissionState, t: Telemetry, now: u64)
    requires
        waypoint_progress_ok(s),
    ensures
        waypoint_progress_ok(initial_state(now)),
        waypoint_progress_ok(mission_step(s, t, now).0),
{
}

/// Every run from the start keeps the waypoint invariant.
pub proof fn waypoint_progress_on_runs(start: u64, inputs: Seq<(Telemetry, u64)>)
    ensures
        waypoint_progress_ok(run(initial_state(start), inputs)),
{
    run_keeps_waypoint_progress(initial_state(start), inputs);
}

proof fn run_keeps_waypoint_progress(s: MissionState, inputs: Seq<(Telemetry, u64)>)
    requires
        waypoint_progress_ok(s),
    ensures
        waypoint_progress_ok(run(s, inputs)),
    decreases inputs.len(),
{
    if inputs.len() > 0 {
        waypoint_progress_invariant(s, inputs[0].0, inputs[0].1);
        run_keeps_waypoint_progress(mission_step(s, inputs[0].0, inputs[0].1).0, inputs.drop_first());
    }
}

/// No flight without a pose: on every run from the start that ends in a
/// phase readying or flying the vehicle, some cycle saw a valid pose.
pub proof fn no_flight_without_pose(start: u64, inputs: Seq<(Telemetry, u64)>)
    requires
        in_flight(run(initial_state(start), inputs).phase),
    ensures
        exists|i: int| 0 <= i < inputs.len() && (#[trigger] inputs[i]).0.pose_valid,
{
    run_flight_needs_pose(initial_state(start), inputs);
}

proof fn run_flight_needs_pose(s: MissionState, inputs: Seq<(Telemetry, u64)>)
    requires
        !in_flight(s.phase),
        in_flight(run(s, inputs).phase),
    ensures
        exists|i: int| 0 <= i < inputs.len() && (#[trigger] inputs[i]).0.pose_valid,
    decreases inputs.len(),
{
    if inputs.len() > 0 {
        let next = mission_step(s, inputs[0].0, inputs[0].1).0;
        if in_flight(next.phase) {
            flight_starts_with_pose(s, inputs[0].0, inputs[0].1);
            assert(inputs[0].0.pose_valid);
        } else {
            run_flight_needs_pose(next, inputs.drop_first());
            let i = choose|i: int|
                0 <= i < inputs.drop_first().len() && (#[trigger] inputs.drop_first()[i]).0.pose_valid;
            assert(inputs[i + 1] == inputs.drop_first()[i]);
        }
    }
}

/// Once winding down, a run never readies or flies the vehicle again.
pub proof fn winding_down_on_runs(s: MissionState, inputs: Seq<(Telemetry, u64)>)
    requires
        winding_down(s.phase),
    ensures
        winding_down(run(s, inputs).phase),
    decreases inputs.len(),
{
    if inputs.len() > 0 {
        winding_down_is_final(s, inputs[0].0, inputs[0].1);
        winding_down_on_runs(mission_step(s, inputs[0].0, inputs[0].1).0, inputs.drop_first());
    }
}

/// A finished mission stays finished whatever the later cycles bring.
pub proof fn done_on_runs(s: MissionState, inputs: Seq<(Telemetry, u64)>)
    requires
        s.phase is Done,
    ensures
        run(s, inputs) == s,
    decreases inputs.len(),
{
    if inputs.len() > 0 {
        done_on_runs(mission_step(s, inputs[0].0, inputs[0].1).0, inputs.drop_first());
    }
}

/// Every state has a set-point, and every state that a run from the start
/// reaches in the return phase flies home: the return set-point is the
/// take-off point above the launch position.
pub proof fn return_flies_home(start: u64, inputs: Seq<(Telemetry, u64)>)
    ensures
        run(initial_state(start), inputs).phase is RTL ==> setpoint_of(
            run(initial_state(start), inputs),
        ) == takeoff_point(),
{
    waypoint_progress_on_runs(start, inputs);
}

/// Telemetry of a healthy flight: a valid pose and no failsafe.
pub open spec fn healthy(t: Telemetry) -> bool {
    t.pose_valid && !t.failsafe
}

/// Time allotted to one stretch of the mission (one phase or one waypoint
/// leg) in the completion bound: longer than the longest phase timer plus
/// one cycle.
pub open spec fn stretch_ns() -> int {
    26_000_000_000
}

/// The state after cycles at times `now`, `now + period`, ... up to
/// `until`, the cycle at time `n` receiving the telemetry `readings(n)`.
pub open spec fn cycles(
    s: MissionState,
    readings: spec_fn(int) -> Telemetry,
    now: int,
    period: int,
    until: int,
) -> MissionState
    decreases until - now + period,
    when period > 0
{
    if now > until || now < 0 || now > u64::MAX {
        s
    } else {
        cycles(mission_step(s, readings(now), now as u64).0, readings, now + period, period, until)
    }
}

/// Whether, on the cycles from `s` at `now`, `now + period`, ... up to
/// `until`, the vehicle reports that it is armed in every cycle that begins
/// in the arming phase, that is whenever the mission asks it to arm.
pub open spec fn armed_when_asked(
    s: MissionState,
    readings: spec_fn(int) -> Telemetry,
    now: int,
    period: int,
    until: int,
) -> bool
    decreases until - now + period,
    when period > 0
{
    if now > until || now < 0 || now > u64::MAX {
        true
    } else {
        &&& (s.phase is RequestArm ==> readings(now).armed())
        &&& armed_when_asked(
            mission_step(s, readings(now), now as u64).0,
            readings,
            now + period,
            period,
            until,
        )
    }
}

/// The stretches of the mission left from `s` before it is done.
pub open spec fn stretches_left(s: MissionState) -> int {
    match s.phase {
        Phase::Done => 0,
        Phase::Disarm => 1,
        Phase::Failsafe => 2,
        Phase::Land => 2,
        Phase::RTL => 3,
        Phase::Waypoints => 4 + (WAYPOINT_COUNT - s.current_wp),
        Phase::Hold => 10,
        Phase::Takeoff => 11,
        Phase::RequestArm => 12,
        Phase::RequestOffboard => 13,
        Phase::WaitPose => 14,
        Phase::Prime => 15,
    }
}

/// An upper bound on the time the mission still needs from `s` at `now`.
pub open spec fn time_left_bound(s: MissionState, now: int) -> int {
    stretches_left(s) * stretch_ns() + if s.phase_start + stretch_ns() > now {
        s.phase_start + stretch_ns() - now
    } else {
        0
    }
}

/// What holds of the states of a healthy run at the time of their next
/// cycle.
pub open spec fn healthy_state_ok(s: MissionState, now: int) -> bool {
    &&& s.phase_start <= now
    &&& (s.phase is Hold ==> s.hold_start == s.phase_start)
    &&& s.current_wp <= WAYPOINT_COUNT
}

proof fn healthy_cycle(s: MissionState, t: Telemetry, now: int, period: int)
    requires
        healthy(t),
        0 < period <= STEP_TIMEOUT_NS,
        0 <= now <= u64::MAX,
        !(s.phase is Done),
        healthy_state_ok(s, now),
    ensures
        healthy_state_ok(mission_step(s, t, now as u64).0, now + period),
        time_left_bound(mission_step(s, t, now as u64).0, now + period) + period
            <= time_left_bound(s, now),
{
}

proof fn done_stays(
    s: MissionState,
    readings: spec_fn(int) -> Telemetry,
    now: int,
    period: int,
    until: int,
)
    requires
        s.phase is Done,
        period > 0,
    ensures
        cycles(s, readings, now, period, until) == s,
    decreases until - now + period,
{
    if !(now > until || now < 0 || now > u64::MAX) {
        done_stays(mission_step(s, readings(now), now as u64).0, readings, now + period, period, until);
    }
}

proof fn healthy_reaches_done(
    s: MissionState,
    readings: spec_fn(int) -> Telemetry,
    now: int,
    period: int,
    until: int,
)
    requires
        forall|n: int| healthy(#[trigger] readings(n)),
        0 < period <= STEP_TIMEOUT_NS,
        0 <= now,
        until <= u64::MAX,
        healthy_state_ok(s, now),
        until - now >= time_left_bound(s, now),
    ensures
        cycles(s, readings, now, period, until).phase is Done,
    decreases until - now + period,
{
    if s.phase is Done {
        done_stays(s, readings, now, period, until);
    } else {
        healthy_cycle(s, readings(now), now, period);
        healthy_reaches_done(
            mission_step(s, readings(now), now as u64).0,
            readings,
            now + period,
            period,
            until,
        );
    }
}

/// A healthy flight finishes: when every reading has a valid pose and no
/// failsafe, and cycles come at most a step timeout apart, the mission
/// started at `start` is done once it has run for 442 seconds (seventeen
/// stretches), whatever the vehicle reports of its arming.
pub proof fn healthy_missions_finish(
    start: u64,
    readings: spec_fn(int) -> Telemetry,
    period: u64,
    until: int,
)
    requires
        forall|n: int| healthy(#[trigger] readings(n)),
        0 < period <= STEP_TIMEOUT_NS,
        start + 17 * stretch_ns() <= until <= u64::MAX,
    ensures
        cycles(initial_state(start), readings, start + period, period as int, until).phase is Done,
{
    healthy_reaches_done(initial_state(start), readings, start + period, period as int, until);
}

/// What holds of the states of a healthy run with cycles `period` apart:
/// the failsafe has not been entered, and the off-board and arming
/// requests began at most one cycle before the next cycle.
pub open spec fn on_course(s: MissionState, now: int, period: int) -> bool {
    &&& !(s.phase is Failsafe)
    &&& (s.phase is RequestOffboard || s.phase is RequestArm) ==> s.phase_start <= now
        && now - s.phase_start <= period
}

proof fn healthy_cycle_on_course(s: MissionState, t: Telemetry, now: int, period: int)
    requires
        healthy(t),
        s.phase is RequestArm ==> t.armed(),
        0 < period <= STEP_TIMEOUT_NS,
        0 <= now <= u64::MAX,
        on_course(s, now, period),
    ensures
        on_course(mission_step(s, t, now as u64).0, now + period, period),
{
}

proof fn healthy_run_on_course(
    s: MissionState,
    readings: spec_fn(int) -> Telemetry,
    now: int,
    period: int,
    until: int,
)
    requires
        forall|n: int| healthy(#[trigger] readings(n)),
        armed_when_asked(s, readings, now, period, until),
        0 < period <= STEP_TIMEOUT_NS,
        0 <= now,
        on_course(s, now, period),
    ensures
        !(cycles(s, readings, now, period, until).phase is Failsafe),
    decreases until - now + period,
{
    if !(now > until || now < 0 || now > u64::MAX) {
        healthy_cycle_on_course(s, readings(now), now, period);
        healthy_run_on_course(
            mission_step(s, readings(now), now as u64).0,
            readings,
            now + period,
            period,
            until,
        );
    }
}

/// A healthy flight never turns to the failsafe: when every reading has a
/// valid pose and no failsafe, the vehicle reports that it is armed
/// whenever the mission asks it to arm, and cycles come at most a step
/// timeout apart, no state of the run from the start is in the failsafe
/// phase; so a finished healthy flight has returned, landed and disarmed
/// through the mission's own phases.
pub proof fn healthy_missions_avoid_failsafe(
    start: u64,
    readings: spec_fn(int) -> Telemetry,
    period: u64,
    until: int,
)
    requires
        forall|n: int| healthy(#[trigger] readings(n)),
        armed_when_asked(initial_state(start), readings, start + period, period as int, until),
        0 < period <= STEP_TIMEOUT_NS,
    ensures
        !(cycles(initial_state(start), readings, start + period, period as int, until).phase
            is Failsafe),
{
    healthy_run_on_course(initial_state(start), readings, start + period, period as int, until);
}

/// The timers of the demonstration controller all count from the one
/// mission start: the state after a cycle depends on the time only through
/// the time elapsed since that start, and only initialisation ends on time.
pub proof fn controller_timed_transition(state: DroneState, start: u64, now: u64)
    ensures
        state_after(state, elapsed(start, now)) != state ==> state is Initializing && state_after(
            state,
            elapsed(start, now),
        ) == DroneState::Arming && now - start > 2_000_000_000,
{
}

/// A mission that completed or failed is left as it is by every cycle that
/// carries its state out without error, so the loop stops on it; a failed
/// execution always turns into an emergency landing, on which the loop
/// goes on.
pub proof fn controller_cycle_outcomes(state: DroneState, reason: String, elapsed_ns: int)
    ensures
        mission_over(state) ==> state_after_cycle(state, Ok(()), elapsed_ns) == state,
        state_after_cycle(state, Err(reason), elapsed_ns) == (DroneState::EmergencyLanding {
            reason,
        }),
        !mission_over(state_after_cycle(state, Err(reason), elapsed_ns)),
{
}

/// Which cycles send which command. A landing is commanded only by a cycle
/// that begins in the landing or failsafe phase, or that a vehicle failsafe
/// or a lost pose turns to the failsafe; the off-board request only while
/// priming or requesting off-board; arming only while requesting arming;
/// disarming only while disarming. The cycles that wait for the pose, take
/// off, hold, fly the waypoints or return send nothing while the pose is
/// valid and the vehicle reports no failsafe.
pub proof fn commands_by_phase(s: MissionState, t: Telemetry, now: u64)
    ensures
        mission_step(s, t, now).1.command == Some(VehicleCommandKind::Land) ==> {
            ||| s.phase is Land
            ||| s.phase is Failsafe
            ||| t.failsafe
            ||| (!t.pose_valid && elapsed(s.phase_start, now) > POSE_TIMEOUT_NS)
        },
        mission_step(s, t, now).1.command == Some(VehicleCommandKind::SetOffboardMode) ==> (
        s.phase is Prime || s.phase is RequestOffboard),
        mission_step(s, t, now).1.command == Some(VehicleCommandKind::Arm) ==> s.phase
            is RequestArm,
        mission_step(s, t, now).1.command == Some(VehicleCommandKind::Disarm) ==> s.phase
            is Disarm,
        (s.phase is WaitPose || s.phase is Takeoff || s.phase is Hold || s.phase is Waypoints
            || s.phase is RTL) && t.pose_valid && !t.failsafe ==> mission_step(s, t, now).1 == (
        crate::mission::StepOutput { command: None, finished: false }),
{
}

/// While flying the waypoints or returning, the set-point is the current
/// waypoint of the square: home above the launch point for the first and
/// last, then five metres north, five metres north and east, and five
/// metres east, all at take-off altitude; once every waypoint has been
/// flown it is home.
pub proof fn waypoint_setpoints(s: MissionState)
    requires
        s.phase is Waypoints || s.phase is RTL,
    ensures
        s.current_wp < WAYPOINT_COUNT ==> setpoint_of(s) == mission_waypoint(s.current_wp as int),
        s.current_wp == 0 || s.current_wp == 4 || s.current_wp >= WAYPOINT_COUNT ==> setpoint_of(s)
            == (Position { x: 0, y: 0, z: -5000i32 }),
        s.current_wp == 1 ==> setpoint_of(s) == (Position { x: 5000, y: 0, z: -5000i32 }),
        s.current_wp == 2 ==> setpoint_of(s) == (Position { x: 5000, y: 5000, z: -5000i32 }),
        s.current_wp == 3 ==> setpoint_of(s) == (Position { x: 0, y: 5000, z: -5000i32 }),
{
}

/// The mission starts priming at its start time, at the first waypoint:
/// for a full priming time after the start, every cycle without a vehicle
/// failsafe leaves the state as it is and sends nothing, so the off-board
/// mode is requested only once more than the priming time has passed.
pub proof fn start_primes_first(start: u64, t: Telemetry, now: u64)
    ensures
        initial_state(start).phase is Prime,
        initial_state(start).phase_start == start,
        initial_state(start).current_wp == 0,
        start <= now <= start + PRIME_TIME_NS && !t.failsafe ==> mission_step(
            initial_state(start),
            t,
            now,
        ) == (initial_state(start), crate::mission::StepOutput { command: None, finished: false }),
        now > start + PRIME_TIME_NS && !t.failsafe ==> mission_step(initial_state(start), t, now).1.command
            == Some(VehicleCommandKind::SetOffboardMode),
{
}

/// A command message carries the command and the parameters it is given,
/// stamped with the given time, from and to this system; so the messages
/// of the mission's commands are: off-board mode (176 with custom-mode flag
/// 1 and main mode 6), arm (400 with 1), disarm (400 with 0) and land (21).
pub proof fn command_messages(c: u32, p1: i32, p2: i32, p3: i32, ts: u64, k: VehicleCommandKind)
    ensures
        command_message_spec(c, p1, p2, p3, ts).command == c,
        command_message_spec(c, p1, p2, p3, ts).param1 == p1,
        command_message_spec(c, p1, p2, p3, ts).param2 == p2,
        command_message_spec(c, p1, p2, p3, ts).param3 == p3,
        command_message_spec(c, p1, p2, p3, ts).timestamp == ts,
        command_message_spec(c, p1, p2, p3, ts).param4 == 0,
        command_message_spec(c, p1, p2, p3, ts).target_system == 1,
        command_message_spec(c, p1, p2, p3, ts).source_system == 1,
        command_message_spec(c, p1, p2, p3, ts).from_external,
        k == VehicleCommandKind::SetOffboardMode ==> (k.spec_code(), k.spec_params()) == (
        176u32, (1i32, 6i32, 0i32)),
        k == VehicleCommandKind::Arm ==> (k.spec_code(), k.spec_params()) == (400u32, (1i32, 0i32, 0i32)),
        k == VehicleCommandKind::Disarm ==> (k.spec_code(), k.spec_params()) == (400u32, (0i32, 0i32, 0i32)),
        k == VehicleCommandKind::Land ==> (k.spec_code(), k.spec_params()) == (21u32, (0i32, 0i32, 0i32)),
{
}

/// A cycle of the demonstration loop that carries its state out without
/// error changes the state only by ending initialisation into arming once
/// more than two seconds have passed since the start; it never completes
/// or fails a mission, so the loop stops only on a mission that was
/// already over, and an emergency landing stays an emergency landing.
pub proof fn successful_cycles_only_time(state: DroneState, elapsed_ns: int)
    ensures
        state_after_cycle(state, Ok(()), elapsed_ns) != state ==> state is Initializing
            && state_after_cycle(state, Ok(()), elapsed_ns) == DroneState::Arming && elapsed_ns
            > 2_000_000_000,
        state is Initializing && elapsed_ns > 2_000_000_000 ==> state_after_cycle(
            state,
            Ok(()),
            elapsed_ns,
        ) == DroneState::Arming,
        mission_over(state_after_cycle(state, Ok(()), elapsed_ns)) ==> mission_over(state),
        state is EmergencyLanding ==> state_after_cycle(state, Ok(()), elapsed_ns) == state,
{
}

} // verus!
