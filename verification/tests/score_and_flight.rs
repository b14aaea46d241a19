use lunar::flight::{
    autopilot_run_continues, frame_allows_step, next_level_seed, plan_frame, ControlFlags,
    FlightOutcome, FrameCommand, GameStatus, AUTOPILOT_STEP_LIMIT, MAX_PHYSICS_STEPS_PER_FRAME,
};
use lunar::score::{LandingScore, MAX_FUEL_SCORE, MAX_LANDING_SCORE, MAX_SOFT_SCORE};

#[test]
fn full_parts_make_the_maximum_score() {
    let score = LandingScore::from_parts(MAX_FUEL_SCORE, MAX_SOFT_SCORE);
    assert_eq!(score.total, MAX_LANDING_SCORE);
    assert_eq!(score.total, 10_000);
    assert_eq!(score.fuel, 5_000);
    assert_eq!(score.soft, 5_000);
}

#[test]
fn score_total_is_the_sum_of_its_parts() {
    let score = LandingScore::from_parts(1_234, 321);
    assert_eq!(score.total, 1_555);
    assert_eq!(score.total, score.fuel + score.soft);
    let empty = LandingScore::from_parts(0, 5_000);
    assert_eq!(empty.fuel, 0);
    assert_eq!(empty.total, 5_000);
}

#[test]
fn default_score_is_zero() {
    let score = LandingScore::default();
    assert_eq!(score, LandingScore { total: 0, fuel: 0, soft: 0 });
}

#[test]
fn fresh_flight_has_no_score() {
    let outcome = FlightOutcome::airborne();
    assert_eq!(outcome.status, GameStatus::Flying);
    assert_eq!(outcome.score, LandingScore::default());
}

#[test]
fn soft_touchdown_lands_with_its_score() {
    let score = LandingScore::from_parts(4_100, 3_000);
    let outcome = FlightOutcome::touchdown(true, score);
    assert_eq!(outcome.status, GameStatus::Landed);
    assert_eq!(outcome.score.total, 7_100);
}

#[test]
fn hard_touchdown_crashes_without_score() {
    let score = LandingScore::from_parts(4_100, 3_000);
    let outcome = FlightOutcome::touchdown(false, score);
    assert_eq!(outcome.status, GameStatus::Crashed);
    assert_eq!(outcome.score, LandingScore::default());
}

#[test]
fn leaving_the_view_is_a_crash_without_score() {
    let outcome = FlightOutcome::lost();
    assert_eq!(outcome.status, GameStatus::Crashed);
    assert_eq!(outcome.score.total, 0);
}

#[test]
fn merging_inputs_keeps_any_pending_command() {
    let mut flags = ControlFlags { toggle_autopilot: false, reset: true, new_level: false };
    flags.merge(ControlFlags { toggle_autopilot: true, reset: false, new_level: false });
    assert_eq!(flags, ControlFlags { toggle_autopilot: true, reset: true, new_level: false });
    flags.merge(ControlFlags::cleared());
    assert_eq!(flags, ControlFlags { toggle_autopilot: true, reset: true, new_level: false });
}

#[test]
fn reset_wins_over_new_level_and_consumes_all_commands() {
    let mut flags = ControlFlags { toggle_autopilot: true, reset: true, new_level: true };
    let plan = plan_frame(&mut flags, false, GameStatus::Flying);
    assert_eq!(plan.command, FrameCommand::Restart);
    assert!(!plan.autopilot);
    assert!(!plan.resync_pitch);
    assert_eq!(flags, ControlFlags::cleared());
}

#[test]
fn new_level_ends_the_frame_before_the_toggle() {
    let mut flags = ControlFlags { toggle_autopilot: true, reset: false, new_level: true };
    let plan = plan_frame(&mut flags, true, GameStatus::Crashed);
    assert_eq!(plan.command, FrameCommand::NextLevel);
    assert!(!plan.autopilot);
    assert_eq!(flags, ControlFlags::cleared());
}

#[test]
fn toggle_switches_autopilot_on_and_resyncs_pitch() {
    let mut flags = ControlFlags { toggle_autopilot: true, reset: false, new_level: false };
    let plan = plan_frame(&mut flags, false, GameStatus::Flying);
    assert_eq!(plan.command, FrameCommand::Simulate);
    assert!(plan.autopilot);
    assert!(plan.resync_pitch);
    assert_eq!(flags, ControlFlags::cleared());

    let mut again = ControlFlags { toggle_autopilot: true, reset: false, new_level: false };
    let off = plan_frame(&mut again, plan.autopilot, GameStatus::Flying);
    assert!(!off.autopilot);
    assert!(!off.resync_pitch);
}

#[test]
fn finished_flight_holds_but_still_toggles() {
    let mut flags = ControlFlags { toggle_autopilot: true, reset: false, new_level: false };
    let plan = plan_frame(&mut flags, false, GameStatus::Landed);
    assert_eq!(plan.command, FrameCommand::Hold);
    assert!(plan.autopilot);
    let mut quiet = ControlFlags::cleared();
    let hold = plan_frame(&mut quiet, true, GameStatus::Crashed);
    assert_eq!(hold.command, FrameCommand::Hold);
    assert!(hold.autopilot);
}

#[test]
fn next_level_seed_wraps() {
    assert_eq!(next_level_seed(42), 43);
    assert_eq!(next_level_seed(u64::MAX), 0);
}

#[test]
fn frame_step_budget_is_four() {
    assert_eq!(MAX_PHYSICS_STEPS_PER_FRAME, 4);
    assert!(frame_allows_step(0));
    assert!(frame_allows_step(3));
    assert!(!frame_allows_step(4));
    assert!(!frame_allows_step(100));
}

#[test]
fn autopilot_run_stops_on_limit_or_end_of_flight() {
    assert!(autopilot_run_continues(0, GameStatus::Flying));
    assert!(autopilot_run_continues(AUTOPILOT_STEP_LIMIT - 1, GameStatus::Flying));
    assert!(!autopilot_run_continues(AUTOPILOT_STEP_LIMIT, GameStatus::Flying));
    assert!(!autopilot_run_continues(10, GameStatus::Landed));
    assert!(!autopilot_run_continues(10, GameStatus::Crashed));
}
