use vstd::prelude::*;

use crate::score::LandingScore;

verus! {

/// Whether the lander is still in the air, down on the pad, or lost.
#[derive(Clone, Copy, PartialEq, Eq, Debug, Structural)]
pub enum GameStatus {
    Flying,
    Landed,
    Crashed,
}

/// Status of a flight together with the score it earned.
#[derive(Clone, Copy, PartialEq, Eq, Debug, Structural)]
pub struct FlightOutcome {
    pub status: GameStatus,
    pub score: LandingScore,
}

impl FlightOutcome {
    /// A score is held only after a successful landing: it is zero while
    /// flying or after a crash, and consistent when landed.
    pub open spec fn is_well_formed(self) -> bool {
        &&& self.status != GameStatus::Landed ==> self.score == LandingScore::zero()
        &&& self.score.is_consistent()
    }

    /// The outcome of a fresh flight: airborne, no score yet.
    pub fn airborne() -> (outcome: FlightOutcome)
        ensures
            outcome.status == GameStatus::Flying,
            outcome.score == LandingScore::zero(),
            outcome.is_well_formed(),
    {
        FlightOutcome { status: GameStatus::Flying, score: LandingScore::default() }
    }

    /// The outcome of ground contact. `within_limits` says that the centre of
    /// mass is over the pad and vertical speed, lateral speed and tilt are all
    /// within the landing limits; `score` is what such a landing earns.
    pub fn touchdown(within_limits: bool, score: LandingScore) -> (outcome: FlightOutcome)
        requires
            score.is_consistent(),
        ensures
            within_limits ==> outcome == (FlightOutcome { status: GameStatus::Landed, score }),
            !within_limits ==> outcome == (FlightOutcome {
                status: GameStatus::Crashed,
                score: LandingScore::zero(),
            }),
            outcome.is_well_formed(),
    {
        if within_limits {
            FlightOutcome { status: GameStatus::Landed, score }
        } else {
            FlightOutcome { status: GameStatus::Crashed, score: LandingScore::default() }
        }
    }

    /// The outcome of leaving the playable area: a crash with no score.
    pub fn lost() -> (outcome: FlightOutcome)
        ensures
            outcome.status == GameStatus::Crashed,
            outcome.score == LandingScore::zero(),
            outcome.is_well_formed(),
    {
        FlightOutcome { status: GameStatus::Crashed, score: LandingScore::default() }
    }
}

/// A score is zero unless the flight ended in a landing.
pub proof fn lemma_score_only_when_landed(outcome: FlightOutcome)
    requires
        outcome.is_well_formed(),
    ensures
        outcome.score.total > 0 ==> outcome.status == GameStatus::Landed,
{
}

/// The per-frame edge-triggered commands of the player.
#[derive(Clone, Copy, PartialEq, Eq, Debug, Structural)]
pub struct ControlFlags {
    pub toggle_autopilot: bool,
    pub reset: bool,
    pub new_level: bool,
}

impl ControlFlags {
    /// No command pending.
    pub open spec fn none() -> ControlFlags {
        ControlFlags { toggle_autopilot: false, reset: false, new_level: false }
    }

    /// No command pending.
    pub fn cleared() -> (flags: ControlFlags)
        ensures
            flags == ControlFlags::none(),
    {
        ControlFlags { toggle_autopilot: false, reset: false, new_level: false }
    }

    /// Adds the commands of a second input source: a command is pending when
    /// either source asked for it.
    pub fn merge(&mut self, other: ControlFlags)
        ensures
            final(self).toggle_autopilot == (old(self).toggle_autopilot || other.toggle_autopilot),
            final(self).reset == (old(self).reset || other.reset),
            final(self).new_level == (old(self).new_level || other.new_level),
    {
        self.toggle_autopilot = self.toggle_autopilot || other.toggle_autopilot;
        self.reset = self.reset || other.reset;
        self.new_level = self.new_level || other.new_level;
    }
}

/// What a frame does with the game.
#[derive(Clone, Copy, PartialEq, Eq, Debug, Structural)]
pub enum FrameCommand {
    /// Restart the current terrain.
    Restart,
    /// Move on to the next terrain.
    NextLevel,
    /// The flight is over: leave the simulation as it is.
    Hold,
    /// Advance the physics.
    Simulate,
}

/// The decisions of one frame.
#[derive(Clone, Copy, PartialEq, Eq, Debug, Structural)]
pub struct FramePlan {
    pub command: FrameCommand,
    /// Whether the autopilot flies after this frame: the old switch after the
    /// frame's toggle, or off when the game is restarted or moves on to the
    /// next terrain, which starts without the autopilot.
    pub autopilot: bool,
    /// Whether the autopilot was just switched on, so that its smoothed pitch
    /// starts from the current attitude.
    pub resync_pitch: bool,
}

/// The plan of a frame, given the pending commands, the autopilot switch and
/// the flight status.
pub open spec fn spec_frame_plan(flags: ControlFlags, autopilot: bool, status: GameStatus) -> FramePlan {
    if flags.reset {
        FramePlan { command: FrameCommand::Restart, autopilot: false, resync_pitch: false }
    } else if flags.new_level {
        FramePlan { command: FrameCommand::NextLevel, autopilot: false, resync_pitch: false }
    } else {
        let on = autopilot != flags.toggle_autopilot;
        FramePlan {
            command: if status == GameStatus::Flying {
                FrameCommand::Simulate
            } else {
                FrameCommand::Hold
            },
            autopilot: on,
            resync_pitch: flags.toggle_autopilot && on,
        }
    }
}

/// Decides a frame and consumes the pending commands. A restart wins over a
/// new level; either one ends the frame before the autopilot toggle is read.
pub fn plan_frame(flags: &mut ControlFlags, autopilot: bool, status: GameStatus) -> (plan: FramePlan)
    ensures
        plan == spec_frame_plan(*old(flags), autopilot, status),
        *final(flags) == ControlFlags::none(),
        old(flags).reset ==> plan.command == FrameCommand::Restart && !plan.autopilot
            && !plan.resync_pitch,
        !old(flags).reset && old(flags).new_level ==> plan.command == FrameCommand::NextLevel
            && !plan.autopilot && !plan.resync_pitch,
        !old(flags).reset && !old(flags).new_level ==> {
            &&& plan.autopilot == (autopilot != old(flags).toggle_autopilot)
            &&& plan.resync_pitch == (old(flags).toggle_autopilot && !autopilot)
            &&& status == GameStatus::Flying ==> plan.command == FrameCommand::Simulate
            &&& status != GameStatus::Flying ==> plan.command == FrameCommand::Hold
        },
{
    let plan = if flags.reset {
        FramePlan { command: FrameCommand::Restart, autopilot: false, resync_pitch: false }
    } else if flags.new_level {
        FramePlan { command: FrameCommand::NextLevel, autopilot: false, resync_pitch: false }
    } else {
        let on = autopilot != flags.toggle_autopilot;
        let command = if status == GameStatus::Flying {
            FrameCommand::Simulate
        } else {
            FrameCommand::Hold
        };
        FramePlan { command, autopilot: on, resync_pitch: flags.toggle_autopilot && on }
    };
    *flags = ControlFlags::cleared();
    plan
}

/// The rules of a frame. A pending restart restarts the terrain whatever the
/// flight status, and a pending new level (without a restart) moves on to the
/// next terrain; both start the new flight with the autopilot off. Otherwise
/// the toggle flips the autopilot (resyncing its pitch when it comes on), and
/// the physics runs while flying and holds once the flight is over.
pub proof fn lemma_frame_rules(flags: ControlFlags, autopilot: bool, status: GameStatus)
    ensures
        ({
            let plan = spec_frame_plan(flags, autopilot, status);
            &&& flags.reset ==> plan.command == FrameCommand::Restart && !plan.autopilot
                && !plan.resync_pitch
            &&& !flags.reset && flags.new_level ==> plan.command == FrameCommand::NextLevel
                && !plan.autopilot && !plan.resync_pitch
            &&& !flags.reset && !flags.new_level ==> {
                &&& plan.autopilot == (autopilot != flags.toggle_autopilot)
                &&& plan.resync_pitch == (flags.toggle_autopilot && !autopilot)
                &&& status == GameStatus::Flying ==> plan.command == FrameCommand::Simulate
                &&& status != GameStatus::Flying ==> plan.command == FrameCommand::Hold
            }
            &&& plan.command == FrameCommand::Restart <==> flags.reset
            &&& plan.command == FrameCommand::NextLevel <==> (!flags.reset && flags.new_level)
        }),
{
}

/// Two frames that each only toggle the autopilot leave it as it was.
pub proof fn lemma_toggle_twice_restores(autopilot: bool, status: GameStatus)
    ensures
        ({
            let toggle = ControlFlags { toggle_autopilot: true, reset: false, new_level: false };
            let first = spec_frame_plan(toggle, autopilot, status);
            spec_frame_plan(toggle, first.autopilot, status).autopilot == autopilot
        }),
{
}

/// A frame without commands changes nothing but whether the physics runs.
pub proof fn lemma_quiet_frame_keeps_autopilot(autopilot: bool, status: GameStatus)
    ensures
        spec_frame_plan(ControlFlags::none(), autopilot, status).autopilot == autopilot,
        !spec_frame_plan(ControlFlags::none(), autopilot, status).resync_pitch,
        (spec_frame_plan(ControlFlags::none(), autopilot, status).command
            == FrameCommand::Simulate) == (status == GameStatus::Flying),
{
}

/// The seed of the next terrain.
pub fn next_level_seed(seed: u64) -> (next: u64)
    ensures
        next as int == (seed as int + 1) % 0x1_0000_0000_0000_0000,
{
    seed.wrapping_add(1)
}

/// The physics steps simulated in one frame are capped to avoid long
/// catch-up bursts after a hitch.
pub const MAX_PHYSICS_STEPS_PER_FRAME: usize = 4;

/// Whether a frame that has simulated `steps_done` steps may simulate another.
pub fn frame_allows_step(steps_done: usize) -> (allowed: bool)
    ensures
        allowed == (steps_done < MAX_PHYSICS_STEPS_PER_FRAME),
{
    steps_done < MAX_PHYSICS_STEPS_PER_FRAME
}

/// Upper bound on the steps of an unattended autopilot run.
pub const AUTOPILOT_STEP_LIMIT: u32 = 20_000;

/// Whether an autopilot run that has simulated `steps_done` steps goes on:
/// only while the lander flies and the step limit is not reached.
pub fn autopilot_run_continues(steps_done: u32, status: GameStatus) -> (go_on: bool)
    ensures
        go_on == (steps_done < AUTOPILOT_STEP_LIMIT && status == GameStatus::Flying),
{
    steps_done < AUTOPILOT_STEP_LIMIT && status == GameStatus::Flying
}

} // verus!
