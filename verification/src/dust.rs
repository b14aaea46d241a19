use vstd::prelude::*;

use rand::rngs::ThreadRng;
use rand::Rng;

verus! {

#[verifier::external_type_specification]
#[verifier::external_body]
pub struct ExThreadRng(ThreadRng);

/// Number of equally likely rolls that choose a dust streak's shape.
pub const DUST_ROLL_SIDES: u8 = 10;

/// Shape of one streak of dust kicked up by the exhaust.
#[derive(Clone, Copy, PartialEq, Eq, Debug, Structural)]
pub enum DustStreak {
    /// Low spray along the ground, in either direction.
    Spray,
    /// Steep kick-up with sideways drift.
    Lofted,
    /// A rise that bends along the surface.
    Billow,
}

/// The streak shape chosen by a roll: rolls 0–3 spray, 4–6 loft, the rest
/// billow.
pub open spec fn spec_streak_for_roll(roll: u8) -> DustStreak {
    if roll < 4 {
        DustStreak::Spray
    } else if roll < 7 {
        DustStreak::Lofted
    } else {
        DustStreak::Billow
    }
}

/// Rolls below 4 spray, rolls 4 to 6 loft, and rolls from 7 on billow: of
/// the ten rolls, four spray, three loft and three billow.
pub proof fn lemma_streak_thresholds(roll: u8)
    ensures
        roll < 4 ==> spec_streak_for_roll(roll) == DustStreak::Spray,
        4 <= roll < 7 ==> spec_streak_for_roll(roll) == DustStreak::Lofted,
        7 <= roll ==> spec_streak_for_roll(roll) == DustStreak::Billow,
{
}

/// The streak shape chosen by a roll.
pub fn streak_for_roll(roll: u8) -> (streak: DustStreak)
    ensures
        streak == spec_streak_for_roll(roll),
        roll < 4 ==> streak == DustStreak::Spray,
        4 <= roll < 7 ==> streak == DustStreak::Lofted,
        7 <= roll ==> streak == DustStreak::Billow,
{
    if roll < 4 {
        DustStreak::Spray
    } else if roll < 7 {
        DustStreak::Lofted
    } else {
        DustStreak::Billow
    }
}

/// Calls `rand::Rng::gen_range(0..sides)` on the thread generator: a
/// uniformly drawn integer below `sides`. Only the range of the result is
/// claimed.
#[verifier::external_body]
fn roll_below(rng: &mut ThreadRng, sides: u8) -> (roll: u8)
    requires
        0 < sides,
    ensures
        roll < sides,
{
    rng.gen_range(0u8..sides)
}

/// Draws the shape of the next dust streak from the thread generator. The
/// shape is the one that some roll in `0..10` chooses.
pub fn roll_dust_streak(rng: &mut ThreadRng) -> (streak: DustStreak)
    ensures
        exists|roll: u8| roll < DUST_ROLL_SIDES && streak == spec_streak_for_roll(roll),
{
    let roll = roll_below(rng, DUST_ROLL_SIDES);
    let streak = streak_for_roll(roll);
    assert(roll < DUST_ROLL_SIDES && streak == spec_streak_for_roll(roll));
    streak
}

} // verus!
