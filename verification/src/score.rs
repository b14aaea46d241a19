use vstd::prelude::*;

verus! {

/// Points for a perfect soft landing with full tanks.
pub const MAX_LANDING_SCORE: u32 = 10_000;

/// Share of [`MAX_LANDING_SCORE`] earned by the fuel left in the tanks.
pub const MAX_FUEL_SCORE: u32 = 5_000;

/// Share of [`MAX_LANDING_SCORE`] earned by the softness of the touchdown.
pub const MAX_SOFT_SCORE: u32 = 5_000;

/// Score of a landing: a fuel part, a softness part and their sum.
#[derive(Clone, Copy, Debug, PartialEq, Eq, Structural)]
pub struct LandingScore {
    pub total: u32,
    pub fuel: u32,
    pub soft: u32,
}

impl LandingScore {
    /// The score held while flying or after a crash.
    pub open spec fn zero() -> LandingScore {
        LandingScore { total: 0, fuel: 0, soft: 0 }
    }

    /// The total is the sum of the two parts, each within its share.
    pub open spec fn is_consistent(self) -> bool {
        &&& self.total == self.fuel + self.soft
        &&& self.fuel <= MAX_FUEL_SCORE
        &&& self.soft <= MAX_SOFT_SCORE
    }

    /// Assembles a score from its fuel points and softness points.
    pub fn from_parts(fuel: u32, soft: u32) -> (score: LandingScore)
        requires
            fuel <= MAX_FUEL_SCORE,
            soft <= MAX_SOFT_SCORE,
        ensures
            score == (LandingScore { total: (fuel + soft) as u32, fuel, soft }),
            score.is_consistent(),
            score.total <= MAX_LANDING_SCORE,
    {
        LandingScore { total: fuel + soft, fuel, soft }
    }
}

impl Default for LandingScore {
    fn default() -> (score: LandingScore)
        ensures
            score == LandingScore::zero(),
    {
        LandingScore { total: 0, fuel: 0, soft: 0 }
    }
}

/// The two shares add up to the maximum score, so a score is at most
/// [`MAX_LANDING_SCORE`] exactly when it is consistent.
pub proof fn lemma_consistent_score_is_bounded(score: LandingScore)
    requires
        score.is_consistent(),
    ensures
        score.total <= MAX_LANDING_SCORE,
        score.fuel == MAX_FUEL_SCORE && score.soft == MAX_SOFT_SCORE ==> score.total
            == MAX_LANDING_SCORE,
{
}

} // verus!
