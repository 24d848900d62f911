//! Achievement tiers and their fixed XP bonuses.

use vstd::prelude::*;

verus! {

/// The closed set of achievement ranks.  Each tier carries a fixed XP
/// bonus, credited to the profile when an achievement is granted.
#[derive(Clone, Copy, PartialEq, Eq, Structural, Debug)]
pub enum AchievementTier {
    Bronze,
    Silver,
    Gold,
    Platinum,
}

/// The bonus XP table: Bronze 50, Silver 100, Gold 200, Platinum 500.
pub open spec fn spec_tier_bonus(tier: AchievementTier) -> int {
    match tier {
        AchievementTier::Bronze => 50,
        AchievementTier::Silver => 100,
        AchievementTier::Gold => 200,
        AchievementTier::Platinum => 500,
    }
}

impl AchievementTier {
    /// The tier's name as it reads to a user.
    pub open spec fn spec_name(self) -> Seq<char> {
        match self {
            AchievementTier::Bronze => "Bronze"@,
            AchievementTier::Silver => "Silver"@,
            AchievementTier::Gold => "Gold"@,
            AchievementTier::Platinum => "Platinum"@,
        }
    }

    /// Looks up the tier's bonus XP.
    pub fn bonus_xp(&self) -> (bonus: u64)
        ensures
            bonus == spec_tier_bonus(*self),
    {
        match self {
            AchievementTier::Bronze => 50,
            AchievementTier::Silver => 100,
            AchievementTier::Gold => 200,
            AchievementTier::Platinum => 500,
        }
    }

    /// The tier's display name.
    pub fn tier_name(&self) -> (name: String)
        ensures
            name@ == self.spec_name(),
    {
        match self {
            AchievementTier::Bronze => "Bronze".to_owned(),
            AchievementTier::Silver => "Silver".to_owned(),
            AchievementTier::Gold => "Gold".to_owned(),
            AchievementTier::Platinum => "Platinum".to_owned(),
        }
    }
}

} // verus!
