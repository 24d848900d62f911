//! The three record types the ledger persists: the mutable per-user
//! profile, and the append-only quiz-attempt and achievement records.

use vstd::prelude::*;

use crate::rules::{spec_level, spec_quiz_xp};
use crate::tier::AchievementTier;

verus! {

/// Bound on a profile's display name, in characters.
pub const MAX_USERNAME_CHARS: usize = 32;

/// Bound on a quiz identifier, in characters.
pub const MAX_QUIZ_ID_CHARS: usize = 64;

/// Bound on an achievement identifier, in characters.
pub const MAX_ACHIEVEMENT_ID_CHARS: usize = 64;

/// Bound on an achievement's display name, in characters.
pub const MAX_ACHIEVEMENT_NAME_CHARS: usize = 128;

/// One user's progression record.  `authority` is the opaque identity
/// of the controlling user and, with `username`, is immutable after
/// creation; the counters only ever grow, except `streak`, which the
/// streak rule may reset to 1.
#[derive(PartialEq, Eq, Debug)]
pub struct UserProfile {
    pub authority: u64,
    pub username: String,
    pub xp: u64,
    pub level: u64,
    pub streak: u64,
    pub quizzes_completed: u64,
    pub achievements_earned: u64,
    pub created_at: i64,
    pub last_active: i64,
}

impl UserProfile {
    /// Well-formedness: the display name is within its bound, the
    /// profile was never active before it was created, and the stored
    /// level is at least 1 and never ahead of the level derived from
    /// the XP total — it can lag behind it, because an achievement
    /// grant credits XP without rederiving the level.
    pub open spec fn wf(self) -> bool {
        &&& self.username@.len() <= MAX_USERNAME_CHARS
        &&& self.created_at <= self.last_active
        &&& 1 <= self.level <= spec_level(self.xp)
    }
}

/// An immutable record of one graded quiz attempt, keyed by
/// (`user`, `quiz_id`): a user may submit a given quiz at most once.
#[derive(PartialEq, Eq, Debug)]
pub struct QuizResult {
    pub user: u64,
    pub quiz_id: String,
    pub score: u8,
    pub total_questions: u8,
    pub xp_earned: u64,
    pub completed_at: i64,
}

impl QuizResult {
    /// Well-formedness: the identifier is within its bound, the score
    /// never exceeds the question count, and the stored reward is
    /// exactly what the reward formula gave at submission time.
    pub open spec fn wf(self) -> bool {
        &&& self.quiz_id@.len() <= MAX_QUIZ_ID_CHARS
        &&& self.score <= self.total_questions
        &&& self.xp_earned == spec_quiz_xp(self.score, self.total_questions)
    }
}

/// An immutable record of one achievement grant, keyed by
/// (`user`, `achievement_id`): granted to a user at most once.
#[derive(PartialEq, Eq, Debug)]
pub struct Achievement {
    pub user: u64,
    pub achievement_id: String,
    pub achievement_name: String,
    pub tier: AchievementTier,
    pub awarded_at: i64,
}

impl Achievement {
    /// Well-formedness: both text fields are within their bounds.
    pub open spec fn wf(self) -> bool {
        &&& self.achievement_id@.len() <= MAX_ACHIEVEMENT_ID_CHARS
        &&& self.achievement_name@.len() <= MAX_ACHIEVEMENT_NAME_CHARS
    }
}

} // verus!
