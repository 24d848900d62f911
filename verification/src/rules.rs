//! The reward formulas: quiz XP, level derivation, and the streak rule.

use vstd::prelude::*;

verus! {

/// XP granted for each point of quiz score.
pub const XP_PER_CORRECT_ANSWER: u64 = 10;

/// Flat bonus XP granted when the score equals the question count.
pub const PERFECT_SCORE_BONUS: u64 = 50;

/// XP per level: a profile at `xp` points sits at level `xp / 100 + 1`.
pub const XP_PER_LEVEL: u64 = 100;

/// Two activities at most this many seconds apart continue a streak;
/// a longer gap resets it.
pub const STREAK_WINDOW_SECONDS: i64 = 86400;

/// Reward for a quiz attempt: 10 XP per point of score, plus a flat
/// 50 XP bonus whenever the score equals the number of questions.
/// The degenerate 0-of-0 attempt counts as perfect and earns the bonus.
pub open spec fn spec_quiz_xp(score: u8, total_questions: u8) -> int {
    score * XP_PER_CORRECT_ANSWER + if score == total_questions {
        PERFECT_SCORE_BONUS as int
    } else {
        0
    }
}

/// The level derived from an XP total, by floor division.
pub open spec fn spec_level(xp: u64) -> int {
    xp as int / XP_PER_LEVEL as int + 1
}

/// The streak counter after an activity at `now`, given the counter and
/// the time of the previous activity: one more than before when the gap
/// is within the window, else back to 1.
pub open spec fn spec_next_streak(streak: u64, last_active: i64, now: i64) -> int {
    if now - last_active <= STREAK_WINDOW_SECONDS {
        streak + 1
    } else {
        1
    }
}

/// Computes the reward for a quiz attempt.
pub fn quiz_xp(score: u8, total_questions: u8) -> (xp: u64)
    ensures
        xp == spec_quiz_xp(score, total_questions),
{
    let base = (score as u64) * XP_PER_CORRECT_ANSWER;
    if score == total_questions {
        base + PERFECT_SCORE_BONUS
    } else {
        base
    }
}

/// Computes the level derived from an XP total.
pub fn level_for_xp(xp: u64) -> (level: u64)
    ensures
        level == spec_level(xp),
{
    xp / XP_PER_LEVEL + 1
}

/// Applies the streak rule to a counter, returning `None` when the
/// incremented counter would not fit in its machine word.
pub fn next_streak(streak: u64, last_active: i64, now: i64) -> (next: Option<u64>)
    ensures
        match next {
            Some(s) => s == spec_next_streak(streak, last_active, now),
            None => spec_next_streak(streak, last_active, now) > u64::MAX,
        },
{
    let elapsed: i128 = (now as i128) - (last_active as i128);
    if elapsed <= STREAK_WINDOW_SECONDS as i128 {
        if streak == u64::MAX {
            None
        } else {
            Some(streak + 1)
        }
    } else {
        Some(1)
    }
}

} // verus!
