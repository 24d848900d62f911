//! Laws that relate several ledger operations: what a repeated record
//! key does to the audit trail, and how the streak evolves over
//! consecutive check-ins.

use vstd::prelude::*;

use crate::errors::{ErrorCode, LedgerError};
use crate::ledger::{
    award_achievement_post, spec_award_updated_profile, spec_quiz_updated_profile,
    spec_streak_updated_profile, submit_quiz_post, update_streak_post, Ledger,
};
use crate::records::{UserProfile, MAX_ACHIEVEMENT_NAME_CHARS};
use crate::rules::{spec_level, spec_next_streak, spec_quiz_xp, STREAK_WINDOW_SECONDS};
use crate::tier::{spec_tier_bonus, AchievementTier};

verus! {

/// Rewriting the profile of `authority` in place leaves it the profile
/// found under that key, at the same position.
proof fn lemma_profile_update_lookup(
    pre: Ledger,
    post: Ledger,
    authority: u64,
    updated: UserProfile,
)
    requires
        pre.wf(),
        pre.has_profile(authority),
        updated.authority == authority,
        post.profiles@ == pre.profiles@.update(pre.profile_index(authority), updated),
    ensures
        post.has_profile(authority),
        post.profile_index(authority) == pre.profile_index(authority),
        post.profile_at(authority) == updated,
{
    let idx = pre.profile_index(authority);
    assert(0 <= idx < pre.profiles@.len() && pre.profiles@[idx].authority == authority);
    assert(post.profiles@[idx] == updated);
    assert(post.has_profile(authority));
    let k = post.profile_index(authority);
    assert(0 <= k < post.profiles@.len() && post.profiles@[k].authority == authority);
    if k != idx {
        assert(post.profiles@[k] == pre.profiles@[k]);
        assert(pre.profiles@[k].authority != pre.profiles@[idx].authority);
        assert(false);
    }
}

/// A successful quiz submission pays out exactly the reward formula —
/// `score * 10`, plus a flat 50 when the score equals the question
/// count — both as the returned value and as the profile's XP delta,
/// and leaves the stored level rederived from the new XP total by
/// floor division.
pub proof fn lemma_quiz_reward_and_level(
    l0: Ledger,
    l1: Ledger,
    authority: u64,
    quiz_id: String,
    score: u8,
    total_questions: u8,
    now: i64,
    r: Result<u64, LedgerError>,
)
    requires
        l0.wf(),
        submit_quiz_post(l0, l1, authority, quiz_id, score, total_questions, now, r),
        r is Ok,
    ensures
        r == Ok::<u64, LedgerError>(spec_quiz_xp(score, total_questions) as u64),
        l1.has_profile(authority),
        l1.profile_at(authority).xp == l0.profile_at(authority).xp + spec_quiz_xp(
            score,
            total_questions,
        ),
        l1.profile_at(authority).level == spec_level(l1.profile_at(authority).xp),
        l1.profile_at(authority).quizzes_completed == l0.profile_at(
            authority,
        ).quizzes_completed + 1,
{
    let p0 = l0.profile_at(authority);
    lemma_profile_update_lookup(
        l0,
        l1,
        authority,
        spec_quiz_updated_profile(p0, score, total_questions, now),
    );
}

/// A quiz submission whose score exceeds the question count fails with
/// the domain error `InvalidScore` and changes nothing.
pub proof fn lemma_invalid_score_rejected(
    l0: Ledger,
    l1: Ledger,
    authority: u64,
    quiz_id: String,
    score: u8,
    total_questions: u8,
    now: i64,
    r: Result<u64, LedgerError>,
)
    requires
        submit_quiz_post(l0, l1, authority, quiz_id, score, total_questions, now, r),
        score > total_questions,
    ensures
        r == Err::<u64, LedgerError>(LedgerError::Domain(ErrorCode::InvalidScore)),
        l1 == l0,
{
}

/// A successful achievement grant credits exactly the tier's bonus XP
/// — Bronze 50, Silver 100, Gold 200, Platinum 500 — counts the grant,
/// and leaves the level, streak and activity time untouched.
pub proof fn lemma_award_bonus_exact(
    l0: Ledger,
    l1: Ledger,
    authority: u64,
    achievement_id: String,
    achievement_name: String,
    achievement_tier: AchievementTier,
    now: i64,
    r: Result<(), LedgerError>,
)
    requires
        l0.wf(),
        award_achievement_post(
            l0,
            l1,
            authority,
            achievement_id,
            achievement_name,
            achievement_tier,
            now,
            r,
        ),
        r is Ok,
    ensures
        l1.has_profile(authority),
        l1.profile_at(authority).xp == l0.profile_at(authority).xp + spec_tier_bonus(
            achievement_tier,
        ),
        l1.profile_at(authority).achievements_earned == l0.profile_at(
            authority,
        ).achievements_earned + 1,
        l1.profile_at(authority).level == l0.profile_at(authority).level,
        l1.profile_at(authority).streak == l0.profile_at(authority).streak,
        l1.profile_at(authority).last_active == l0.profile_at(authority).last_active,
{
    lemma_profile_update_lookup(
        l0,
        l1,
        authority,
        spec_award_updated_profile(l0.profile_at(authority), achievement_tier),
    );
}

/// Two streak updates at most `STREAK_WINDOW_SECONDS` apart, the first
/// itself within the window of the profile's last activity, each
/// lengthen the streak by one.
pub proof fn lemma_streak_increments_within_window(
    l0: Ledger,
    l1: Ledger,
    l2: Ledger,
    authority: u64,
    t1: i64,
    t2: i64,
    r1: Result<u64, LedgerError>,
    r2: Result<u64, LedgerError>,
)
    requires
        l0.wf(),
        l1.wf(),
        l0.has_profile(authority),
        update_streak_post(l0, l1, authority, t1, r1),
        update_streak_post(l1, l2, authority, t2, r2),
        t1 - l0.profile_at(authority).last_active <= STREAK_WINDOW_SECONDS,
        t2 - t1 <= STREAK_WINDOW_SECONDS,
        l0.profile_at(authority).streak + 2 <= u64::MAX,
    ensures
        r1 == Ok::<u64, LedgerError>((l0.profile_at(authority).streak + 1) as u64),
        r2 == Ok::<u64, LedgerError>((l0.profile_at(authority).streak + 2) as u64),
        l2.has_profile(authority),
        l2.profile_at(authority).streak == l0.profile_at(authority).streak + 2,
{
    let p0 = l0.profile_at(authority);
    assert(spec_next_streak(p0.streak, p0.last_active, t1) == p0.streak + 1);
    let u1 = spec_streak_updated_profile(p0, t1);
    lemma_profile_update_lookup(l0, l1, authority, u1);
    assert(spec_next_streak(u1.streak, u1.last_active, t2) == p0.streak + 2);
    let u2 = spec_streak_updated_profile(u1, t2);
    lemma_profile_update_lookup(l1, l2, authority, u2);
}

/// A streak update after a gap longer than `STREAK_WINDOW_SECONDS`
/// resets the streak to 1.
pub proof fn lemma_streak_resets_after_gap(
    l0: Ledger,
    l1: Ledger,
    authority: u64,
    now: i64,
    r: Result<u64, LedgerError>,
)
    requires
        l0.wf(),
        l0.has_profile(authority),
        update_streak_post(l0, l1, authority, now, r),
        now - l0.profile_at(authority).last_active > STREAK_WINDOW_SECONDS,
    ensures
        r == Ok::<u64, LedgerError>(1u64),
        l1.has_profile(authority),
        l1.profile_at(authority).streak == 1,
{
    let p0 = l0.profile_at(authority);
    assert(spec_next_streak(p0.streak, p0.last_active, now) == 1);
    lemma_profile_update_lookup(l0, l1, authority, spec_streak_updated_profile(p0, now));
}

/// Re-submitting a quiz a user has already completed is rejected, the
/// ledger is left as it was, and the original attempt record — score,
/// question count and reward of the first submission — still stands
/// under the key.
pub proof fn lemma_resubmit_rejected(
    l0: Ledger,
    l1: Ledger,
    l2: Ledger,
    authority: u64,
    quiz_id1: String,
    quiz_id2: String,
    score1: u8,
    total1: u8,
    score2: u8,
    total2: u8,
    t1: i64,
    t2: i64,
    r1: Result<u64, LedgerError>,
    r2: Result<u64, LedgerError>,
)
    requires
        l0.wf(),
        l1.wf(),
        submit_quiz_post(l0, l1, authority, quiz_id1, score1, total1, t1, r1),
        r1 is Ok,
        submit_quiz_post(l1, l2, authority, quiz_id2, score2, total2, t2, r2),
        quiz_id2@ == quiz_id1@,
        score2 <= total2,
    ensures
        r2 == Err::<u64, LedgerError>(LedgerError::AlreadyExists),
        l2 == l1,
        l2.has_attempt(authority, quiz_id1@),
        l2.attempt_at(authority, quiz_id1@).score == score1,
        l2.attempt_at(authority, quiz_id1@).total_questions == total1,
        l2.attempt_at(authority, quiz_id1@).xp_earned == spec_quiz_xp(score1, total1),
{
    let p0 = l0.profile_at(authority);
    let u1 = spec_quiz_updated_profile(p0, score1, total1, t1);
    lemma_profile_update_lookup(l0, l1, authority, u1);
    let n = l0.quiz_results@.len() as int;
    assert(l1.quiz_results@[n].user == authority && l1.quiz_results@[n].quiz_id@ == quiz_id1@);
    assert(l1.has_attempt(authority, quiz_id1@));
    let k = choose|k: int|
        0 <= k < l1.quiz_results@.len() && l1.quiz_results@[k].user == authority
            && l1.quiz_results@[k].quiz_id@ == quiz_id1@;
    if k < n {
        assert(l0.quiz_results@[k] == l1.quiz_results@[k]);
        assert(l0.has_attempt(authority, quiz_id1@));
        assert(false);
    }
    assert(l1.attempt_at(authority, quiz_id1@) == l1.quiz_results@[n]);
}

/// Granting a user an achievement they already hold is rejected, the
/// ledger is left as it was, and the earned-achievements counter keeps
/// the single increment of the first grant.
pub proof fn lemma_regrant_rejected(
    l0: Ledger,
    l1: Ledger,
    l2: Ledger,
    authority: u64,
    id1: String,
    id2: String,
    name1: String,
    name2: String,
    tier1: AchievementTier,
    tier2: AchievementTier,
    t1: i64,
    t2: i64,
    r2: Result<(), LedgerError>,
)
    requires
        l0.wf(),
        l1.wf(),
        award_achievement_post(l0, l1, authority, id1, name1, tier1, t1, Ok::<(), LedgerError>(())),
        award_achievement_post(l1, l2, authority, id2, name2, tier2, t2, r2),
        id2@ == id1@,
        name2@.len() <= MAX_ACHIEVEMENT_NAME_CHARS,
    ensures
        r2 == Err::<(), LedgerError>(LedgerError::AlreadyExists),
        l2 == l1,
        l2.has_profile(authority),
        l2.profile_at(authority).achievements_earned == l0.profile_at(
            authority,
        ).achievements_earned + 1,
        l2.profile_at(authority).xp == l0.profile_at(authority).xp + spec_tier_bonus(tier1),
        l2.profile_at(authority).level == l0.profile_at(authority).level,
{
    let p0 = l0.profile_at(authority);
    let u1 = spec_award_updated_profile(p0, tier1);
    lemma_profile_update_lookup(l0, l1, authority, u1);
    let n = l0.achievements@.len() as int;
    assert(l1.achievements@[n].user == authority && l1.achievements@[n].achievement_id@ == id1@);
    assert(l1.has_achievement(authority, id2@));
}

} // verus!
