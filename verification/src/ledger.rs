//! The ledger: an in-memory model of the host's keyed record store,
//! with the four operations of the progression engine.

use vstd::prelude::*;
use vstd::string::StrSliceExecFns;

use crate::errors::{ErrorCode, LedgerError};
use crate::records::{
    Achievement, QuizResult, UserProfile, MAX_ACHIEVEMENT_ID_CHARS, MAX_ACHIEVEMENT_NAME_CHARS,
    MAX_QUIZ_ID_CHARS, MAX_USERNAME_CHARS,
};
use crate::rules::{
    level_for_xp, next_streak, quiz_xp, spec_level, spec_next_streak, spec_quiz_xp,
};
use crate::tier::{spec_tier_bonus, AchievementTier};

verus! {

/// The records the host keeps: one profile per user, and the
/// append-only audit trails of quiz attempts and achievement grants.
pub struct Ledger {
    pub profiles: Vec<UserProfile>,
    pub quiz_results: Vec<QuizResult>,
    pub achievements: Vec<Achievement>,
}

/// The profile a fresh initialization writes: zeroed counters, level 1,
/// both timestamps set to the time of the call.
pub open spec fn spec_new_profile(authority: u64, username: String, now: i64) -> UserProfile {
    UserProfile {
        authority,
        username,
        xp: 0,
        level: 1,
        streak: 0,
        quizzes_completed: 0,
        achievements_earned: 0,
        created_at: now,
        last_active: now,
    }
}

/// The profile after one application of the streak rule at `now`: the
/// streak recomputed against the previous `last_active`, which is then
/// overwritten with `now`; every other field kept.
pub open spec fn spec_streak_updated_profile(p: UserProfile, now: i64) -> UserProfile {
    UserProfile {
        authority: p.authority,
        username: p.username,
        xp: p.xp,
        level: p.level,
        streak: spec_next_streak(p.streak, p.last_active, now) as u64,
        quizzes_completed: p.quizzes_completed,
        achievements_earned: p.achievements_earned,
        created_at: p.created_at,
        last_active: now,
    }
}

/// Exactly what `initialize_profile` does: an oversized display name is
/// rejected, a second initialization for the same authority is rejected,
/// and otherwise a zeroed profile is appended; every failure leaves the
/// ledger untouched.
pub open spec fn initialize_profile_post(
    pre: Ledger,
    post: Ledger,
    authority: u64,
    username: String,
    now: i64,
    r: Result<(), LedgerError>,
) -> bool {
    if username@.len() > MAX_USERNAME_CHARS {
        r == Err::<(), LedgerError>(LedgerError::FieldTooLong) && post == pre
    } else if pre.has_profile(authority) {
        r == Err::<(), LedgerError>(LedgerError::AlreadyExists) && post == pre
    } else {
        &&& r == Ok::<(), LedgerError>(())
        &&& post.profiles@ == pre.profiles@.push(spec_new_profile(authority, username, now))
        &&& post.quiz_results@ == pre.quiz_results@
        &&& post.achievements@ == pre.achievements@
    }
}

/// Exactly what `update_streak` does: the streak rule applied to the
/// caller's profile against its previous `last_active`, which is then
/// set to `now`; a missing profile or an overflowing counter fails and
/// leaves the ledger untouched.
pub open spec fn update_streak_post(
    pre: Ledger,
    post: Ledger,
    authority: u64,
    now: i64,
    r: Result<u64, LedgerError>,
) -> bool {
    if !pre.has_profile(authority) {
        r == Err::<u64, LedgerError>(LedgerError::ProfileNotFound) && post == pre
    } else {
        let p = pre.profile_at(authority);
        if spec_next_streak(p.streak, p.last_active, now) > u64::MAX {
            r == Err::<u64, LedgerError>(LedgerError::CounterOverflow) && post == pre
        } else {
            let updated = spec_streak_updated_profile(p, now);
            &&& r == Ok::<u64, LedgerError>(updated.streak)
            &&& post.profiles@ == pre.profiles@.update(pre.profile_index(authority), updated)
            &&& post.quiz_results@ == pre.quiz_results@
            &&& post.achievements@ == pre.achievements@
        }
    }
}

/// The profile after a successful quiz submission at `now`: the reward
/// added to `xp`, one more completed quiz, the streak recomputed against
/// the previous `last_active` (captured before it is overwritten with
/// `now`), and the level rederived from the new `xp`.
pub open spec fn spec_quiz_updated_profile(
    p: UserProfile,
    score: u8,
    total_questions: u8,
    now: i64,
) -> UserProfile {
    UserProfile {
        authority: p.authority,
        username: p.username,
        xp: (p.xp + spec_quiz_xp(score, total_questions)) as u64,
        level: spec_level((p.xp + spec_quiz_xp(score, total_questions)) as u64) as u64,
        streak: spec_next_streak(p.streak, p.last_active, now) as u64,
        quizzes_completed: (p.quizzes_completed + 1) as u64,
        achievements_earned: p.achievements_earned,
        created_at: p.created_at,
        last_active: now,
    }
}

/// A quiz submission would push some profile counter past its machine
/// word: the XP total, the completed-quiz count, or the streak.
pub open spec fn spec_quiz_overflow(
    p: UserProfile,
    score: u8,
    total_questions: u8,
    now: i64,
) -> bool {
    ||| p.xp + spec_quiz_xp(score, total_questions) > u64::MAX
    ||| p.quizzes_completed + 1 > u64::MAX
    ||| spec_next_streak(p.streak, p.last_active, now) > u64::MAX
}

/// Exactly what `submit_quiz` does.  In order: a score above the
/// question count is the domain error `InvalidScore`; then a missing
/// profile, an oversized quiz identifier, a repeated (user, quiz) key
/// and a counter overflow fail at the host level.  Every failure leaves
/// the ledger untouched.  Success returns the earned XP, rewrites the
/// profile as [`spec_quiz_updated_profile`] says, and appends one
/// immutable attempt record.
pub open spec fn submit_quiz_post(
    pre: Ledger,
    post: Ledger,
    authority: u64,
    quiz_id: String,
    score: u8,
    total_questions: u8,
    now: i64,
    r: Result<u64, LedgerError>,
) -> bool {
    if score > total_questions {
        r == Err::<u64, LedgerError>(LedgerError::Domain(ErrorCode::InvalidScore)) && post == pre
    } else if !pre.has_profile(authority) {
        r == Err::<u64, LedgerError>(LedgerError::ProfileNotFound) && post == pre
    } else if quiz_id@.len() > MAX_QUIZ_ID_CHARS {
        r == Err::<u64, LedgerError>(LedgerError::FieldTooLong) && post == pre
    } else if pre.has_attempt(authority, quiz_id@) {
        r == Err::<u64, LedgerError>(LedgerError::AlreadyExists) && post == pre
    } else if spec_quiz_overflow(pre.profile_at(authority), score, total_questions, now) {
        r == Err::<u64, LedgerError>(LedgerError::CounterOverflow) && post == pre
    } else {
        let p = pre.profile_at(authority);
        let earned = spec_quiz_xp(score, total_questions);
        &&& r == Ok::<u64, LedgerError>(earned as u64)
        &&& post.profiles@ == pre.profiles@.update(
            pre.profile_index(authority),
            spec_quiz_updated_profile(p, score, total_questions, now),
        )
        &&& post.quiz_results@ == pre.quiz_results@.push(
            QuizResult {
                user: authority,
                quiz_id,
                score,
                total_questions,
                xp_earned: earned as u64,
                completed_at: now,
            },
        )
        &&& post.achievements@ == pre.achievements@
    }
}

/// The profile after an achievement grant: the tier bonus added to
/// `xp`, one more earned achievement, and — deliberately — the level
/// left as it was rather than rederived from the new `xp`; the streak
/// and `last_active` are not touched either.
pub open spec fn spec_award_updated_profile(p: UserProfile, tier: AchievementTier) -> UserProfile {
    UserProfile {
        authority: p.authority,
        username: p.username,
        xp: (p.xp + spec_tier_bonus(tier)) as u64,
        level: p.level,
        streak: p.streak,
        quizzes_completed: p.quizzes_completed,
        achievements_earned: (p.achievements_earned + 1) as u64,
        created_at: p.created_at,
        last_active: p.last_active,
    }
}

/// An achievement grant would push the XP total or the earned count
/// past its machine word.
pub open spec fn spec_award_overflow(p: UserProfile, tier: AchievementTier) -> bool {
    ||| p.xp + spec_tier_bonus(tier) > u64::MAX
    ||| p.achievements_earned + 1 > u64::MAX
}

/// Exactly what `award_achievement` does.  In order: a missing profile,
/// an oversized identifier or name, a repeated (user, achievement) key
/// and a counter overflow fail at the host level and leave the ledger
/// untouched.  Success rewrites the profile as
/// [`spec_award_updated_profile`] says — the level deliberately not
/// rederived — and appends one immutable achievement record.
pub open spec fn award_achievement_post(
    pre: Ledger,
    post: Ledger,
    authority: u64,
    achievement_id: String,
    achievement_name: String,
    achievement_tier: AchievementTier,
    now: i64,
    r: Result<(), LedgerError>,
) -> bool {
    if !pre.has_profile(authority) {
        r == Err::<(), LedgerError>(LedgerError::ProfileNotFound) && post == pre
    } else if achievement_id@.len() > MAX_ACHIEVEMENT_ID_CHARS {
        r == Err::<(), LedgerError>(LedgerError::FieldTooLong) && post == pre
    } else if achievement_name@.len() > MAX_ACHIEVEMENT_NAME_CHARS {
        r == Err::<(), LedgerError>(LedgerError::FieldTooLong) && post == pre
    } else if pre.has_achievement(authority, achievement_id@) {
        r == Err::<(), LedgerError>(LedgerError::AlreadyExists) && post == pre
    } else if spec_award_overflow(pre.profile_at(authority), achievement_tier) {
        r == Err::<(), LedgerError>(LedgerError::CounterOverflow) && post == pre
    } else {
        &&& r == Ok::<(), LedgerError>(())
        &&& post.profiles@ == pre.profiles@.update(
            pre.profile_index(authority),
            spec_award_updated_profile(pre.profile_at(authority), achievement_tier),
        )
        &&& post.quiz_results@ == pre.quiz_results@
        &&& post.achievements@ == pre.achievements@.push(
            Achievement {
                user: authority,
                achievement_id,
                achievement_name,
                tier: achievement_tier,
                awarded_at: now,
            },
        )
    }
}

impl Ledger {
    /// There is a profile whose authority is `authority`.
    pub open spec fn has_profile(self, authority: u64) -> bool {
        exists|i: int|
            0 <= i < self.profiles@.len() && self.profiles@[i].authority == authority
    }

    /// The position of the profile keyed by `authority`.
    pub open spec fn profile_index(self, authority: u64) -> int {
        choose|i: int|
            0 <= i < self.profiles@.len() && self.profiles@[i].authority == authority
    }

    /// The profile keyed by `authority`.
    pub open spec fn profile_at(self, authority: u64) -> UserProfile {
        self.profiles@[self.profile_index(authority)]
    }

    /// There is an attempt record keyed by (`user`, `quiz_id`).
    pub open spec fn has_attempt(self, user: u64, quiz_id: Seq<char>) -> bool {
        exists|i: int|
            0 <= i < self.quiz_results@.len() && self.quiz_results@[i].user == user
                && self.quiz_results@[i].quiz_id@ == quiz_id
    }

    /// The attempt record keyed by (`user`, `quiz_id`).
    pub open spec fn attempt_at(self, user: u64, quiz_id: Seq<char>) -> QuizResult {
        self.quiz_results@[choose|i: int|
            0 <= i < self.quiz_results@.len() && self.quiz_results@[i].user == user
                && self.quiz_results@[i].quiz_id@ == quiz_id]
    }

    /// There is an achievement record keyed by (`user`, `achievement_id`).
    pub open spec fn has_achievement(self, user: u64, achievement_id: Seq<char>) -> bool {
        exists|i: int|
            0 <= i < self.achievements@.len() && self.achievements@[i].user == user
                && self.achievements@[i].achievement_id@ == achievement_id
    }

    /// The achievement record keyed by (`user`, `achievement_id`).
    pub open spec fn achievement_at(self, user: u64, achievement_id: Seq<char>) -> Achievement {
        self.achievements@[choose|i: int|
            0 <= i < self.achievements@.len() && self.achievements@[i].user == user
                && self.achievements@[i].achievement_id@ == achievement_id]
    }

    /// Well-formedness of the whole store: every record is well formed,
    /// and record keys are unique — one profile per authority, one
    /// attempt per (user, quiz), one grant per (user, achievement).
    pub open spec fn wf(self) -> bool {
        &&& forall|i: int| 0 <= i < self.profiles@.len() ==> (#[trigger] self.profiles@[i]).wf()
        &&& forall|i: int, j: int|
            0 <= i < self.profiles@.len() && 0 <= j < self.profiles@.len() && i != j
                ==> self.profiles@[i].authority != self.profiles@[j].authority
        &&& forall|i: int|
            0 <= i < self.quiz_results@.len() ==> (#[trigger] self.quiz_results@[i]).wf()
        &&& forall|i: int, j: int|
            0 <= i < self.quiz_results@.len() && 0 <= j < self.quiz_results@.len() && i != j
                ==> !(self.quiz_results@[i].user == self.quiz_results@[j].user
                    && self.quiz_results@[i].quiz_id@ == self.quiz_results@[j].quiz_id@)
        &&& forall|i: int|
            0 <= i < self.achievements@.len() ==> (#[trigger] self.achievements@[i]).wf()
        &&& forall|i: int, j: int|
            0 <= i < self.achievements@.len() && 0 <= j < self.achievements@.len() && i != j
                ==> !(self.achievements@[i].user == self.achievements@[j].user
                    && self.achievements@[i].achievement_id@
                        == self.achievements@[j].achievement_id@)
    }

    /// Linear search for the profile keyed by `authority`.
    fn find_profile(&self, authority: u64) -> (r: Option<usize>)
        requires
            self.wf(),
        ensures
            match r {
                Some(i) => self.has_profile(authority) && i == self.profile_index(authority)
                    && i < self.profiles@.len()
                    && self.profiles@[i as int] == self.profile_at(authority),
                None => !self.has_profile(authority),
            },
    {
        let n = self.profiles.len();
        let mut i: usize = 0;
        while i < n
            invariant
                self.wf(),
                n == self.profiles@.len(),
                i <= n,
                forall|j: int| 0 <= j < i ==> self.profiles@[j].authority != authority,
            decreases n - i,
        {
            if self.profiles[i].authority == authority {
                proof {
                    assert(self.profiles@[i as int].authority == authority);
                    let k = self.profile_index(authority);
                    assert(0 <= k < self.profiles@.len()
                        && self.profiles@[k].authority == authority);
                    assert(k == i as int);
                }
                return Some(i);
            }
            i = i + 1;
        }
        None
    }

    /// Linear search for the attempt record keyed by (`user`, `quiz_id`).
    fn find_attempt(&self, user: u64, quiz_id: &String) -> (r: Option<usize>)
        requires
            self.wf(),
        ensures
            match r {
                Some(i) => self.has_attempt(user, quiz_id@) && i < self.quiz_results@.len()
                    && self.quiz_results@[i as int] == self.attempt_at(user, quiz_id@),
                None => !self.has_attempt(user, quiz_id@),
            },
    {
        let n = self.quiz_results.len();
        let mut i: usize = 0;
        while i < n
            invariant
                self.wf(),
                n == self.quiz_results@.len(),
                i <= n,
                forall|j: int|
                    0 <= j < i ==> !(self.quiz_results@[j].user == user
                        && self.quiz_results@[j].quiz_id@ == quiz_id@),
            decreases n - i,
        {
            let record = &self.quiz_results[i];
            if record.user == user && record.quiz_id == *quiz_id {
                proof {
                    assert(self.quiz_results@[i as int].user == user
                        && self.quiz_results@[i as int].quiz_id@ == quiz_id@);
                    let k = choose|k: int|
                        0 <= k < self.quiz_results@.len() && self.quiz_results@[k].user == user
                            && self.quiz_results@[k].quiz_id@ == quiz_id@;
                    assert(k == i as int);
                }
                return Some(i);
            }
            i = i + 1;
        }
        None
    }

    /// Linear search for the achievement record keyed by
    /// (`user`, `achievement_id`).
    fn find_achievement(&self, user: u64, achievement_id: &String) -> (r: Option<usize>)
        requires
            self.wf(),
        ensures
            match r {
                Some(i) => self.has_achievement(user, achievement_id@)
                    && i < self.achievements@.len()
                    && self.achievements@[i as int] == self.achievement_at(user, achievement_id@),
                None => !self.has_achievement(user, achievement_id@),
            },
    {
        let n = self.achievements.len();
        let mut i: usize = 0;
        while i < n
            invariant
                self.wf(),
                n == self.achievements@.len(),
                i <= n,
                forall|j: int|
                    0 <= j < i ==> !(self.achievements@[j].user == user
                        && self.achievements@[j].achievement_id@ == achievement_id@),
            decreases n - i,
        {
            let record = &self.achievements[i];
            if record.user == user && record.achievement_id == *achievement_id {
                proof {
                    assert(self.achievements@[i as int].user == user
                        && self.achievements@[i as int].achievement_id@ == achievement_id@);
                    let k = choose|k: int|
                        0 <= k < self.achievements@.len() && self.achievements@[k].user == user
                            && self.achievements@[k].achievement_id@ == achievement_id@;
                    assert(k == i as int);
                }
                return Some(i);
            }
            i = i + 1;
        }
        None
    }

    /// An empty store: no profiles, no records.
    pub fn new() -> (ledger: Ledger)
        ensures
            ledger.wf(),
            ledger.profiles@.len() == 0,
            ledger.quiz_results@.len() == 0,
            ledger.achievements@.len() == 0,
    {
        Ledger { profiles: Vec::new(), quiz_results: Vec::new(), achievements: Vec::new() }
    }

    /// Creates the progression record for a new user: zeroed counters,
    /// level 1, both timestamps set to `now`.  Fails when a profile for
    /// this authority already exists or the display name is over its
    /// bound, and then changes nothing.
    pub fn initialize_profile(
        &mut self,
        authority: u64,
        username: String,
        now: i64,
    ) -> (r: Result<(), LedgerError>)
        requires
            old(self).wf(),
        ensures
            final(self).wf(),
            initialize_profile_post(*old(self), *final(self), authority, username, now, r),
    {
        if username.as_str().unicode_len() > MAX_USERNAME_CHARS {
            return Err(LedgerError::FieldTooLong);
        }
        match self.find_profile(authority) {
            Some(_) => {
                return Err(LedgerError::AlreadyExists);
            },
            None => {},
        }
        let profile = UserProfile {
            authority,
            username,
            xp: 0,
            level: 1,
            streak: 0,
            quizzes_completed: 0,
            achievements_earned: 0,
            created_at: now,
            last_active: now,
        };
        self.profiles.push(profile);
        Ok(())
    }

    /// Recomputes the caller's activity streak independently of any
    /// quiz: one more than before when the last activity was at most
    /// `STREAK_WINDOW_SECONDS` ago, else back to 1; then marks the
    /// profile active at `now`.  Returns the new streak.  Fails when
    /// the profile is missing or the counter would overflow, and then
    /// changes nothing.
    pub fn update_streak(&mut self, authority: u64, now: i64) -> (r: Result<u64, LedgerError>)
        requires
            old(self).wf(),
            old(self).has_profile(authority) ==> now >= old(self).profile_at(
                authority,
            ).created_at,
        ensures
            final(self).wf(),
            update_streak_post(*old(self), *final(self), authority, now, r),
    {
        let i = match self.find_profile(authority) {
            Some(i) => i,
            None => {
                return Err(LedgerError::ProfileNotFound);
            },
        };
        let current_streak = self.profiles[i].streak;
        let last_active = self.profiles[i].last_active;
        let new_streak = match next_streak(current_streak, last_active, now) {
            Some(s) => s,
            None => {
                return Err(LedgerError::CounterOverflow);
            },
        };
        let p = &mut self.profiles[i];
        p.streak = new_streak;
        p.last_active = now;
        Ok(new_streak)
    }

    /// Grades one quiz attempt for the caller and pays out the reward:
    /// validates the score, adds `score * 10` XP plus a flat 50 for a
    /// perfect score, counts the quiz, recomputes the streak against
    /// the previous `last_active`, rederives the level from the new XP
    /// total, and appends the immutable attempt record keyed by
    /// (`authority`, `quiz_id`).  Returns the earned XP.  Any failure —
    /// invalid score, missing profile, oversized identifier, repeated
    /// quiz, counter overflow — changes nothing.
    pub fn submit_quiz(
        &mut self,
        authority: u64,
        quiz_id: String,
        score: u8,
        total_questions: u8,
        now: i64,
    ) -> (r: Result<u64, LedgerError>)
        requires
            old(self).wf(),
            old(self).has_profile(authority) ==> now >= old(self).profile_at(
                authority,
            ).created_at,
        ensures
            final(self).wf(),
            submit_quiz_post(
                *old(self),
                *final(self),
                authority,
                quiz_id,
                score,
                total_questions,
                now,
                r,
            ),
    {
        if score > total_questions {
            return Err(LedgerError::Domain(ErrorCode::InvalidScore));
        }
        let i = match self.find_profile(authority) {
            Some(i) => i,
            None => {
                return Err(LedgerError::ProfileNotFound);
            },
        };
        if quiz_id.as_str().unicode_len() > MAX_QUIZ_ID_CHARS {
            return Err(LedgerError::FieldTooLong);
        }
        match self.find_attempt(authority, &quiz_id) {
            Some(_) => {
                return Err(LedgerError::AlreadyExists);
            },
            None => {},
        }
        let xp_earned = quiz_xp(score, total_questions);
        let old_xp = self.profiles[i].xp;
        let old_completed = self.profiles[i].quizzes_completed;
        let old_streak = self.profiles[i].streak;
        let prev_last_active = self.profiles[i].last_active;
        if old_xp > u64::MAX - xp_earned {
            return Err(LedgerError::CounterOverflow);
        }
        if old_completed == u64::MAX {
            return Err(LedgerError::CounterOverflow);
        }
        let new_streak = match next_streak(old_streak, prev_last_active, now) {
            Some(s) => s,
            None => {
                return Err(LedgerError::CounterOverflow);
            },
        };
        let new_xp = old_xp + xp_earned;
        let new_level = level_for_xp(new_xp);
        let p = &mut self.profiles[i];
        p.xp = new_xp;
        p.quizzes_completed = old_completed + 1;
        p.streak = new_streak;
        p.last_active = now;
        p.level = new_level;
        self.quiz_results.push(
            QuizResult {
                user: authority,
                quiz_id,
                score,
                total_questions,
                xp_earned,
                completed_at: now,
            },
        );
        Ok(xp_earned)
    }

    /// Grants a named achievement at a tier: appends the immutable
    /// achievement record keyed by (`authority`, `achievement_id`),
    /// counts it, and credits the tier's bonus XP to the profile —
    /// deliberately without rederiving the level, and without touching
    /// the streak or `last_active`.  Any failure — missing profile,
    /// oversized field, repeated achievement, counter overflow —
    /// changes nothing.
    pub fn award_achievement(
        &mut self,
        authority: u64,
        achievement_id: String,
        achievement_name: String,
        achievement_tier: AchievementTier,
        now: i64,
    ) -> (r: Result<(), LedgerError>)
        requires
            old(self).wf(),
        ensures
            final(self).wf(),
            award_achievement_post(
                *old(self),
                *final(self),
                authority,
                achievement_id,
                achievement_name,
                achievement_tier,
                now,
                r,
            ),
    {
        let i = match self.find_profile(authority) {
            Some(i) => i,
            None => {
                return Err(LedgerError::ProfileNotFound);
            },
        };
        if achievement_id.as_str().unicode_len() > MAX_ACHIEVEMENT_ID_CHARS {
            return Err(LedgerError::FieldTooLong);
        }
        if achievement_name.as_str().unicode_len() > MAX_ACHIEVEMENT_NAME_CHARS {
            return Err(LedgerError::FieldTooLong);
        }
        match self.find_achievement(authority, &achievement_id) {
            Some(_) => {
                return Err(LedgerError::AlreadyExists);
            },
            None => {},
        }
        let bonus_xp = achievement_tier.bonus_xp();
        let old_xp = self.profiles[i].xp;
        let old_earned = self.profiles[i].achievements_earned;
        if old_xp > u64::MAX - bonus_xp {
            return Err(LedgerError::CounterOverflow);
        }
        if old_earned == u64::MAX {
            return Err(LedgerError::CounterOverflow);
        }
        let p = &mut self.profiles[i];
        p.xp = old_xp + bonus_xp;
        p.achievements_earned = old_earned + 1;
        self.achievements.push(
            Achievement {
                user: authority,
                achievement_id,
                achievement_name,
                tier: achievement_tier,
                awarded_at: now,
            },
        );
        Ok(())
    }

    /// Reads the profile keyed by `authority`, if any.
    pub fn get_profile(&self, authority: u64) -> (r: Option<&UserProfile>)
        requires
            self.wf(),
        ensures
            match r {
                Some(p) => self.has_profile(authority) && *p == self.profile_at(authority),
                None => !self.has_profile(authority),
            },
    {
        match self.find_profile(authority) {
            Some(i) => Some(&self.profiles[i]),
            None => None,
        }
    }

    /// Reads the attempt record keyed by (`user`, `quiz_id`), if any.
    pub fn get_quiz_result(&self, user: u64, quiz_id: &String) -> (r: Option<&QuizResult>)
        requires
            self.wf(),
        ensures
            match r {
                Some(q) => self.has_attempt(user, quiz_id@) && *q == self.attempt_at(
                    user,
                    quiz_id@,
                ),
                None => !self.has_attempt(user, quiz_id@),
            },
    {
        match self.find_attempt(user, quiz_id) {
            Some(i) => Some(&self.quiz_results[i]),
            None => None,
        }
    }

    /// Reads the achievement record keyed by (`user`, `achievement_id`),
    /// if any.
    pub fn get_achievement(&self, user: u64, achievement_id: &String) -> (r: Option<&Achievement>)
        requires
            self.wf(),
        ensures
            match r {
                Some(a) => self.has_achievement(user, achievement_id@) && *a
                    == self.achievement_at(user, achievement_id@),
                None => !self.has_achievement(user, achievement_id@),
            },
    {
        match self.find_achievement(user, achievement_id) {
            Some(i) => Some(&self.achievements[i]),
            None => None,
        }
    }
}

} // verus!
