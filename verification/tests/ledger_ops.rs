use solmentor::errors::{ErrorCode, LedgerError};
use solmentor::ledger::Ledger;
use solmentor::records::UserProfile;
use solmentor::tier::AchievementTier;

const ALICE: u64 = 7;

fn profile_with(authority: u64, xp: u64, streak: u64, achievements_earned: u64) -> UserProfile {
    UserProfile {
        authority,
        username: String::from("someone"),
        xp,
        level: xp / 100 + 1,
        streak,
        quizzes_completed: 0,
        achievements_earned,
        created_at: 0,
        last_active: 0,
    }
}

#[test]
fn initialize_profile_zeroes_counters() {
    let mut l = Ledger::new();
    assert_eq!(l.initialize_profile(ALICE, String::from("alice"), 1000), Ok(()));
    let p = l.get_profile(ALICE).unwrap();
    assert_eq!(p.username, "alice");
    assert_eq!(p.xp, 0);
    assert_eq!(p.level, 1);
    assert_eq!(p.streak, 0);
    assert_eq!(p.quizzes_completed, 0);
    assert_eq!(p.achievements_earned, 0);
    assert_eq!(p.created_at, 1000);
    assert_eq!(p.last_active, 1000);
}

#[test]
fn initialize_profile_twice_rejected() {
    let mut l = Ledger::new();
    assert_eq!(l.initialize_profile(ALICE, String::from("alice"), 1000), Ok(()));
    assert_eq!(
        l.initialize_profile(ALICE, String::from("alice2"), 2000),
        Err(LedgerError::AlreadyExists)
    );
    assert_eq!(l.get_profile(ALICE).unwrap().username, "alice");
}

#[test]
fn initialize_profile_username_too_long() {
    let mut l = Ledger::new();
    let long = "x".repeat(33);
    assert_eq!(l.initialize_profile(ALICE, long, 1000), Err(LedgerError::FieldTooLong));
    assert!(l.get_profile(ALICE).is_none());
    assert_eq!(l.initialize_profile(ALICE, "y".repeat(32), 1000), Ok(()));
}

#[test]
fn scenario_progression() {
    let mut l = Ledger::new();
    assert_eq!(l.initialize_profile(ALICE, String::from("alice"), 1000), Ok(()));
    {
        let p = l.get_profile(ALICE).unwrap();
        assert_eq!((p.xp, p.level, p.streak), (0, 1, 0));
    }

    assert_eq!(l.submit_quiz(ALICE, String::from("q1"), 8, 10, 2000), Ok(80));
    {
        let p = l.get_profile(ALICE).unwrap();
        assert_eq!(p.xp, 80);
        assert_eq!(p.level, 1);
        assert_eq!(p.quizzes_completed, 1);
    }

    assert_eq!(l.submit_quiz(ALICE, String::from("q2"), 10, 10, 3000), Ok(150));
    {
        let p = l.get_profile(ALICE).unwrap();
        assert_eq!(p.xp, 230);
        assert_eq!(p.level, 3);
        assert_eq!(p.quizzes_completed, 2);
    }

    assert_eq!(
        l.award_achievement(
            ALICE,
            String::from("first_perfect"),
            String::from("First Perfect Score"),
            AchievementTier::Gold,
            4000,
        ),
        Ok(())
    );
    {
        let p = l.get_profile(ALICE).unwrap();
        assert_eq!(p.xp, 430);
        assert_eq!(p.achievements_earned, 1);
        // The award deliberately leaves the level as it was.
        assert_eq!(p.level, 3);
    }

    // The next graded quiz rederives the level from the full XP total.
    assert_eq!(l.submit_quiz(ALICE, String::from("q3"), 0, 10, 5000), Ok(0));
    assert_eq!(l.get_profile(ALICE).unwrap().level, 5);
}

#[test]
fn submit_quiz_invalid_score_changes_nothing() {
    let mut l = Ledger::new();
    assert_eq!(l.initialize_profile(ALICE, String::from("alice"), 1000), Ok(()));
    assert_eq!(
        l.submit_quiz(ALICE, String::from("q1"), 11, 10, 2000),
        Err(LedgerError::Domain(ErrorCode::InvalidScore))
    );
    let p = l.get_profile(ALICE).unwrap();
    assert_eq!(p.xp, 0);
    assert_eq!(p.quizzes_completed, 0);
    assert_eq!(p.last_active, 1000);
    assert!(l.get_quiz_result(ALICE, &String::from("q1")).is_none());
}

#[test]
fn submit_quiz_zero_of_zero_accepted_as_perfect() {
    let mut l = Ledger::new();
    assert_eq!(l.initialize_profile(ALICE, String::from("alice"), 1000), Ok(()));
    assert_eq!(l.submit_quiz(ALICE, String::from("q0"), 0, 0, 2000), Ok(50));
    assert_eq!(l.get_profile(ALICE).unwrap().xp, 50);
}

#[test]
fn submit_quiz_records_attempt() {
    let mut l = Ledger::new();
    assert_eq!(l.initialize_profile(ALICE, String::from("alice"), 1000), Ok(()));
    assert_eq!(l.submit_quiz(ALICE, String::from("q1"), 8, 10, 2000), Ok(80));
    let q = l.get_quiz_result(ALICE, &String::from("q1")).unwrap();
    assert_eq!(q.user, ALICE);
    assert_eq!(q.quiz_id, "q1");
    assert_eq!(q.score, 8);
    assert_eq!(q.total_questions, 10);
    assert_eq!(q.xp_earned, 80);
    assert_eq!(q.completed_at, 2000);
}

#[test]
fn resubmitting_same_quiz_rejected_and_record_kept() {
    let mut l = Ledger::new();
    assert_eq!(l.initialize_profile(ALICE, String::from("alice"), 1000), Ok(()));
    assert_eq!(l.submit_quiz(ALICE, String::from("q1"), 8, 10, 2000), Ok(80));
    assert_eq!(
        l.submit_quiz(ALICE, String::from("q1"), 10, 10, 3000),
        Err(LedgerError::AlreadyExists)
    );
    let q = l.get_quiz_result(ALICE, &String::from("q1")).unwrap();
    assert_eq!(q.score, 8);
    assert_eq!(q.xp_earned, 80);
    assert_eq!(q.completed_at, 2000);
    let p = l.get_profile(ALICE).unwrap();
    assert_eq!(p.xp, 80);
    assert_eq!(p.quizzes_completed, 1);
    // Another user may still submit the same quiz identifier.
    let bob: u64 = 8;
    assert_eq!(l.initialize_profile(bob, String::from("bob"), 1000), Ok(()));
    assert_eq!(l.submit_quiz(bob, String::from("q1"), 10, 10, 3000), Ok(150));
}

#[test]
fn submit_quiz_errors_without_profile_or_with_long_id() {
    let mut l = Ledger::new();
    assert_eq!(
        l.submit_quiz(ALICE, String::from("q1"), 8, 10, 2000),
        Err(LedgerError::ProfileNotFound)
    );
    assert_eq!(l.initialize_profile(ALICE, String::from("alice"), 1000), Ok(()));
    assert_eq!(
        l.submit_quiz(ALICE, "q".repeat(65), 8, 10, 2000),
        Err(LedgerError::FieldTooLong)
    );
    assert_eq!(l.submit_quiz(ALICE, "q".repeat(64), 8, 10, 2000), Ok(80));
}

#[test]
fn award_achievement_bonus_per_tier_and_level_untouched() {
    let tiers = [
        (AchievementTier::Bronze, 50),
        (AchievementTier::Silver, 100),
        (AchievementTier::Gold, 200),
        (AchievementTier::Platinum, 500),
    ];
    for (tier, bonus) in tiers {
        let mut l = Ledger::new();
        assert_eq!(l.initialize_profile(ALICE, String::from("alice"), 1000), Ok(()));
        assert_eq!(l.submit_quiz(ALICE, String::from("q1"), 9, 10, 2000), Ok(90));
        let before = {
            let p = l.get_profile(ALICE).unwrap();
            (p.xp, p.level, p.streak, p.last_active)
        };
        assert_eq!(
            l.award_achievement(
                ALICE,
                String::from("ach"),
                String::from("An Achievement"),
                tier,
                3000,
            ),
            Ok(())
        );
        let p = l.get_profile(ALICE).unwrap();
        assert_eq!(p.xp, before.0 + bonus);
        assert_eq!(p.level, before.1);
        assert_eq!(p.streak, before.2);
        assert_eq!(p.last_active, before.3);
        assert_eq!(p.achievements_earned, 1);
    }
}

#[test]
fn award_achievement_records_grant() {
    let mut l = Ledger::new();
    assert_eq!(l.initialize_profile(ALICE, String::from("alice"), 1000), Ok(()));
    assert_eq!(
        l.award_achievement(
            ALICE,
            String::from("streak_7"),
            String::from("Seven Day Streak"),
            AchievementTier::Silver,
            2000,
        ),
        Ok(())
    );
    let a = l.get_achievement(ALICE, &String::from("streak_7")).unwrap();
    assert_eq!(a.user, ALICE);
    assert_eq!(a.achievement_id, "streak_7");
    assert_eq!(a.achievement_name, "Seven Day Streak");
    assert_eq!(a.tier, AchievementTier::Silver);
    assert_eq!(a.awarded_at, 2000);
}

#[test]
fn regranting_same_achievement_rejected() {
    let mut l = Ledger::new();
    assert_eq!(l.initialize_profile(ALICE, String::from("alice"), 1000), Ok(()));
    assert_eq!(
        l.award_achievement(
            ALICE,
            String::from("first"),
            String::from("First"),
            AchievementTier::Bronze,
            2000,
        ),
        Ok(())
    );
    assert_eq!(
        l.award_achievement(
            ALICE,
            String::from("first"),
            String::from("First Again"),
            AchievementTier::Platinum,
            3000,
        ),
        Err(LedgerError::AlreadyExists)
    );
    let p = l.get_profile(ALICE).unwrap();
    assert_eq!(p.achievements_earned, 1);
    assert_eq!(p.xp, 50);
    let a = l.get_achievement(ALICE, &String::from("first")).unwrap();
    assert_eq!(a.achievement_name, "First");
    assert_eq!(a.tier, AchievementTier::Bronze);
}

#[test]
fn award_achievement_errors_without_profile_or_with_long_fields() {
    let mut l = Ledger::new();
    assert_eq!(
        l.award_achievement(
            ALICE,
            String::from("a"),
            String::from("A"),
            AchievementTier::Bronze,
            1000,
        ),
        Err(LedgerError::ProfileNotFound)
    );
    assert_eq!(l.initialize_profile(ALICE, String::from("alice"), 1000), Ok(()));
    assert_eq!(
        l.award_achievement(ALICE, "i".repeat(65), String::from("A"), AchievementTier::Gold, 2000),
        Err(LedgerError::FieldTooLong)
    );
    assert_eq!(
        l.award_achievement(ALICE, String::from("a"), "n".repeat(129), AchievementTier::Gold, 2000),
        Err(LedgerError::FieldTooLong)
    );
    assert_eq!(
        l.award_achievement(ALICE, "i".repeat(64), "n".repeat(128), AchievementTier::Gold, 2000),
        Ok(())
    );
}

#[test]
fn update_streak_within_window_increments_each_time() {
    let mut l = Ledger::new();
    assert_eq!(l.initialize_profile(ALICE, String::from("alice"), 1000), Ok(()));
    assert_eq!(l.update_streak(ALICE, 2000), Ok(1));
    assert_eq!(l.update_streak(ALICE, 2000 + 86400), Ok(2));
    let p = l.get_profile(ALICE).unwrap();
    assert_eq!(p.streak, 2);
    assert_eq!(p.last_active, 2000 + 86400);
}

#[test]
fn update_streak_after_gap_resets_to_one() {
    let mut l = Ledger::new();
    assert_eq!(l.initialize_profile(ALICE, String::from("alice"), 1000), Ok(()));
    assert_eq!(l.update_streak(ALICE, 2000), Ok(1));
    assert_eq!(l.update_streak(ALICE, 3000), Ok(2));
    assert_eq!(l.update_streak(ALICE, 3000 + 86401), Ok(1));
    assert_eq!(l.get_profile(ALICE).unwrap().streak, 1);
}

#[test]
fn update_streak_without_profile_rejected() {
    let mut l = Ledger::new();
    assert_eq!(l.update_streak(ALICE, 2000), Err(LedgerError::ProfileNotFound));
}

#[test]
fn submit_quiz_streak_compares_against_prior_activity() {
    let mut l = Ledger::new();
    assert_eq!(l.initialize_profile(ALICE, String::from("alice"), 1000), Ok(()));
    assert_eq!(l.update_streak(ALICE, 2000), Ok(1));
    assert_eq!(l.update_streak(ALICE, 3000), Ok(2));
    // A graded quiz long after the last activity resets the streak too.
    assert_eq!(l.submit_quiz(ALICE, String::from("q1"), 5, 10, 3000 + 100_000), Ok(50));
    let p = l.get_profile(ALICE).unwrap();
    assert_eq!(p.streak, 1);
    assert_eq!(p.last_active, 3000 + 100_000);
}

#[test]
fn submit_quiz_counter_overflow_changes_nothing() {
    let mut l = Ledger {
        profiles: vec![profile_with(ALICE, u64::MAX - 10, 0, 0)],
        quiz_results: vec![],
        achievements: vec![],
    };
    assert_eq!(
        l.submit_quiz(ALICE, String::from("q1"), 5, 10, 2000),
        Err(LedgerError::CounterOverflow)
    );
    assert_eq!(l.get_profile(ALICE).unwrap().xp, u64::MAX - 10);
    assert!(l.get_quiz_result(ALICE, &String::from("q1")).is_none());
}

#[test]
fn update_streak_counter_overflow_changes_nothing() {
    let mut l = Ledger {
        profiles: vec![profile_with(ALICE, 0, u64::MAX, 0)],
        quiz_results: vec![],
        achievements: vec![],
    };
    assert_eq!(l.update_streak(ALICE, 2000), Err(LedgerError::CounterOverflow));
    assert_eq!(l.get_profile(ALICE).unwrap().streak, u64::MAX);
    // After a long gap the reset branch applies and cannot overflow.
    assert_eq!(l.update_streak(ALICE, 100_000), Ok(1));
}

#[test]
fn award_achievement_counter_overflow_changes_nothing() {
    let mut l = Ledger {
        profiles: vec![profile_with(ALICE, u64::MAX - 20, 0, 3)],
        quiz_results: vec![],
        achievements: vec![],
    };
    assert_eq!(
        l.award_achievement(
            ALICE,
            String::from("a"),
            String::from("A"),
            AchievementTier::Bronze,
            2000,
        ),
        Err(LedgerError::CounterOverflow)
    );
    let p = l.get_profile(ALICE).unwrap();
    assert_eq!(p.xp, u64::MAX - 20);
    assert_eq!(p.achievements_earned, 3);
    assert!(l.get_achievement(ALICE, &String::from("a")).is_none());
}

#[test]
fn empty_ledger_has_no_records() {
    let l = Ledger::new();
    assert!(l.get_profile(ALICE).is_none());
    assert!(l.get_quiz_result(ALICE, &String::from("q")).is_none());
    assert!(l.get_achievement(ALICE, &String::from("a")).is_none());
}
