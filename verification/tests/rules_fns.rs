use solmentor::errors::ErrorCode;
use solmentor::rules::{level_for_xp, next_streak, quiz_xp};
use solmentor::tier::AchievementTier;

#[test]
fn quiz_xp_rewards_ten_per_point() {
    assert_eq!(quiz_xp(0, 5), 0);
    assert_eq!(quiz_xp(3, 5), 30);
    assert_eq!(quiz_xp(8, 10), 80);
}

#[test]
fn quiz_xp_perfect_score_bonus() {
    assert_eq!(quiz_xp(10, 10), 150);
    assert_eq!(quiz_xp(5, 5), 100);
    assert_eq!(quiz_xp(255, 255), 2600);
}

#[test]
fn quiz_xp_zero_of_zero_counts_as_perfect() {
    assert_eq!(quiz_xp(0, 0), 50);
}

#[test]
fn level_is_xp_over_hundred_plus_one() {
    assert_eq!(level_for_xp(0), 1);
    assert_eq!(level_for_xp(99), 1);
    assert_eq!(level_for_xp(100), 2);
    assert_eq!(level_for_xp(230), 3);
    assert_eq!(level_for_xp(430), 5);
    assert_eq!(level_for_xp(u64::MAX), u64::MAX / 100 + 1);
}

#[test]
fn next_streak_increments_within_window() {
    assert_eq!(next_streak(0, 0, 100), Some(1));
    assert_eq!(next_streak(4, 1000, 1000 + 86400), Some(5));
}

#[test]
fn next_streak_resets_after_window() {
    assert_eq!(next_streak(4, 1000, 1000 + 86401), Some(1));
    assert_eq!(next_streak(100, 0, 1_000_000_000), Some(1));
}

#[test]
fn next_streak_overflow_is_reported() {
    assert_eq!(next_streak(u64::MAX, 0, 100), None);
    // The reset branch never overflows.
    assert_eq!(next_streak(u64::MAX, 0, 100_000_000), Some(1));
}

#[test]
fn tier_bonus_table() {
    assert_eq!(AchievementTier::Bronze.bonus_xp(), 50);
    assert_eq!(AchievementTier::Silver.bonus_xp(), 100);
    assert_eq!(AchievementTier::Gold.bonus_xp(), 200);
    assert_eq!(AchievementTier::Platinum.bonus_xp(), 500);
}

#[test]
fn tier_names() {
    assert_eq!(AchievementTier::Bronze.tier_name(), "Bronze");
    assert_eq!(AchievementTier::Silver.tier_name(), "Silver");
    assert_eq!(AchievementTier::Gold.tier_name(), "Gold");
    assert_eq!(AchievementTier::Platinum.tier_name(), "Platinum");
}

#[test]
fn invalid_score_message() {
    assert_eq!(
        ErrorCode::InvalidScore.message(),
        "Invalid score: score cannot exceed total questions"
    );
}
