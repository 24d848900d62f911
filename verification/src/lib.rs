//! A user progression and rewards ledger for an educational quiz
//! application.
//!
//! The crate tracks, per user, experience points (XP), the level derived
//! from them, an activity streak, and counters of completed quizzes and
//! earned achievements, and it keeps immutable records of every quiz
//! attempt and achievement grant.  Four operations drive the state
//! machine: [`ledger::Ledger::initialize_profile`],
//! [`ledger::Ledger::submit_quiz`],
//! [`ledger::Ledger::award_achievement`] and
//! [`ledger::Ledger::update_streak`].  The reward formulas themselves
//! live in [`rules`] and [`tier`].

pub mod errors;
pub mod laws;
pub mod ledger;
pub mod records;
pub mod rules;
pub mod tier;
