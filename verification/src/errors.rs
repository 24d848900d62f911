//! Failure taxonomy of the ledger operations.

use vstd::prelude::*;

verus! {

/// The domain errors: conditions that the reward rules themselves
/// reject.  There is exactly one.
#[derive(Clone, Copy, PartialEq, Eq, Structural, Debug)]
pub enum ErrorCode {
    /// A quiz score exceeded the number of questions.
    InvalidScore,
}

impl ErrorCode {
    /// A human-readable account of the error.
    pub fn message(&self) -> (m: String)
        ensures
            m@ == "Invalid score: score cannot exceed total questions"@,
    {
        "Invalid score: score cannot exceed total questions".to_owned()
    }
}

/// Everything a ledger operation can fail with: the domain error, or a
/// host-level failure (missing or duplicate record key, oversized text
/// field, counter overflow).  Any failure leaves the ledger unchanged.
#[derive(Clone, Copy, PartialEq, Eq, Structural, Debug)]
pub enum LedgerError {
    /// A rule of the reward engine rejected the call.
    Domain(ErrorCode),
    /// The target user has no profile.
    ProfileNotFound,
    /// A record with the same key already exists: a re-initialized
    /// profile, a re-submitted quiz, or a re-granted achievement.
    AlreadyExists,
    /// A text field exceeded its bound.
    FieldTooLong,
    /// A profile counter would no longer fit in its machine word.
    CounterOverflow,
}

} // verus!
