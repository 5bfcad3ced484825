//! Reasons for which an operation is rejected.

use vstd::prelude::*;

verus! {

/// Why an operation was rejected. A rejected operation changes nothing.
#[derive(Clone, Copy, Debug, PartialEq, Eq, Structural)]
pub enum MvoteError {
    /// Daily purchase limit exceeded (100 mVote max).
    DailyLimitExceeded,
    /// Insufficient SOL balance.
    InsufficientFunds,
    /// Insufficient mVote token balance.
    InsufficientTokens,
    /// Question must be 1-280 characters.
    InvalidQuestionLength,
    /// Must have 2-4 voting options.
    InvalidOptionCount,
    /// Option text must be 1-100 characters.
    InvalidOptionLength,
    /// Duration must be 10-1440 minutes.
    InvalidDuration,
    /// Poll has not started yet.
    PollNotStarted,
    /// Poll has expired.
    PollExpired,
    /// Poll is not active.
    PollNotActive,
    /// Already voted on this poll.
    AlreadyVoted,
    /// Invalid option index.
    InvalidOption,
    /// Minimum 1 mVote required to vote.
    MinimumVoteRequired,
    /// Only poll creator can perform this action.
    Unauthorized,
    /// Arithmetic overflow.
    Overflow,
    /// Invalid amount.
    InvalidAmount,
    /// A record already exists at the address where one was to be created.
    AlreadyInitialized,
    /// A record or its nonce does not match the address derived from its key.
    AddressMismatch,
}

/// First reason code; the variants are numbered upwards from it in the
/// order in which they are declared.
pub const ERROR_CODE_OFFSET: u32 = 6000;

impl MvoteError {
    /// Position of the variant in the declaration, counted from zero.
    pub open spec fn ordinal(self) -> nat {
        match self {
            MvoteError::DailyLimitExceeded => 0,
            MvoteError::InsufficientFunds => 1,
            MvoteError::InsufficientTokens => 2,
            MvoteError::InvalidQuestionLength => 3,
            MvoteError::InvalidOptionCount => 4,
            MvoteError::InvalidOptionLength => 5,
            MvoteError::InvalidDuration => 6,
            MvoteError::PollNotStarted => 7,
            MvoteError::PollExpired => 8,
            MvoteError::PollNotActive => 9,
            MvoteError::AlreadyVoted => 10,
            MvoteError::InvalidOption => 11,
            MvoteError::MinimumVoteRequired => 12,
            MvoteError::Unauthorized => 13,
            MvoteError::Overflow => 14,
            MvoteError::InvalidAmount => 15,
            MvoteError::AlreadyInitialized => 16,
            MvoteError::AddressMismatch => 17,
        }
    }

    /// The reason code reported to the caller.
    pub fn code(&self) -> (c: u32)
        ensures
            c == ERROR_CODE_OFFSET + self.ordinal(),
    {
        let index: u32 = match self {
            MvoteError::DailyLimitExceeded => 0,
            MvoteError::InsufficientFunds => 1,
            MvoteError::InsufficientTokens => 2,
            MvoteError::InvalidQuestionLength => 3,
            MvoteError::InvalidOptionCount => 4,
            MvoteError::InvalidOptionLength => 5,
            MvoteError::InvalidDuration => 6,
            MvoteError::PollNotStarted => 7,
            MvoteError::PollExpired => 8,
            MvoteError::PollNotActive => 9,
            MvoteError::AlreadyVoted => 10,
            MvoteError::InvalidOption => 11,
            MvoteError::MinimumVoteRequired => 12,
            MvoteError::Unauthorized => 13,
            MvoteError::Overflow => 14,
            MvoteError::InvalidAmount => 15,
            MvoteError::AlreadyInitialized => 16,
            MvoteError::AddressMismatch => 17,
        };
        ERROR_CODE_OFFSET + index
    }

    /// The message text of the variant.
    pub open spec fn message_text(self) -> Seq<char> {
        match self {
            MvoteError::DailyLimitExceeded => "Daily purchase limit exceeded (100 mVote max)"@,
            MvoteError::InsufficientFunds => "Insufficient SOL balance"@,
            MvoteError::InsufficientTokens => "Insufficient mVote token balance"@,
            MvoteError::InvalidQuestionLength => "Question must be 1-280 characters"@,
            MvoteError::InvalidOptionCount => "Must have 2-4 voting options"@,
            MvoteError::InvalidOptionLength => "Option text must be 1-100 characters"@,
            MvoteError::InvalidDuration => "Duration must be 10-1440 minutes"@,
            MvoteError::PollNotStarted => "Poll has not started yet"@,
            MvoteError::PollExpired => "Poll has expired"@,
            MvoteError::PollNotActive => "Poll is not active"@,
            MvoteError::AlreadyVoted => "Already voted on this poll"@,
            MvoteError::InvalidOption => "Invalid option index"@,
            MvoteError::MinimumVoteRequired => "Minimum 1 mVote required to vote"@,
            MvoteError::Unauthorized => "Only poll creator can perform this action"@,
            MvoteError::Overflow => "Arithmetic overflow"@,
            MvoteError::InvalidAmount => "Invalid amount"@,
            MvoteError::AlreadyInitialized => "Record already exists at this address"@,
            MvoteError::AddressMismatch => "Record is not at its derived address"@,
        }
    }

    /// A message for the person who reads the rejection.
    pub fn message(&self) -> (m: &'static str)
        ensures
            m@ == self.message_text(),
    {
        match self {
            MvoteError::DailyLimitExceeded => "Daily purchase limit exceeded (100 mVote max)",
            MvoteError::InsufficientFunds => "Insufficient SOL balance",
            MvoteError::InsufficientTokens => "Insufficient mVote token balance",
            MvoteError::InvalidQuestionLength => "Question must be 1-280 characters",
            MvoteError::InvalidOptionCount => "Must have 2-4 voting options",
            MvoteError::InvalidOptionLength => "Option text must be 1-100 characters",
            MvoteError::InvalidDuration => "Duration must be 10-1440 minutes",
            MvoteError::PollNotStarted => "Poll has not started yet",
            MvoteError::PollExpired => "Poll has expired",
            MvoteError::PollNotActive => "Poll is not active",
            MvoteError::AlreadyVoted => "Already voted on this poll",
            MvoteError::InvalidOption => "Invalid option index",
            MvoteError::MinimumVoteRequired => "Minimum 1 mVote required to vote",
            MvoteError::Unauthorized => "Only poll creator can perform this action",
            MvoteError::Overflow => "Arithmetic overflow",
            MvoteError::InvalidAmount => "Invalid amount",
            MvoteError::AlreadyInitialized => "Record already exists at this address",
            MvoteError::AddressMismatch => "Record is not at its derived address",
        }
    }
}

} // verus!
