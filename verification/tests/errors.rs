use mvote::errors::{MvoteError, ERROR_CODE_OFFSET};

#[test]
fn reason_codes_count_up_from_the_offset() {
    assert_eq!(ERROR_CODE_OFFSET, 6000);
    assert_eq!(MvoteError::DailyLimitExceeded.code(), 6000);
    assert_eq!(MvoteError::InsufficientFunds.code(), 6001);
    assert_eq!(MvoteError::InsufficientTokens.code(), 6002);
    assert_eq!(MvoteError::InvalidQuestionLength.code(), 6003);
    assert_eq!(MvoteError::InvalidOptionCount.code(), 6004);
    assert_eq!(MvoteError::InvalidOptionLength.code(), 6005);
    assert_eq!(MvoteError::InvalidDuration.code(), 6006);
    assert_eq!(MvoteError::PollNotStarted.code(), 6007);
    assert_eq!(MvoteError::PollExpired.code(), 6008);
    assert_eq!(MvoteError::PollNotActive.code(), 6009);
    assert_eq!(MvoteError::AlreadyVoted.code(), 6010);
    assert_eq!(MvoteError::InvalidOption.code(), 6011);
    assert_eq!(MvoteError::MinimumVoteRequired.code(), 6012);
    assert_eq!(MvoteError::Unauthorized.code(), 6013);
    assert_eq!(MvoteError::Overflow.code(), 6014);
    assert_eq!(MvoteError::InvalidAmount.code(), 6015);
    assert_eq!(MvoteError::AlreadyInitialized.code(), 6016);
    assert_eq!(MvoteError::AddressMismatch.code(), 6017);
}

#[test]
fn messages_name_the_reason() {
    assert_eq!(
        MvoteError::DailyLimitExceeded.message(),
        "Daily purchase limit exceeded (100 mVote max)"
    );
    assert_eq!(MvoteError::AlreadyVoted.message(), "Already voted on this poll");
    assert_eq!(
        MvoteError::Unauthorized.message(),
        "Only poll creator can perform this action"
    );
    assert_eq!(MvoteError::Overflow.message(), "Arithmetic overflow");
    assert_eq!(MvoteError::InvalidAmount.message(), "Invalid amount");
}
