use mvote::address::Pubkey;
use mvote::errors::MvoteError;
use mvote::instructions::close_poll::handler;
use mvote::instructions::ClosePoll;
use mvote::state::{Poll, VoteMode, VotingStyle};

fn closer_key(byte: u8) -> Pubkey {
    Pubkey::new_from_array([byte; 32])
}

fn closing(caller: u8) -> ClosePoll {
    ClosePoll {
        creator: closer_key(caller),
        poll_key: closer_key(6),
        poll: Poll {
            id: 3,
            creator: closer_key(50),
            question: "Which one?".to_string(),
            options: vec!["a".to_string(), "b".to_string()],
            vote_counts: vec![4, 1],
            vote_mode: VoteMode::FairVote,
            voting_style: VotingStyle::Binary,
            start_time: 100,
            end_time: 700,
            total_votes: 5,
            total_tokens_spent: 5_000_000,
            is_active: true,
            bump: 249,
        },
    }
}

#[test]
fn creator_closes_the_poll() {
    let mut ctx = closing(50);
    assert_eq!(handler(&mut ctx, 3), Ok(()));
    assert!(!ctx.poll.is_active);
    assert_eq!(ctx.poll.vote_counts, vec![4, 1]);
    assert_eq!(ctx.poll.total_votes, 5);
    assert_eq!(ctx.poll.total_tokens_spent, 5_000_000);
    assert_eq!(ctx.poll.options.len(), 2);
    assert_eq!(ctx.poll.end_time, 700);
}

#[test]
fn close_poll_by_another_identity_is_unauthorized() {
    let mut ctx = closing(51);
    assert_eq!(handler(&mut ctx, 3), Err(MvoteError::Unauthorized));
    assert!(ctx.poll.is_active);
    assert_eq!(ctx.poll.vote_counts, vec![4, 1]);
}

#[test]
fn closed_poll_cannot_be_closed_again() {
    let mut ctx = closing(50);
    assert_eq!(handler(&mut ctx, 3), Ok(()));
    assert_eq!(handler(&mut ctx, 3), Err(MvoteError::PollNotActive));
    assert!(!ctx.poll.is_active);
}

#[test]
fn stranger_is_unauthorized_on_a_closed_poll_too() {
    let mut ctx = closing(51);
    ctx.poll.is_active = false;
    assert_eq!(handler(&mut ctx, 3), Err(MvoteError::Unauthorized));
    assert!(!ctx.poll.is_active);
}
