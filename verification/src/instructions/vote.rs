//! Casting a vote: one per poll and voter, paid for in burned tokens.

use vstd::prelude::*;
use crate::address::{
    config_address, config_seeds, is_derivation, lemma_pubkey_extensional, poll_address,
    poll_seeds, program_address, user_address, user_seeds, vote_address, vote_seeds, Pubkey,
};
use crate::clock::Clock;
use crate::errors::MvoteError;
use crate::state::poll::lemma_tally_update;
use crate::state::{Config, Poll, PollView, UserStats, VoteMode, VoteRecord};

verus! {

/// Nonces of the records that a vote creates.
#[derive(Clone, Copy, Debug, PartialEq, Eq, Structural)]
pub struct VoteBumps {
    /// Nonce of the vote receipt.
    pub vote_record: u8,
}

/// What a vote reads and writes.
#[derive(Clone, Debug)]
pub struct Vote {
    /// Who votes.
    pub voter: Pubkey,
    /// Address of the configuration record.
    pub config_key: Pubkey,
    /// The configuration.
    pub config: Config,
    /// Address of the voter's statistics record.
    pub user_stats_key: Pubkey,
    /// The voter's statistics.
    pub user_stats: UserStats,
    /// Address of the poll.
    pub poll_key: Pubkey,
    /// The poll.
    pub poll: Poll,
    /// Address of the receipt of this voter's vote on this poll.
    pub vote_record_key: Pubkey,
    /// The receipt; `None` as long as the voter has not voted on the poll.
    pub vote_record: Option<VoteRecord>,
    /// The voter's token balance.
    pub voter_token_amount: u64,
    /// The time of the vote.
    pub clock: Clock,
    /// Nonces of the records to create.
    pub bumps: VoteBumps,
}

/// A vote's records as mathematical values.
#[verifier::ext_equal]
pub struct VoteView {
    pub voter: Pubkey,
    pub config_key: Pubkey,
    pub config: Config,
    pub user_stats_key: Pubkey,
    pub user_stats: UserStats,
    pub poll_key: Pubkey,
    pub poll: PollView,
    pub vote_record_key: Pubkey,
    pub vote_record: Option<VoteRecord>,
    pub voter_token_amount: u64,
    pub clock: Clock,
    pub bumps: VoteBumps,
}

impl View for Vote {
    type V = VoteView;

    open spec fn view(&self) -> VoteView {
        VoteView {
            voter: self.voter,
            config_key: self.config_key,
            config: self.config,
            user_stats_key: self.user_stats_key,
            user_stats: self.user_stats,
            poll_key: self.poll_key,
            poll: self.poll@,
            vote_record_key: self.vote_record_key,
            vote_record: self.vote_record,
            voter_token_amount: self.voter_token_amount,
            clock: self.clock,
            bumps: self.bumps,
        }
    }
}

impl VoteView {
    /// Token units that the vote burns: the fixed vote cost in fair mode,
    /// whatever `token_amount` is; the staked `token_amount` in holding mode.
    pub open spec fn burn(self, token_amount: u64) -> u64 {
        match self.poll.vote_mode {
            VoteMode::FairVote => self.config.vote_cost,
            VoteMode::HoldingVote => token_amount,
        }
    }

    /// What the vote adds to the count of its option: one in fair mode, the
    /// token units burned in holding mode.
    pub open spec fn weight(self, token_amount: u64) -> u64 {
        match self.poll.vote_mode {
            VoteMode::FairVote => 1,
            VoteMode::HoldingVote => token_amount,
        }
    }

    /// The poll offers the option and has a count for it.
    pub open spec fn option_exists(self, option_index: u8) -> bool {
        option_index < self.poll.options.len() && option_index < self.poll.vote_counts.len()
    }

    /// One of the sums of the vote does not fit in 64 bits.
    pub open spec fn overflows(self, option_index: u8, token_amount: u64) -> bool {
        ||| self.poll.vote_counts[option_index as int] + self.weight(token_amount) > u64::MAX
        ||| self.poll.total_votes + 1 > u64::MAX
        ||| self.poll.total_tokens_spent + self.burn(token_amount) > u64::MAX
        ||| self.user_stats.votes_cast + 1 > u64::MAX
    }

    /// Why the vote is rejected, if it is: the first of the checks, in this
    /// order, that fails.
    pub open spec fn rejection(self, option_index: u8, token_amount: u64) -> Option<MvoteError> {
        if self.vote_record is Some {
            Some(MvoteError::AlreadyVoted)
        } else if !self.poll.is_active {
            Some(MvoteError::PollNotActive)
        } else if self.clock.unix_timestamp > self.poll.end_time {
            Some(MvoteError::PollExpired)
        } else if self.clock.unix_timestamp < self.poll.start_time {
            Some(MvoteError::PollNotStarted)
        } else if !self.option_exists(option_index) {
            Some(MvoteError::InvalidOption)
        } else if self.poll.vote_mode == VoteMode::HoldingVote && token_amount
            < self.config.vote_cost {
            Some(MvoteError::MinimumVoteRequired)
        } else if self.voter_token_amount < self.burn(token_amount) {
            Some(MvoteError::InsufficientTokens)
        } else if self.overflows(option_index, token_amount) {
            Some(MvoteError::Overflow)
        } else {
            None
        }
    }

    /// The nonce that the receipt has or, as long as there is none, will get.
    pub open spec fn receipt_bump(self) -> u8 {
        match self.vote_record {
            Some(record) => record.bump,
            None => self.bumps.vote_record,
        }
    }

    /// The configuration, the voter's statistics, poll `poll_id` and the
    /// voter's receipt for it are presented at the addresses derived from
    /// their keys under `program_id`, with the nonces of those derivations.
    pub open spec fn addresses_valid(self, program_id: Seq<u8>, poll_id: u64) -> bool {
        &&& program_address(config_seeds(), program_id) == Some(
            (self.config_key@, self.config.bump),
        )
        &&& program_address(user_seeds(self.voter@), program_id) == Some(
            (self.user_stats_key@, self.user_stats.bump),
        )
        &&& program_address(poll_seeds(poll_id), program_id) == Some(
            (self.poll_key@, self.poll.bump),
        )
        &&& program_address(vote_seeds(poll_id, self.voter@), program_id) == Some(
            (self.vote_record_key@, self.receipt_bump()),
        )
    }

    /// The receipt that the vote leaves.
    pub open spec fn receipt(self, poll_id: u64, option_index: u8, token_amount: u64) -> VoteRecord {
        VoteRecord {
            voter: self.voter,
            poll_id,
            option_index,
            tokens_spent: self.burn(token_amount),
            voted_at: self.clock.unix_timestamp,
            bump: self.bumps.vote_record,
        }
    }

    /// The state after an accepted vote.
    pub open spec fn after(self, poll_id: u64, option_index: u8, token_amount: u64) -> VoteView {
        let index = option_index as int;
        VoteView {
            poll: PollView {
                vote_counts: self.poll.vote_counts.update(
                    index,
                    (self.poll.vote_counts[index] + self.weight(token_amount)) as u64,
                ),
                total_votes: (self.poll.total_votes + 1) as u64,
                total_tokens_spent: (self.poll.total_tokens_spent + self.burn(token_amount)) as u64,
                ..self.poll
            },
            user_stats: UserStats {
                votes_cast: (self.user_stats.votes_cast + 1) as u64,
                ..self.user_stats
            },
            vote_record: Some(self.receipt(poll_id, option_index, token_amount)),
            voter_token_amount: (self.voter_token_amount - self.burn(token_amount)) as u64,
            ..self
        }
    }
}

impl Vote {
    /// Derives the addresses again and compares them, and their nonces, with
    /// what is presented.
    pub fn check_addresses(&self, program_id: &Pubkey, poll_id: u64) -> (ok: bool)
        ensures
            ok == self@.addresses_valid(program_id@, poll_id),
    {
        let receipt_bump = match self.vote_record {
            Some(record) => record.bump,
            None => self.bumps.vote_record,
        };
        is_derivation(config_address(program_id), &self.config_key, self.config.bump)
            && is_derivation(
            user_address(program_id, &self.voter),
            &self.user_stats_key,
            self.user_stats.bump,
        ) && is_derivation(poll_address(program_id, poll_id), &self.poll_key, self.poll.bump)
            && is_derivation(
            vote_address(program_id, poll_id, &self.voter),
            &self.vote_record_key,
            receipt_bump,
        )
    }
}

/// Casts the voter's vote for option `option_index` of the poll. In fair
/// mode the vote burns the fixed vote cost and counts one; in holding mode it
/// burns `token_amount`, which must be at least the vote cost, and counts as
/// much. A voter who has a receipt for the poll cannot vote on it again. A
/// rejected vote changes nothing.
pub fn handler(ctx: &mut Vote, poll_id: u64, option_index: u8, token_amount: u64) -> (res: Result<
    (),
    MvoteError,
>)
    ensures
        match res {
            Ok(()) => old(ctx)@.rejection(option_index, token_amount) is None && final(ctx)@
                == old(ctx)@.after(poll_id, option_index, token_amount),
            Err(e) => old(ctx)@.rejection(option_index, token_amount) == Some(e) && *final(ctx)
                == *old(ctx),
        },
{
    if ctx.vote_record.is_some() {
        return Err(MvoteError::AlreadyVoted);
    }
    let current_time = ctx.clock.unix_timestamp;
    if !ctx.poll.is_active {
        return Err(MvoteError::PollNotActive);
    }
    if current_time > ctx.poll.end_time {
        return Err(MvoteError::PollExpired);
    }
    if current_time < ctx.poll.start_time {
        return Err(MvoteError::PollNotStarted);
    }
    let index = option_index as usize;
    if index >= ctx.poll.options.len() || index >= ctx.poll.vote_counts.len() {
        return Err(MvoteError::InvalidOption);
    }
    let tokens_to_burn = match ctx.poll.vote_mode {
        VoteMode::FairVote => ctx.config.vote_cost,
        VoteMode::HoldingVote => {
            if token_amount < ctx.config.vote_cost {
                return Err(MvoteError::MinimumVoteRequired);
            }
            token_amount
        },
    };
    if ctx.voter_token_amount < tokens_to_burn {
        return Err(MvoteError::InsufficientTokens);
    }
    let vote_weight = match ctx.poll.vote_mode {
        VoteMode::FairVote => 1,
        VoteMode::HoldingVote => tokens_to_burn,
    };
    let new_count = match ctx.poll.vote_counts[index].checked_add(vote_weight) {
        Some(count) => count,
        None => {
            return Err(MvoteError::Overflow);
        },
    };
    let new_total_votes = match ctx.poll.total_votes.checked_add(1) {
        Some(total) => total,
        None => {
            return Err(MvoteError::Overflow);
        },
    };
    let new_tokens_spent = match ctx.poll.total_tokens_spent.checked_add(tokens_to_burn) {
        Some(total) => total,
        None => {
            return Err(MvoteError::Overflow);
        },
    };
    let new_votes_cast = match ctx.user_stats.votes_cast.checked_add(1) {
        Some(total) => total,
        None => {
            return Err(MvoteError::Overflow);
        },
    };
    ctx.voter_token_amount = ctx.voter_token_amount - tokens_to_burn;
    ctx.poll.vote_counts.set(index, new_count);
    ctx.poll.total_votes = new_total_votes;
    ctx.poll.total_tokens_spent = new_tokens_spent;
    ctx.vote_record = Some(
        VoteRecord {
            voter: ctx.voter,
            poll_id,
            option_index,
            tokens_spent: tokens_to_burn,
            voted_at: current_time,
            bump: ctx.bumps.vote_record,
        },
    );
    ctx.user_stats.votes_cast = new_votes_cast;
    assert(ctx@ =~~= old(ctx)@.after(poll_id, option_index, token_amount));
    Ok(())
}

/// A vote keeps the counts in step with what the poll's mode measures: where
/// they added up to the number of votes (fair mode) or to the token units
/// spent (holding mode) before an accepted vote, they do so after it.
pub proof fn lemma_vote_keeps_tally(v: VoteView, poll_id: u64, option_index: u8, token_amount: u64)
    requires
        v.rejection(option_index, token_amount) is None,
        v.poll.tally_consistent(),
    ensures
        v.after(poll_id, option_index, token_amount).poll.tally_consistent(),
{
    lemma_tally_update(
        v.poll.vote_counts,
        option_index as int,
        (v.poll.vote_counts[option_index as int] + v.weight(token_amount)) as u64,
    );
}

/// A vote changes nothing of a poll but its counts and totals: no count gets
/// smaller, the chosen one grows by the weight of the vote, and a poll that
/// was well formed stays so.
pub proof fn lemma_vote_keeps_poll(v: VoteView, poll_id: u64, option_index: u8, token_amount: u64)
    requires
        v.rejection(option_index, token_amount) is None,
    ensures
        ({
            let before = v.poll;
            let after = v.after(poll_id, option_index, token_amount).poll;
            &&& after.options == before.options
            &&& after.question == before.question
            &&& after.is_active == before.is_active
            &&& after.vote_counts.len() == before.vote_counts.len()
            &&& forall|i: int|
                0 <= i < before.vote_counts.len() ==> #[trigger] after.vote_counts[i]
                    == before.vote_counts[i] + (if i == option_index {
                    v.weight(token_amount)
                } else {
                    0
                })
            &&& before.well_formed() ==> after.well_formed()
        }),
{
}

/// Nobody votes twice on a poll: once a vote was accepted, every vote that
/// is presented with the receipt it left is rejected as a duplicate, whatever
/// the poll's mode, the time, the option or the amount.
pub proof fn lemma_second_vote_rejected(
    first: VoteView,
    poll_id: u64,
    option_index: u8,
    token_amount: u64,
    second: VoteView,
    second_option_index: u8,
    second_token_amount: u64,
)
    requires
        first.rejection(option_index, token_amount) is None,
        second.vote_record == first.after(poll_id, option_index, token_amount).vote_record,
    ensures
        second.rejection(second_option_index, second_token_amount) == Some(
            MvoteError::AlreadyVoted,
        ),
{
}

/// A voter's receipt for a poll has one address: whoever passes the address
/// check for the same program, poll and voter presents the same poll, the
/// same receipt address and the same nonce. With the rejection of a vote
/// that finds a receipt, this leaves each voter one vote per poll.
pub proof fn lemma_one_receipt_address(
    first: VoteView,
    second: VoteView,
    program_id: Seq<u8>,
    poll_id: u64,
)
    requires
        first.addresses_valid(program_id, poll_id),
        second.addresses_valid(program_id, poll_id),
        first.voter == second.voter,
    ensures
        first.vote_record_key == second.vote_record_key,
        first.receipt_bump() == second.receipt_bump(),
        first.poll_key == second.poll_key,
        first.user_stats_key == second.user_stats_key,
        first.config_key == second.config_key,
{
    lemma_pubkey_extensional(first.vote_record_key, second.vote_record_key);
    lemma_pubkey_extensional(first.poll_key, second.poll_key);
    lemma_pubkey_extensional(first.user_stats_key, second.user_stats_key);
    lemma_pubkey_extensional(first.config_key, second.config_key);
}

/// On an open poll, a first vote passes the time checks exactly from
/// `start_time` to `end_time`, both included: later it is rejected as
/// expired, earlier as not started.
pub proof fn lemma_vote_window(v: VoteView, option_index: u8, token_amount: u64)
    requires
        v.vote_record is None,
        v.poll.is_active,
    ensures
        v.clock.unix_timestamp > v.poll.end_time ==> v.rejection(option_index, token_amount)
            == Some(MvoteError::PollExpired),
        v.clock.unix_timestamp <= v.poll.end_time && v.clock.unix_timestamp < v.poll.start_time
            ==> v.rejection(option_index, token_amount) == Some(MvoteError::PollNotStarted),
        v.poll.in_window(v.clock.unix_timestamp) ==> v.rejection(option_index, token_amount)
            != Some(MvoteError::PollExpired) && v.rejection(option_index, token_amount) != Some(
            MvoteError::PollNotStarted,
        ),
{
}

} // verus!
