//! Creating a poll, paid for in burned tokens.

use vstd::prelude::*;
use crate::address::{
    config_address, config_seeds, is_derivation, poll_address, poll_seeds, program_address,
    user_address, user_seeds, Pubkey,
};
use crate::clock::Clock;
use crate::constants::{
    MAX_OPTIONS, MAX_OPTION_LENGTH, MAX_QUESTION_LENGTH, MAX_DURATION_MINUTES,
    MIN_DURATION_MINUTES, MIN_OPTIONS,
};
use crate::errors::MvoteError;
use crate::state::poll::{
    lemma_tally_zeros, lemma_text_len_zero, option_count_ok, option_ok, question_ok, text_len,
    texts,
};
use crate::state::{Config, Poll, PollView, UserStats, VoteMode, VotingStyle};

verus! {

/// Nonces of the records that the creation of a poll creates.
#[derive(Clone, Copy, Debug, PartialEq, Eq, Structural)]
pub struct CreatePollBumps {
    /// Nonce of the poll.
    pub poll: u8,
}

/// What the creation of a poll reads and writes.
#[derive(Clone, Debug)]
pub struct CreatePoll {
    /// Who creates the poll.
    pub creator: Pubkey,
    /// Address of the configuration record.
    pub config_key: Pubkey,
    /// The configuration.
    pub config: Config,
    /// Address of the creator's statistics record.
    pub user_stats_key: Pubkey,
    /// The creator's statistics.
    pub user_stats: UserStats,
    /// Address of the poll to create.
    pub poll_key: Pubkey,
    /// The poll; `None` until it is created.
    pub poll: Option<Poll>,
    /// The creator's token balance.
    pub creator_token_amount: u64,
    /// The time of the creation.
    pub clock: Clock,
    /// Nonces of the records to create.
    pub bumps: CreatePollBumps,
}

/// The records of a creation as mathematical values.
#[verifier::ext_equal]
pub struct CreatePollView {
    pub creator: Pubkey,
    pub config_key: Pubkey,
    pub config: Config,
    pub user_stats_key: Pubkey,
    pub user_stats: UserStats,
    pub poll_key: Pubkey,
    pub poll: Option<PollView>,
    pub creator_token_amount: u64,
    pub clock: Clock,
    pub bumps: CreatePollBumps,
}

impl View for CreatePoll {
    type V = CreatePollView;

    open spec fn view(&self) -> CreatePollView {
        CreatePollView {
            creator: self.creator,
            config_key: self.config_key,
            config: self.config,
            user_stats_key: self.user_stats_key,
            user_stats: self.user_stats,
            poll_key: self.poll_key,
            poll: match self.poll {
                Some(poll) => Some(poll@),
                None => None,
            },
            creator_token_amount: self.creator_token_amount,
            clock: self.clock,
            bumps: self.bumps,
        }
    }
}

/// The duration is between 10 minutes and 24 hours.
pub open spec fn duration_ok(duration_minutes: u16) -> bool {
    MIN_DURATION_MINUTES <= duration_minutes <= MAX_DURATION_MINUTES
}

/// Every option text is within bounds.
pub open spec fn options_ok(options: Seq<Seq<char>>) -> bool {
    forall|i: int| 0 <= i < options.len() ==> option_ok(#[trigger] options[i])
}

impl CreatePollView {
    /// The moment at which the poll closes by itself.
    pub open spec fn end_time(self, duration_minutes: u16) -> int {
        self.clock.unix_timestamp + duration_minutes * 60
    }

    /// One of the sums of the creation does not fit in 64 bits.
    pub open spec fn overflows(self, duration_minutes: u16) -> bool {
        ||| self.end_time(duration_minutes) > i64::MAX
        ||| self.config.total_polls_created + 1 > u64::MAX
        ||| self.user_stats.polls_created + 1 > u64::MAX
    }

    /// Why the creation is rejected, if it is: the first of the checks, in
    /// this order, that fails.
    pub open spec fn rejection(
        self,
        question: Seq<char>,
        options: Seq<Seq<char>>,
        duration_minutes: u16,
    ) -> Option<MvoteError> {
        if self.poll is Some {
            Some(MvoteError::AlreadyInitialized)
        } else if !question_ok(question) {
            Some(MvoteError::InvalidQuestionLength)
        } else if !option_count_ok(options.len()) {
            Some(MvoteError::InvalidOptionCount)
        } else if !options_ok(options) {
            Some(MvoteError::InvalidOptionLength)
        } else if !duration_ok(duration_minutes) {
            Some(MvoteError::InvalidDuration)
        } else if self.creator_token_amount < self.config.poll_creation_cost {
            Some(MvoteError::InsufficientTokens)
        } else if self.overflows(duration_minutes) {
            Some(MvoteError::Overflow)
        } else {
            None
        }
    }

    /// The nonce that the poll has or, as long as there is none, will get.
    pub open spec fn poll_bump(self) -> u8 {
        match self.poll {
            Some(poll) => poll.bump,
            None => self.bumps.poll,
        }
    }

    /// The configuration, the creator's statistics and the poll are presented
    /// at the addresses derived from their keys under `program_id`, with the
    /// nonces of those derivations. The key of the poll is the number of
    /// polls created so far.
    pub open spec fn addresses_valid(self, program_id: Seq<u8>) -> bool {
        &&& program_address(config_seeds(), program_id) == Some(
            (self.config_key@, self.config.bump),
        )
        &&& program_address(user_seeds(self.creator@), program_id) == Some(
            (self.user_stats_key@, self.user_stats.bump),
        )
        &&& program_address(poll_seeds(self.config.total_polls_created), program_id) == Some(
            (self.poll_key@, self.poll_bump()),
        )
    }

    /// The poll that the creation writes: it takes the number of polls
    /// created so far as its ordinal, starts now, and has no votes.
    pub open spec fn created(
        self,
        question: Seq<char>,
        options: Seq<Seq<char>>,
        vote_mode: VoteMode,
        voting_style: VotingStyle,
        duration_minutes: u16,
    ) -> PollView {
        PollView {
            id: self.config.total_polls_created,
            creator: self.creator,
            question,
            options,
            vote_counts: Seq::new(options.len(), |i: int| 0u64),
            vote_mode,
            voting_style,
            start_time: self.clock.unix_timestamp,
            end_time: self.end_time(duration_minutes) as i64,
            total_votes: 0,
            total_tokens_spent: 0,
            is_active: true,
            bump: self.bumps.poll,
        }
    }

    /// The state after an accepted creation.
    pub open spec fn after(
        self,
        question: Seq<char>,
        options: Seq<Seq<char>>,
        vote_mode: VoteMode,
        voting_style: VotingStyle,
        duration_minutes: u16,
    ) -> CreatePollView {
        CreatePollView {
            config: Config {
                total_polls_created: (self.config.total_polls_created + 1) as u64,
                ..self.config
            },
            user_stats: UserStats {
                polls_created: (self.user_stats.polls_created + 1) as u64,
                ..self.user_stats
            },
            poll: Some(self.created(question, options, vote_mode, voting_style, duration_minutes)),
            creator_token_amount: (self.creator_token_amount - self.config.poll_creation_cost) as u64,
            ..self
        }
    }
}

impl CreatePoll {
    /// Derives the addresses again and compares them, and their nonces, with
    /// what is presented.
    pub fn check_addresses(&self, program_id: &Pubkey) -> (ok: bool)
        ensures
            ok == self@.addresses_valid(program_id@),
    {
        let poll_bump = match &self.poll {
            Some(poll) => poll.bump,
            None => self.bumps.poll,
        };
        is_derivation(config_address(program_id), &self.config_key, self.config.bump)
            && is_derivation(
            user_address(program_id, &self.creator),
            &self.user_stats_key,
            self.user_stats.bump,
        ) && is_derivation(
            poll_address(program_id, self.config.total_polls_created),
            &self.poll_key,
            poll_bump,
        )
    }
}

/// Length of a text in bytes; it is zero for the empty text only.
pub fn byte_len(text: &String) -> (n: usize)
    ensures
        n == text_len(text@),
        n == 0 <==> text@.len() == 0,
{
    proof {
        lemma_text_len_zero(text@);
    }
    text.as_str().as_bytes().len()
}

/// Whether every option text is neither empty nor longer than 100 bytes.
fn all_options_ok(options: &Vec<String>) -> (ok: bool)
    ensures
        ok == options_ok(texts(options@)),
{
    let mut i: usize = 0;
    while i < options.len()
        invariant
            i <= options.len(),
            forall|j: int| 0 <= j < i ==> option_ok(#[trigger] texts(options@)[j]),
        decreases options.len() - i,
    {
        assert(texts(options@)[i as int] == options@[i as int]@);
        if byte_len(&options[i]) == 0 || byte_len(&options[i]) > MAX_OPTION_LENGTH {
            assert(!option_ok(texts(options@)[i as int]));
            return false;
        }
        i = i + 1;
    }
    true
}

/// Creates a poll with the given question and options, open from now for
/// `duration_minutes`. The poll takes the number of polls created so far as
/// its ordinal; the creation burns the poll creation cost from the creator's
/// tokens. A rejected creation changes nothing.
pub fn handler(
    ctx: &mut CreatePoll,
    question: String,
    options: Vec<String>,
    vote_mode: VoteMode,
    voting_style: VotingStyle,
    duration_minutes: u16,
) -> (res: Result<(), MvoteError>)
    ensures
        match res {
            Ok(()) => old(ctx)@.rejection(question@, texts(options@), duration_minutes) is None
                && final(ctx)@ == old(ctx)@.after(
                question@,
                texts(options@),
                vote_mode,
                voting_style,
                duration_minutes,
            ),
            Err(e) => old(ctx)@.rejection(question@, texts(options@), duration_minutes) == Some(e)
                && *final(ctx) == *old(ctx),
        },
{
    if ctx.poll.is_some() {
        return Err(MvoteError::AlreadyInitialized);
    }
    if byte_len(&question) == 0 || byte_len(&question) > MAX_QUESTION_LENGTH {
        return Err(MvoteError::InvalidQuestionLength);
    }
    assert(texts(options@).len() == options@.len());
    if options.len() < MIN_OPTIONS || options.len() > MAX_OPTIONS {
        return Err(MvoteError::InvalidOptionCount);
    }
    if !all_options_ok(&options) {
        return Err(MvoteError::InvalidOptionLength);
    }
    if duration_minutes < MIN_DURATION_MINUTES || duration_minutes > MAX_DURATION_MINUTES {
        return Err(MvoteError::InvalidDuration);
    }
    if ctx.creator_token_amount < ctx.config.poll_creation_cost {
        return Err(MvoteError::InsufficientTokens);
    }
    let poll_id = ctx.config.total_polls_created;
    let start_time = ctx.clock.unix_timestamp;
    let end_time = match start_time.checked_add(duration_minutes as i64 * 60) {
        Some(end_time) => end_time,
        None => {
            return Err(MvoteError::Overflow);
        },
    };
    let new_total_polls = match poll_id.checked_add(1) {
        Some(total) => total,
        None => {
            return Err(MvoteError::Overflow);
        },
    };
    let new_polls_created = match ctx.user_stats.polls_created.checked_add(1) {
        Some(total) => total,
        None => {
            return Err(MvoteError::Overflow);
        },
    };
    let vote_counts = vec![0u64; options.len()];
    ctx.creator_token_amount = ctx.creator_token_amount - ctx.config.poll_creation_cost;
    ctx.poll = Some(
        Poll {
            id: poll_id,
            creator: ctx.creator,
            question,
            options,
            vote_counts,
            vote_mode,
            voting_style,
            start_time,
            end_time,
            total_votes: 0,
            total_tokens_spent: 0,
            is_active: true,
            bump: ctx.bumps.poll,
        },
    );
    ctx.config.total_polls_created = new_total_polls;
    ctx.user_stats.polls_created = new_polls_created;
    assert(ctx@ =~~= old(ctx)@.after(
        question@,
        texts(options@),
        vote_mode,
        voting_style,
        duration_minutes,
    ));
    Ok(())
}

/// A created poll is well formed, its counts add up to its totals, it is
/// open, it closes `duration_minutes` after it starts, and its ordinal is the
/// number of polls created before it, which the creation increases by one.
pub proof fn lemma_created_poll(
    v: CreatePollView,
    question: Seq<char>,
    options: Seq<Seq<char>>,
    vote_mode: VoteMode,
    voting_style: VotingStyle,
    duration_minutes: u16,
)
    requires
        v.rejection(question, options, duration_minutes) is None,
    ensures
        ({
            let poll = v.created(question, options, vote_mode, voting_style, duration_minutes);
            let after = v.after(question, options, vote_mode, voting_style, duration_minutes);
            &&& poll.well_formed()
            &&& poll.tally_consistent()
            &&& poll.is_active
            &&& poll.end_time == poll.start_time + duration_minutes * 60
            &&& poll.id == v.config.total_polls_created
            &&& after.config.total_polls_created == poll.id + 1
        }),
{
    let poll = v.created(question, options, vote_mode, voting_style, duration_minutes);
    lemma_tally_zeros(poll.vote_counts);
}

/// Where nothing else stands in the way, the number of options decides: two,
/// three or four are accepted, fewer or more are rejected.
pub proof fn lemma_option_count_decides(
    v: CreatePollView,
    question: Seq<char>,
    options: Seq<Seq<char>>,
    duration_minutes: u16,
)
    requires
        v.poll is None,
        question_ok(question),
    ensures
        (options.len() < 2 || options.len() > 4) <==> v.rejection(
            question,
            options,
            duration_minutes,
        ) == Some(MvoteError::InvalidOptionCount),
        2 <= options.len() <= 4 && options_ok(options) && duration_ok(duration_minutes)
            && v.creator_token_amount >= v.config.poll_creation_cost && !v.overflows(
            duration_minutes,
        ) ==> v.rejection(question, options, duration_minutes) is None,
{
}

} // verus!
