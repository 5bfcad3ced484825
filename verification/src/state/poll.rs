//! Polls and their tallies.

use vstd::prelude::*;
use crate::address::Pubkey;
use crate::constants::{MAX_OPTIONS, MAX_OPTION_LENGTH, MAX_QUESTION_LENGTH, MIN_OPTIONS};

verus! {

/// How votes are weighed and paid for.
#[derive(Clone, Copy, Debug, PartialEq, Eq, Structural)]
pub enum VoteMode {
    /// Every vote weighs one and costs the fixed vote cost.
    FairVote,
    /// A vote weighs, and costs, the token units staked on it.
    HoldingVote,
}

/// How the options are presented. It changes nothing in the tally.
#[derive(Clone, Copy, Debug, PartialEq, Eq, Structural)]
pub enum VotingStyle {
    /// Yes/No or Agree/Disagree.
    Binary,
    /// Multiple choice options (A, B, C, D).
    MultipleChoice,
}

/// One poll. Votes change its counts and totals, closing clears `is_active`;
/// nothing else changes after creation.
#[derive(Clone, Debug)]
pub struct Poll {
    /// Ordinal of the poll.
    pub id: u64,
    /// Who created the poll.
    pub creator: Pubkey,
    /// The question (1 to 280 bytes).
    pub question: String,
    /// The options (2 to 4, each 1 to 100 bytes).
    pub options: Vec<String>,
    /// Votes per option, in the order of `options`.
    pub vote_counts: Vec<u64>,
    /// How votes are weighed.
    pub vote_mode: VoteMode,
    /// How the options are presented.
    pub voting_style: VotingStyle,
    /// First moment at which a vote is accepted.
    pub start_time: i64,
    /// Last moment at which a vote is accepted.
    pub end_time: i64,
    /// Number of votes cast.
    pub total_votes: u64,
    /// Token units burned by votes on this poll.
    pub total_tokens_spent: u64,
    /// Whether the poll is open.
    pub is_active: bool,
    /// Nonce of the record's address.
    pub bump: u8,
}

/// A poll as a mathematical value.
#[verifier::ext_equal]
pub struct PollView {
    pub id: u64,
    pub creator: Pubkey,
    pub question: Seq<char>,
    pub options: Seq<Seq<char>>,
    pub vote_counts: Seq<u64>,
    pub vote_mode: VoteMode,
    pub voting_style: VotingStyle,
    pub start_time: i64,
    pub end_time: i64,
    pub total_votes: u64,
    pub total_tokens_spent: u64,
    pub is_active: bool,
    pub bump: u8,
}

/// The texts of a list of strings.
pub open spec fn texts(strings: Seq<String>) -> Seq<Seq<char>> {
    Seq::new(strings.len(), |i: int| strings[i]@)
}

/// Length of a text in bytes of its UTF-8 encoding.
pub open spec fn text_len(text: Seq<char>) -> nat {
    vstd::utf8::encode_utf8(text).len()
}

/// The question is neither empty nor longer than 280 bytes.
pub open spec fn question_ok(question: Seq<char>) -> bool {
    question.len() != 0 && text_len(question) <= MAX_QUESTION_LENGTH
}

/// The option text is neither empty nor longer than 100 bytes.
pub open spec fn option_ok(option: Seq<char>) -> bool {
    option.len() != 0 && text_len(option) <= MAX_OPTION_LENGTH
}

/// There are two to four options.
pub open spec fn option_count_ok(count: nat) -> bool {
    MIN_OPTIONS <= count <= MAX_OPTIONS
}

/// The sum of the counts.
pub open spec fn tally(counts: Seq<u64>) -> nat
    decreases counts.len(),
{
    if counts.len() == 0 {
        0
    } else {
        tally(counts.drop_last()) + counts.last() as nat
    }
}

impl View for Poll {
    type V = PollView;

    open spec fn view(&self) -> PollView {
        PollView {
            id: self.id,
            creator: self.creator,
            question: self.question@,
            options: texts(self.options@),
            vote_counts: self.vote_counts@,
            vote_mode: self.vote_mode,
            voting_style: self.voting_style,
            start_time: self.start_time,
            end_time: self.end_time,
            total_votes: self.total_votes,
            total_tokens_spent: self.total_tokens_spent,
            is_active: self.is_active,
            bump: self.bump,
        }
    }
}

impl PollView {
    /// There is one count per option.
    pub open spec fn counts_match_options(self) -> bool {
        self.options.len() == self.vote_counts.len()
    }

    /// The poll is one that creation accepts: its texts and its number of
    /// options are within bounds, and there is one count per option.
    pub open spec fn well_formed(self) -> bool {
        &&& question_ok(self.question)
        &&& option_count_ok(self.options.len())
        &&& forall|i: int| 0 <= i < self.options.len() ==> option_ok(#[trigger] self.options[i])
        &&& self.counts_match_options()
    }

    /// The counts add up to what the mode measures: the number of votes in
    /// fair mode, the token units spent in holding mode.
    pub open spec fn tally_consistent(self) -> bool {
        match self.vote_mode {
            VoteMode::FairVote => tally(self.vote_counts) == self.total_votes,
            VoteMode::HoldingVote => tally(self.vote_counts) == self.total_tokens_spent,
        }
    }

    /// Votes are accepted at `now`: from `start_time` to `end_time`, both
    /// included.
    pub open spec fn in_window(self, now: i64) -> bool {
        self.start_time <= now <= self.end_time
    }
}

impl Poll {
    /// Bytes reserved for the stored record, with its 8-byte type marker.
    pub const SIZE: usize = 8 + 8 + 32 + 4 + 280 + 4 + (4 * (4 + 100)) + 4 + (4 * 8) + 1 + 1 + 8
        + 8 + 8 + 8 + 1 + 1;
}

/// Only the empty text has no bytes.
pub proof fn lemma_text_len_zero(text: Seq<char>)
    ensures
        text_len(text) == 0 <==> text.len() == 0,
{
    reveal_with_fuel(vstd::utf8::encode_utf8, 2);
}

/// Counts that are all zero add up to zero.
pub proof fn lemma_tally_zeros(counts: Seq<u64>)
    requires
        forall|i: int| 0 <= i < counts.len() ==> counts[i] == 0,
    ensures
        tally(counts) == 0,
    decreases counts.len(),
{
    if counts.len() > 0 {
        lemma_tally_zeros(counts.drop_last());
    }
}

/// Replacing one count changes the sum by the difference.
pub proof fn lemma_tally_update(counts: Seq<u64>, index: int, count: u64)
    requires
        0 <= index < counts.len(),
    ensures
        tally(counts.update(index, count)) == tally(counts) - counts[index] + count,
    decreases counts.len(),
{
    let updated = counts.update(index, count);
    if index == counts.len() - 1 {
        assert(updated.drop_last() =~= counts.drop_last());
    } else {
        lemma_tally_update(counts.drop_last(), index, count);
        assert(updated.drop_last() =~= counts.drop_last().update(index, count));
    }
}

} // verus!
