//! The life of a poll: created once, then voted on and closed, step by step.
//! What creation establishes of a poll, every later step keeps.

use vstd::prelude::*;
use crate::instructions::close_poll::ClosePollView;
use crate::instructions::create_poll::{lemma_created_poll, CreatePollView};
use crate::instructions::vote::{lemma_vote_keeps_poll, lemma_vote_keeps_tally, VoteView};
use crate::state::{PollView, VoteMode, VotingStyle};

verus! {

/// One accepted operation on a poll.
pub enum PollStep {
    /// A vote with its arguments.
    Voted { vote: VoteView, poll_id: u64, option_index: u8, token_amount: u64 },
    /// A closing.
    Closed { closing: ClosePollView },
}

impl PollStep {
    /// The operation is accepted.
    pub open spec fn accepted(self) -> bool {
        match self {
            PollStep::Voted { vote, poll_id, option_index, token_amount } => vote.rejection(
                option_index,
                token_amount,
            ) is None,
            PollStep::Closed { closing } => closing.rejection() is None,
        }
    }

    /// The poll that the operation is presented with.
    pub open spec fn before(self) -> PollView {
        match self {
            PollStep::Voted { vote, poll_id, option_index, token_amount } => vote.poll,
            PollStep::Closed { closing } => closing.poll,
        }
    }

    /// The poll that the operation leaves.
    pub open spec fn after(self) -> PollView {
        match self {
            PollStep::Voted { vote, poll_id, option_index, token_amount } => vote.after(
                poll_id,
                option_index,
                token_amount,
            ).poll,
            PollStep::Closed { closing } => closing.after().poll,
        }
    }
}

/// The poll that step `i` of `steps` has to be presented with: `created` for
/// the first step, else the poll that the step before it left.
pub open spec fn poll_before(created: PollView, steps: Seq<PollStep>, i: int) -> PollView {
    if i == 0 {
        created
    } else {
        steps[i - 1].after()
    }
}

/// Step `i` of `steps` is accepted, and is presented with the poll as the
/// steps before it left it.
pub open spec fn step_in_order(created: PollView, steps: Seq<PollStep>, i: int) -> bool {
    steps[i].accepted() && steps[i].before() == poll_before(created, steps, i)
}

/// The steps are a life of the poll `created`: each is accepted, the first is
/// presented with `created`, and each later one with the poll that the step
/// before it left.
pub open spec fn is_life_of(created: PollView, steps: Seq<PollStep>) -> bool {
    forall|i: int| 0 <= i < steps.len() ==> #[trigger] step_in_order(created, steps, i)
}

/// The poll at the end of a life: the created one where nothing happened yet.
pub open spec fn poll_after(created: PollView, steps: Seq<PollStep>) -> PollView {
    if steps.len() == 0 {
        created
    } else {
        steps.last().after()
    }
}

/// What a poll keeps of its creation: it is well formed, its counts add up
/// to the number of votes in fair mode and to the token units spent in
/// holding mode, and its ordinal, creator, question, options, mode, style and
/// times are those it was created with.
pub open spec fn keeps_to(created: PollView, poll: PollView) -> bool {
    &&& poll.well_formed()
    &&& poll.tally_consistent()
    &&& poll.id == created.id
    &&& poll.creator == created.creator
    &&& poll.question == created.question
    &&& poll.options == created.options
    &&& poll.vote_mode == created.vote_mode
    &&& poll.voting_style == created.voting_style
    &&& poll.start_time == created.start_time
    &&& poll.end_time == created.end_time
}

/// An accepted step keeps what the poll keeps of its creation, and is
/// presented with an open poll.
pub proof fn lemma_step_keeps(created: PollView, step: PollStep)
    requires
        step.accepted(),
        keeps_to(created, step.before()),
    ensures
        keeps_to(created, step.after()),
        step.before().is_active,
{
    match step {
        PollStep::Voted { vote, poll_id, option_index, token_amount } => {
            lemma_vote_keeps_tally(vote, poll_id, option_index, token_amount);
            lemma_vote_keeps_poll(vote, poll_id, option_index, token_amount);
        },
        PollStep::Closed { closing } => {},
    }
}

/// Throughout its life a poll keeps what creation established: it is well
/// formed, with one count per option, its counts add up to the number of
/// votes in fair mode and to the token units spent in holding mode, and its
/// question, options and mode are those it was created with. Once a step has
/// closed it, it stays closed.
pub proof fn lemma_poll_life(
    creation: CreatePollView,
    question: Seq<char>,
    options: Seq<Seq<char>>,
    vote_mode: VoteMode,
    voting_style: VotingStyle,
    duration_minutes: u16,
    steps: Seq<PollStep>,
)
    requires
        creation.rejection(question, options, duration_minutes) is None,
        is_life_of(
            creation.created(question, options, vote_mode, voting_style, duration_minutes),
            steps,
        ),
    ensures
        keeps_to(
            creation.created(question, options, vote_mode, voting_style, duration_minutes),
            poll_after(
                creation.created(question, options, vote_mode, voting_style, duration_minutes),
                steps,
            ),
        ),
        forall|i: int|
            0 <= i < steps.len() && !(#[trigger] steps[i]).after().is_active ==> !poll_after(
                creation.created(question, options, vote_mode, voting_style, duration_minutes),
                steps,
            ).is_active,
{
    let created = creation.created(question, options, vote_mode, voting_style, duration_minutes);
    lemma_created_poll(creation, question, options, vote_mode, voting_style, duration_minutes);
    lemma_life_keeps(created, steps);
}

/// A life of a poll that keeps to itself at the start keeps to it at the end,
/// and once a step has closed the poll it stays closed.
pub proof fn lemma_life_keeps(created: PollView, steps: Seq<PollStep>)
    requires
        keeps_to(created, created),
        is_life_of(created, steps),
    ensures
        keeps_to(created, poll_after(created, steps)),
        forall|i: int|
            0 <= i < steps.len() && !(#[trigger] steps[i]).after().is_active ==> !poll_after(
                created,
                steps,
            ).is_active,
    decreases steps.len(),
{
    if steps.len() > 0 {
        let earlier = steps.drop_last();
        let n = steps.len() - 1;
        assert forall|i: int| 0 <= i < earlier.len() implies #[trigger] step_in_order(
            created,
            earlier,
            i,
        ) by {
            assert(step_in_order(created, steps, i));
            assert(earlier[i] == steps[i]);
            if i > 0 {
                assert(earlier[i - 1] == steps[i - 1]);
            }
        }
        lemma_life_keeps(created, earlier);
        assert(step_in_order(created, steps, n));
        assert(poll_before(created, steps, n) == poll_after(created, earlier)) by {
            if n > 0 {
                assert(earlier.last() == steps[n - 1]);
            }
        }
        lemma_step_keeps(created, steps[n]);
        assert forall|i: int|
            0 <= i < steps.len() && !(#[trigger] steps[i]).after().is_active implies !poll_after(
            created,
            steps,
        ).is_active by {
            if i < n {
                assert(earlier[i] == steps[i]);
            }
        }
    }
}

} // verus!
