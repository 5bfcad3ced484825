//! Closing a poll, which only its creator may do and nobody can undo.

use vstd::prelude::*;
use crate::address::{is_derivation, poll_address, poll_seeds, program_address, Pubkey};
use crate::errors::MvoteError;
use crate::instructions::vote::VoteView;
use crate::state::{Poll, PollView};

verus! {

/// What the closing of a poll reads and writes.
#[derive(Clone, Debug)]
pub struct ClosePoll {
    /// Who asks for the poll to be closed.
    pub creator: Pubkey,
    /// Address of the poll.
    pub poll_key: Pubkey,
    /// The poll.
    pub poll: Poll,
}

/// The records of a closing as mathematical values.
#[verifier::ext_equal]
pub struct ClosePollView {
    pub creator: Pubkey,
    pub poll_key: Pubkey,
    pub poll: PollView,
}

impl View for ClosePoll {
    type V = ClosePollView;

    open spec fn view(&self) -> ClosePollView {
        ClosePollView { creator: self.creator, poll_key: self.poll_key, poll: self.poll@ }
    }
}

impl ClosePollView {
    /// Why the closing is rejected, if it is: the caller is not the poll's
    /// creator, or else the poll is closed already.
    pub open spec fn rejection(self) -> Option<MvoteError> {
        if self.creator != self.poll.creator {
            Some(MvoteError::Unauthorized)
        } else if !self.poll.is_active {
            Some(MvoteError::PollNotActive)
        } else {
            None
        }
    }

    /// The state after an accepted closing: the poll is closed and nothing
    /// else has changed.
    pub open spec fn after(self) -> ClosePollView {
        ClosePollView { poll: PollView { is_active: false, ..self.poll }, ..self }
    }

    /// Poll `poll_id` is presented at the address derived from its ordinal
    /// under `program_id`, with the nonce of that derivation.
    pub open spec fn addresses_valid(self, program_id: Seq<u8>, poll_id: u64) -> bool {
        program_address(poll_seeds(poll_id), program_id) == Some((self.poll_key@, self.poll.bump))
    }
}

impl ClosePoll {
    /// Derives the poll's address again and compares it, and its nonce, with
    /// what is presented.
    pub fn check_addresses(&self, program_id: &Pubkey, poll_id: u64) -> (ok: bool)
        ensures
            ok == self@.addresses_valid(program_id@, poll_id),
    {
        is_derivation(poll_address(program_id, poll_id), &self.poll_key, self.poll.bump)
    }
}

/// Closes the poll for its creator. Anybody else is rejected as
/// unauthorized, and a closed poll cannot be closed again. A rejected
/// closing changes nothing.
pub fn handler(ctx: &mut ClosePoll, _poll_id: u64) -> (res: Result<(), MvoteError>)
    ensures
        match res {
            Ok(()) => old(ctx)@.rejection() is None && final(ctx)@ == old(ctx)@.after(),
            Err(e) => old(ctx)@.rejection() == Some(e) && *final(ctx) == *old(ctx),
        },
{
    if ctx.creator != ctx.poll.creator {
        return Err(MvoteError::Unauthorized);
    }
    if !ctx.poll.is_active {
        return Err(MvoteError::PollNotActive);
    }
    ctx.poll.is_active = false;
    assert(ctx@ =~~= old(ctx)@.after());
    Ok(())
}

/// Closing changes nothing of a poll but that it is open: its texts, its
/// counts and its totals stay, so that what held of them still holds.
pub proof fn lemma_closing_keeps_poll(closing: ClosePollView)
    ensures
        closing.after().poll == (PollView { is_active: false, ..closing.poll }),
        closing.poll.well_formed() ==> closing.after().poll.well_formed(),
        closing.poll.tally_consistent() ==> closing.after().poll.tally_consistent(),
{
}

/// A closed poll stays closed: it cannot be closed again, and whoever has not
/// voted on it yet is told that it is not active, at whatever time and for
/// whatever option and amount.
pub proof fn lemma_closing_is_final(
    closing: ClosePollView,
    again: ClosePollView,
    vote: VoteView,
    option_index: u8,
    token_amount: u64,
)
    requires
        closing.rejection() is None,
        again.poll == closing.after().poll,
        vote.poll == closing.after().poll,
        vote.vote_record is None,
    ensures
        again.rejection() is Some,
        again.creator == again.poll.creator ==> again.rejection() == Some(
            MvoteError::PollNotActive,
        ),
        vote.rejection(option_index, token_amount) == Some(MvoteError::PollNotActive),
{
}

} // verus!
