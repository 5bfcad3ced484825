//! State-transition core of a token-gated polling ledger.
//!
//! The ledger keeps four kinds of records (a configuration, per-user
//! statistics, polls and vote receipts), each at an address derived from its
//! key, and changes them by five operations: bootstrap, token purchase, poll
//! creation, voting and poll closure. Every operation either is accepted and
//! applies all of its changes, or is rejected with a reason and changes
//! nothing.
//!
//! Each operation comes in two layers. Its `handler` decides on the records
//! alone. The entry point of the same name in this module first checks that
//! the records are presented at their derived addresses, then runs the
//! handler.

use vstd::prelude::*;

pub mod address;
pub mod clock;
pub mod constants;
pub mod economics;
pub mod errors;
pub mod instructions;
pub mod lifecycle;
pub mod state;

use crate::address::Pubkey;
use crate::errors::MvoteError;
use crate::instructions::{ClosePoll, CreatePoll, Initialize, PurchaseTokens, Vote};
use crate::state::poll::texts;
use crate::state::{VoteMode, VotingStyle};

verus! {

/// Bytes of the identity of this program, under which all addresses are
/// derived.
pub const ID_BYTES: [u8; 32] = [
    62, 31, 213, 92, 250, 219, 186, 178, 230, 76, 195, 211, 92, 246, 124, 201, 67, 121, 22, 140,
    136, 176, 229, 63, 248, 18, 126, 124, 113, 162, 80, 128,
];

/// The identity of this program.
pub open spec fn program_id() -> Pubkey {
    Pubkey { bytes: ID_BYTES }
}

/// The identity of this program.
pub fn id() -> (r: Pubkey)
    ensures
        r == program_id(),
{
    Pubkey { bytes: ID_BYTES }
}

/// Bootstraps the ledger: checks the addresses of the configuration, the mint
/// and the vault, then writes the configuration.
pub fn initialize(ctx: &mut Initialize) -> (res: Result<(), MvoteError>)
    ensures
        match res {
            Ok(()) => old(ctx).addresses_valid(program_id()@) && old(ctx).rejection() is None
                && *final(ctx) == old(ctx).after(),
            Err(e) => *final(ctx) == *old(ctx) && if old(ctx).addresses_valid(program_id()@) {
                old(ctx).rejection() == Some(e)
            } else {
                e == MvoteError::AddressMismatch
            },
        },
{
    if !ctx.check_addresses(&id()) {
        return Err(MvoteError::AddressMismatch);
    }
    instructions::initialize::handler(ctx)
}

/// Buys `amount` token units: checks the addresses of the configuration and
/// of the buyer's statistics, then runs the purchase.
pub fn purchase_tokens(ctx: &mut PurchaseTokens, amount: u64) -> (res: Result<(), MvoteError>)
    ensures
        match res {
            Ok(()) => old(ctx).addresses_valid(program_id()@) && old(ctx).rejection(amount) is None
                && *final(ctx) == old(ctx).after(amount),
            Err(e) => *final(ctx) == *old(ctx) && if old(ctx).addresses_valid(program_id()@) {
                old(ctx).rejection(amount) == Some(e)
            } else {
                e == MvoteError::AddressMismatch
            },
        },
{
    if !ctx.check_addresses(&id()) {
        return Err(MvoteError::AddressMismatch);
    }
    instructions::purchase_tokens::handler(ctx, amount)
}

/// Creates a poll: checks the addresses of the configuration, of the
/// creator's statistics and of the new poll, then runs the creation.
pub fn create_poll(
    ctx: &mut CreatePoll,
    question: String,
    options: Vec<String>,
    vote_mode: VoteMode,
    voting_style: VotingStyle,
    duration_minutes: u16,
) -> (res: Result<(), MvoteError>)
    ensures
        match res {
            Ok(()) => old(ctx)@.addresses_valid(program_id()@) && old(ctx)@.rejection(
                question@,
                texts(options@),
                duration_minutes,
            ) is None && final(ctx)@ == old(ctx)@.after(
                question@,
                texts(options@),
                vote_mode,
                voting_style,
                duration_minutes,
            ),
            Err(e) => *final(ctx) == *old(ctx) && if old(ctx)@.addresses_valid(program_id()@) {
                old(ctx)@.rejection(question@, texts(options@), duration_minutes) == Some(e)
            } else {
                e == MvoteError::AddressMismatch
            },
        },
{
    if !ctx.check_addresses(&id()) {
        return Err(MvoteError::AddressMismatch);
    }
    instructions::create_poll::handler(
        ctx,
        question,
        options,
        vote_mode,
        voting_style,
        duration_minutes,
    )
}

/// Casts a vote on poll `poll_id`: checks the addresses of the configuration,
/// of the voter's statistics, of the poll and of the receipt, then runs the
/// vote.
pub fn vote(ctx: &mut Vote, poll_id: u64, option_index: u8, token_amount: u64) -> (res: Result<
    (),
    MvoteError,
>)
    ensures
        match res {
            Ok(()) => old(ctx)@.addresses_valid(program_id()@, poll_id) && old(ctx)@.rejection(
                option_index,
                token_amount,
            ) is None && final(ctx)@ == old(ctx)@.after(poll_id, option_index, token_amount),
            Err(e) => *final(ctx) == *old(ctx) && if old(ctx)@.addresses_valid(
                program_id()@,
                poll_id,
            ) {
                old(ctx)@.rejection(option_index, token_amount) == Some(e)
            } else {
                e == MvoteError::AddressMismatch
            },
        },
{
    if !ctx.check_addresses(&id(), poll_id) {
        return Err(MvoteError::AddressMismatch);
    }
    instructions::vote::handler(ctx, poll_id, option_index, token_amount)
}

/// Closes poll `poll_id` for its creator: checks the address of the poll,
/// then runs the closing.
pub fn close_poll(ctx: &mut ClosePoll, poll_id: u64) -> (res: Result<(), MvoteError>)
    ensures
        match res {
            Ok(()) => old(ctx)@.addresses_valid(program_id()@, poll_id) && old(ctx)@.rejection()
                is None && final(ctx)@ == old(ctx)@.after(),
            Err(e) => *final(ctx) == *old(ctx) && if old(ctx)@.addresses_valid(
                program_id()@,
                poll_id,
            ) {
                old(ctx)@.rejection() == Some(e)
            } else {
                e == MvoteError::AddressMismatch
            },
        },
{
    if !ctx.check_addresses(&id(), poll_id) {
        return Err(MvoteError::AddressMismatch);
    }
    instructions::close_poll::handler(ctx, poll_id)
}

} // verus!
