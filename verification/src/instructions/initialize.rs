//! Bootstrap: writing the configuration, once.

use vstd::prelude::*;
use crate::address::{
    config_address, config_seeds, is_derivation, is_derived_address, mint_address, mint_seeds,
    program_address, vault_address, vault_seeds, Pubkey,
};
use crate::errors::MvoteError;
use crate::state::Config;

verus! {

/// Nonces of the records that bootstrap creates.
#[derive(Clone, Copy, Debug, PartialEq, Eq, Structural)]
pub struct InitializeBumps {
    /// Nonce of the configuration record.
    pub config: u8,
}

/// What bootstrap reads and writes.
#[derive(Clone, Copy, Debug, PartialEq, Eq)]
pub struct Initialize {
    /// Who bootstraps the ledger and becomes its admin.
    pub admin: Pubkey,
    /// Address of the configuration record.
    pub config_key: Pubkey,
    /// The configuration; `None` until bootstrap.
    pub config: Option<Config>,
    /// Address of the token mint, over which the configuration has authority.
    pub token_mint: Pubkey,
    /// Address of the settlement vault.
    pub sol_vault: Pubkey,
    /// Nonces of the records to create.
    pub bumps: InitializeBumps,
}

impl Initialize {
    /// Why bootstrap is rejected, if it is: there is a configuration already.
    pub open spec fn rejection(self) -> Option<MvoteError> {
        if self.config is Some {
            Some(MvoteError::AlreadyInitialized)
        } else {
            None
        }
    }

    /// The state after an accepted bootstrap: the configuration holds the
    /// admin, the mint, the vault and the fixed economics, and counts no poll.
    pub open spec fn after(self) -> Initialize {
        Initialize {
            config: Some(
                Config::initial(self.admin, self.token_mint, self.sol_vault, self.bumps.config),
            ),
            ..self
        }
    }

    /// The nonce that the configuration has or, as long as there is none, will
    /// get.
    pub open spec fn config_bump(self) -> u8 {
        match self.config {
            Some(config) => config.bump,
            None => self.bumps.config,
        }
    }

    /// The configuration, the mint and the vault are presented at the
    /// addresses derived from their tags under `program_id`, the
    /// configuration with the nonce of its derivation.
    pub open spec fn addresses_valid(self, program_id: Seq<u8>) -> bool {
        &&& program_address(config_seeds(), program_id) == Some(
            (self.config_key@, self.config_bump()),
        )
        &&& program_address(mint_seeds(), program_id) matches Some((address, _))
            && address == self.token_mint@
        &&& program_address(vault_seeds(), program_id) matches Some((address, _))
            && address == self.sol_vault@
    }

    /// Derives the addresses again and compares them, and the nonce of the
    /// configuration, with what is presented.
    pub fn check_addresses(&self, program_id: &Pubkey) -> (ok: bool)
        ensures
            ok == self.addresses_valid(program_id@),
    {
        let config_bump = match self.config {
            Some(config) => config.bump,
            None => self.bumps.config,
        };
        is_derivation(config_address(program_id), &self.config_key, config_bump)
            && is_derived_address(mint_address(program_id), &self.token_mint)
            && is_derived_address(vault_address(program_id), &self.sol_vault)
    }
}

/// Writes the configuration: the admin, the mint, the vault, the fixed
/// economics and a poll count of zero. Where a configuration exists already
/// bootstrap is rejected and changes nothing.
pub fn handler(ctx: &mut Initialize) -> (res: Result<(), MvoteError>)
    ensures
        match res {
            Ok(()) => old(ctx).rejection() is None && *final(ctx) == old(ctx).after(),
            Err(e) => old(ctx).rejection() == Some(e) && *final(ctx) == *old(ctx),
        },
{
    if ctx.config.is_some() {
        return Err(MvoteError::AlreadyInitialized);
    }
    ctx.config = Some(
        Config {
            admin: ctx.admin,
            token_mint: ctx.token_mint,
            sol_vault: ctx.sol_vault,
            sol_usd_rate: crate::constants::SOL_USD_RATE,
            tokens_per_usd: crate::constants::TOKENS_PER_USD,
            daily_purchase_limit: crate::constants::DAILY_PURCHASE_LIMIT,
            poll_creation_cost: crate::constants::POLL_CREATION_COST,
            vote_cost: crate::constants::VOTE_COST,
            total_polls_created: 0,
            bump: ctx.bumps.config,
        },
    );
    Ok(())
}

/// Bootstrap happens once: after an accepted bootstrap every other one that
/// is presented with the configuration it wrote is rejected.
pub proof fn lemma_bootstrap_once(first: Initialize, second: Initialize)
    requires
        first.rejection() is None,
        second.config == first.after().config,
    ensures
        second.rejection() == Some(MvoteError::AlreadyInitialized),
{
}

} // verus!
