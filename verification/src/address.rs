//! Identities and derived addresses.
//!
//! Every record lives at an address computed from a role tag and the bytes of
//! its logical key. The derivation also yields a nonce, which is stored with
//! the record and checked again whenever the record is presented.

use vstd::prelude::*;
use vstd::slice::slice_to_vec;
use crate::constants::{CONFIG_SEED, MINT_SEED, POLL_SEED, USER_SEED, VAULT_SEED, VOTE_SEED};

verus! {

/// A 32-byte identity: a user, a program, or the location of a record.
#[derive(Clone, Copy, Debug, Eq)]
pub struct Pubkey {
    pub bytes: [u8; 32],
}

impl View for Pubkey {
    type V = Seq<u8>;

    open spec fn view(&self) -> Seq<u8> {
        self.bytes@
    }
}

impl PartialEq for Pubkey {
    fn eq(&self, other: &Self) -> (r: bool) {
        let mut i: usize = 0;
        while i < 32
            invariant
                i <= 32,
                forall|j: int| 0 <= j < i ==> self.bytes[j] == other.bytes[j],
            decreases 32 - i,
        {
            if self.bytes[i] != other.bytes[i] {
                return false;
            }
            i = i + 1;
        }
        assert(self.bytes =~= other.bytes);
        true
    }
}

impl vstd::std_specs::cmp::PartialEqSpecImpl for Pubkey {
    open spec fn obeys_eq_spec() -> bool {
        true
    }

    open spec fn eq_spec(&self, other: &Self) -> bool {
        self.bytes == other.bytes
    }
}

impl Default for Pubkey {
    /// The all-zero identity.
    fn default() -> (r: Self)
        ensures
            r@ == Seq::new(32, |i: int| 0u8),
    {
        let r = Pubkey { bytes: [0u8; 32] };
        assert(r@ =~= Seq::new(32, |i: int| 0u8));
        r
    }
}

impl Pubkey {
    /// The identity with the given bytes.
    pub fn new_from_array(bytes: [u8; 32]) -> (r: Self)
        ensures
            r.bytes == bytes,
    {
        Pubkey { bytes }
    }

    /// The bytes of the identity.
    pub fn to_bytes(&self) -> (r: [u8; 32])
        ensures
            r == self.bytes,
    {
        self.bytes
    }
}

/// Two identities are the same exactly when their bytes are.
pub proof fn lemma_pubkey_extensional(a: Pubkey, b: Pubkey)
    ensures
        (a == b) <==> (a@ == b@),
        a@.len() == 32,
{
    if a@ == b@ {
        assert forall|i: int| 0 <= i < 32 implies a.bytes[i] == b.bytes[i] by {
            assert(a@[i] == b@[i]);
        }
        assert(a.bytes =~= b.bytes);
    }
}

/// What `Pubkey::try_find_program_address` of `anchor_lang` (the address type
/// of `solana-address`) returns for the given seeds and program identity: the
/// derived address and its nonce, or `None` where it finds none.
pub uninterp spec fn program_address(seeds: Seq<Seq<u8>>, program_id: Seq<u8>) -> Option<
    (Seq<u8>, u8),
>;

/// The seeds as byte sequences.
pub open spec fn seeds_view(seeds: &Vec<Vec<u8>>) -> Seq<Seq<u8>> {
    Seq::new(seeds@.len(), |i: int| seeds@[i]@)
}

/// The view of a derivation result.
pub open spec fn found_view(found: Option<(Pubkey, u8)>) -> Option<(Seq<u8>, u8)> {
    match found {
        Some((address, bump)) => Some((address@, bump)),
        None => None,
    }
}

/// Calls `anchor_lang::prelude::Pubkey::try_find_program_address`, which
/// hashes the seeds, a nonce and the program identity, starting from nonce 255
/// and counting down until the hash is no curve point. The contract claims
/// only that the result is a function of the seeds and the program identity;
/// it may be `None`.
#[verifier::external_body]
fn try_find_program_address(seeds: &Vec<Vec<u8>>, program_id: &Pubkey) -> (found: Option<
    (Pubkey, u8),
>)
    ensures
        found_view(found) == program_address(seeds_view(seeds), program_id@),
{
    let slices: Vec<&[u8]> = seeds.iter().map(|seed| seed.as_slice()).collect();
    let id = anchor_lang::prelude::Pubkey::new_from_array(program_id.bytes);
    anchor_lang::prelude::Pubkey::try_find_program_address(&slices, &id).map(
        |(address, bump)| (Pubkey { bytes: address.to_bytes() }, bump),
    )
}

/// Seeds of the singleton configuration record.
pub open spec fn config_seeds() -> Seq<Seq<u8>> {
    seq![CONFIG_SEED@]
}

/// Seeds of the token mint.
pub open spec fn mint_seeds() -> Seq<Seq<u8>> {
    seq![MINT_SEED@]
}

/// Seeds of the settlement vault.
pub open spec fn vault_seeds() -> Seq<Seq<u8>> {
    seq![VAULT_SEED@]
}

/// Seeds of the statistics record of `user`.
pub open spec fn user_seeds(user: Seq<u8>) -> Seq<Seq<u8>> {
    seq![USER_SEED@, user]
}

/// Seeds of the poll with ordinal `poll_id`: the tag, then the ordinal in
/// little-endian bytes.
pub open spec fn poll_seeds(poll_id: u64) -> Seq<Seq<u8>> {
    seq![POLL_SEED@, vstd::bytes::spec_u64_to_le_bytes(poll_id)]
}

/// Seeds of the receipt of `voter`'s vote on poll `poll_id`.
pub open spec fn vote_seeds(poll_id: u64, voter: Seq<u8>) -> Seq<Seq<u8>> {
    seq![VOTE_SEED@, vstd::bytes::spec_u64_to_le_bytes(poll_id), voter]
}

/// The address derived from `seeds` under `program_id`, with its nonce.
pub fn find_address(seeds: &Vec<Vec<u8>>, program_id: &Pubkey) -> (found: Option<(Pubkey, u8)>)
    ensures
        found_view(found) == program_address(seeds_view(seeds), program_id@),
{
    try_find_program_address(seeds, program_id)
}

/// Whether a derivation result is exactly the address `key` with nonce `bump`.
pub fn is_derivation(found: Option<(Pubkey, u8)>, key: &Pubkey, bump: u8) -> (ok: bool)
    ensures
        ok == (found_view(found) == Some((key@, bump))),
{
    match found {
        Some((address, found_bump)) => {
            proof {
                lemma_pubkey_extensional(address, *key);
            }
            address == *key && found_bump == bump
        },
        None => false,
    }
}

/// Whether a derivation result is the address `key`, whatever its nonce.
pub fn is_derived_address(found: Option<(Pubkey, u8)>, key: &Pubkey) -> (ok: bool)
    ensures
        ok == (found_view(found) matches Some((address, _)) && address == key@),
{
    match found {
        Some((address, _)) => {
            proof {
                lemma_pubkey_extensional(address, *key);
            }
            address == *key
        },
        None => false,
    }
}

/// Address and nonce of the singleton configuration record.
pub fn config_address(program_id: &Pubkey) -> (found: Option<(Pubkey, u8)>)
    ensures
        found_view(found) == program_address(config_seeds(), program_id@),
{
    let mut seeds: Vec<Vec<u8>> = Vec::new();
    seeds.push(slice_to_vec(CONFIG_SEED.as_slice()));
    assert(seeds_view(&seeds) =~= config_seeds());
    find_address(&seeds, program_id)
}

/// Address and nonce of the token mint.
pub fn mint_address(program_id: &Pubkey) -> (found: Option<(Pubkey, u8)>)
    ensures
        found_view(found) == program_address(mint_seeds(), program_id@),
{
    let mut seeds: Vec<Vec<u8>> = Vec::new();
    seeds.push(slice_to_vec(MINT_SEED.as_slice()));
    assert(seeds_view(&seeds) =~= mint_seeds());
    find_address(&seeds, program_id)
}

/// Address and nonce of the settlement vault.
pub fn vault_address(program_id: &Pubkey) -> (found: Option<(Pubkey, u8)>)
    ensures
        found_view(found) == program_address(vault_seeds(), program_id@),
{
    let mut seeds: Vec<Vec<u8>> = Vec::new();
    seeds.push(slice_to_vec(VAULT_SEED.as_slice()));
    assert(seeds_view(&seeds) =~= vault_seeds());
    find_address(&seeds, program_id)
}

/// Address and nonce of the statistics record of `user`.
pub fn user_address(program_id: &Pubkey, user: &Pubkey) -> (found: Option<(Pubkey, u8)>)
    ensures
        found_view(found) == program_address(user_seeds(user@), program_id@),
{
    let mut seeds: Vec<Vec<u8>> = Vec::new();
    seeds.push(slice_to_vec(USER_SEED.as_slice()));
    seeds.push(slice_to_vec(user.bytes.as_slice()));
    assert(seeds_view(&seeds) =~= user_seeds(user@));
    find_address(&seeds, program_id)
}

/// Address and nonce of the poll with ordinal `poll_id`.
pub fn poll_address(program_id: &Pubkey, poll_id: u64) -> (found: Option<(Pubkey, u8)>)
    ensures
        found_view(found) == program_address(poll_seeds(poll_id), program_id@),
{
    let mut seeds: Vec<Vec<u8>> = Vec::new();
    seeds.push(slice_to_vec(POLL_SEED.as_slice()));
    seeds.push(vstd::bytes::u64_to_le_bytes(poll_id));
    assert(seeds_view(&seeds) =~= poll_seeds(poll_id));
    find_address(&seeds, program_id)
}

/// Address and nonce of the receipt of `voter`'s vote on poll `poll_id`.
pub fn vote_address(program_id: &Pubkey, poll_id: u64, voter: &Pubkey) -> (found: Option<
    (Pubkey, u8),
>)
    ensures
        found_view(found) == program_address(vote_seeds(poll_id, voter@), program_id@),
{
    let mut seeds: Vec<Vec<u8>> = Vec::new();
    seeds.push(slice_to_vec(VOTE_SEED.as_slice()));
    seeds.push(vstd::bytes::u64_to_le_bytes(poll_id));
    seeds.push(slice_to_vec(voter.bytes.as_slice()));
    assert(seeds_view(&seeds) =~= vote_seeds(poll_id, voter@));
    find_address(&seeds, program_id)
}

} // verus!
