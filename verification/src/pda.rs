//! Deterministic address derivation. Every record the program trusts sits at
//! an address derived from static seed bytes (and, for per-user records, the
//! owner's address) under a fixed program id, so each handler re-derives the
//! address and rejects a request that supplies an account anywhere else.
//!
//! The derivation itself is a SHA-256-based digest computed by the ledger
//! runtime's library; its result is named by an uninterpreted spec function,
//! and everything the handlers conclude from it rests on its determinism.

use vstd::prelude::*;

use crate::constants::{
    ASSOCIATED_TOKEN_PROGRAM_ID, CONFIG_SEED, EDITION_SEED, METADATA_SEED, MINT_AUTHORITY_SEED,
    PROGRAM_ID, TOKEN_METADATA_PROGRAM_ID, TOKEN_PROGRAM_ID, USER_SEED,
};
use crate::pubkey::Pubkey;

verus! {

/// The address and bump that `Pubkey::try_find_program_address` derives from
/// a program id and seed bytes, or `None` in the statistically improbable
/// event that no bump yields a valid derived address (or a seed is over the
/// runtime's length limits). The result is a digest of the arguments alone.
pub uninterp spec fn spec_find_program_address(
    program_id: Seq<u8>,
    seeds: Seq<Seq<u8>>,
) -> Option<(Seq<u8>, u8)>;

/// The byte sequences held by a sequence of seed buffers.
pub open spec fn seeds_view(seeds: Seq<Vec<u8>>) -> Seq<Seq<u8>> {
    Seq::new(seeds.len(), |i: int| seeds[i]@)
}

/// Relies on `anchor_lang::prelude::Pubkey::try_find_program_address`
/// (solana-address): a deterministic SHA-256 digest of the seeds, a bump
/// byte searched downward from 255, and the program id; `None` comes back
/// only when no bump gives an off-curve address or a precondition on seed
/// count or length fails. Its result depends on the arguments alone.
#[verifier::external_body]
fn find_program_address(seeds: &Vec<Vec<u8>>, program_id: &Pubkey) -> (r: Option<(Pubkey, u8)>)
    ensures
        (match r {
            Some((addr, bump)) => spec_find_program_address(program_id@, seeds_view(seeds@))
                == Some((addr@, bump)),
            None => spec_find_program_address(program_id@, seeds_view(seeds@)) is None,
        }),
{
    let ext_id = anchor_lang::prelude::Pubkey::new_from_array(program_id.bytes);
    let slices: std::vec::Vec<&[u8]> = seeds.iter().map(|s| s.as_slice()).collect();
    anchor_lang::prelude::Pubkey::try_find_program_address(&slices, &ext_id)
        .map(|(addr, bump)| (Pubkey { bytes: addr.to_bytes() }, bump))
}

/// Copies a seed slice into an owned buffer.
fn seed_buf(s: &[u8]) -> (v: Vec<u8>)
    ensures
        v@ == s@,
{
    let mut v: Vec<u8> = Vec::new();
    let mut i: usize = 0;
    while i < s.len()
        invariant
            i <= s@.len(),
            v@ == s@.subrange(0, i as int),
        decreases s@.len() - i,
    {
        v.push(s[i]);
        assert(v@ =~= s@.subrange(0, i + 1));
        i += 1;
    }
    assert(v@ =~= s@);
    v
}

// --- The derived addresses the handlers check ---

/// Where the global configuration record must sit.
pub open spec fn spec_config_address() -> Option<(Seq<u8>, u8)> {
    spec_find_program_address(PROGRAM_ID@, seq![CONFIG_SEED@])
}

pub fn derive_config_address() -> (r: Option<(Pubkey, u8)>)
    ensures
        (match r {
            Some((addr, bump)) => spec_config_address() == Some((addr@, bump)),
            None => spec_config_address() is None,
        }),
{
    let mut seeds: Vec<Vec<u8>> = Vec::new();
    seeds.push(seed_buf(&CONFIG_SEED));
    let pid = Pubkey::new_from_array(PROGRAM_ID);
    let r = find_program_address(&seeds, &pid);
    proof {
        assert(seeds_view(seeds@) =~= seq![CONFIG_SEED@]);
    }
    r
}

/// Where the record of the user owned by `owner` must sit.
pub open spec fn spec_user_address(owner: Seq<u8>) -> Option<(Seq<u8>, u8)> {
    spec_find_program_address(PROGRAM_ID@, seq![USER_SEED@, owner])
}

pub fn derive_user_address(owner: &Pubkey) -> (r: Option<(Pubkey, u8)>)
    ensures
        (match r {
            Some((addr, bump)) => spec_user_address(owner@) == Some((addr@, bump)),
            None => spec_user_address(owner@) is None,
        }),
{
    let mut seeds: Vec<Vec<u8>> = Vec::new();
    seeds.push(seed_buf(&USER_SEED));
    seeds.push(seed_buf(&owner.bytes));
    let pid = Pubkey::new_from_array(PROGRAM_ID);
    let r = find_program_address(&seeds, &pid);
    proof {
        assert(seeds_view(seeds@) =~= seq![USER_SEED@, owner@]);
    }
    r
}

/// Where the minting authority sits: a derived identity with no private key,
/// whose signing capability is the derivation itself.
pub open spec fn spec_mint_authority_address() -> Option<(Seq<u8>, u8)> {
    spec_find_program_address(PROGRAM_ID@, seq![MINT_AUTHORITY_SEED@])
}

pub fn derive_mint_authority_address() -> (r: Option<(Pubkey, u8)>)
    ensures
        (match r {
            Some((addr, bump)) => spec_mint_authority_address() == Some((addr@, bump)),
            None => spec_mint_authority_address() is None,
        }),
{
    let mut seeds: Vec<Vec<u8>> = Vec::new();
    seeds.push(seed_buf(&MINT_AUTHORITY_SEED));
    let pid = Pubkey::new_from_array(PROGRAM_ID);
    let r = find_program_address(&seeds, &pid);
    proof {
        assert(seeds_view(seeds@) =~= seq![MINT_AUTHORITY_SEED@]);
    }
    r
}

/// The canonical holding account of `owner` for the asset `mint`: derived
/// under the holding-account service from the owner, the token service and
/// the asset.
pub open spec fn spec_associated_token_address(owner: Seq<u8>, mint: Seq<u8>) -> Option<
    (Seq<u8>, u8),
> {
    spec_find_program_address(
        ASSOCIATED_TOKEN_PROGRAM_ID@,
        seq![owner, TOKEN_PROGRAM_ID@, mint],
    )
}

pub fn derive_associated_token_address(owner: &Pubkey, mint: &Pubkey) -> (r: Option<
    (Pubkey, u8),
>)
    ensures
        (match r {
            Some((addr, bump)) => spec_associated_token_address(owner@, mint@)
                == Some((addr@, bump)),
            None => spec_associated_token_address(owner@, mint@) is None,
        }),
{
    let mut seeds: Vec<Vec<u8>> = Vec::new();
    seeds.push(seed_buf(&owner.bytes));
    seeds.push(seed_buf(&TOKEN_PROGRAM_ID));
    seeds.push(seed_buf(&mint.bytes));
    let pid = Pubkey::new_from_array(ASSOCIATED_TOKEN_PROGRAM_ID);
    let r = find_program_address(&seeds, &pid);
    proof {
        assert(seeds_view(seeds@) =~= seq![owner@, TOKEN_PROGRAM_ID@, mint@]);
    }
    r
}

/// Where the metadata record of the asset `mint` must sit, under the
/// metadata service.
pub open spec fn spec_metadata_address(mint: Seq<u8>) -> Option<(Seq<u8>, u8)> {
    spec_find_program_address(
        TOKEN_METADATA_PROGRAM_ID@,
        seq![METADATA_SEED@, TOKEN_METADATA_PROGRAM_ID@, mint],
    )
}

pub fn derive_metadata_address(mint: &Pubkey) -> (r: Option<(Pubkey, u8)>)
    ensures
        (match r {
            Some((addr, bump)) => spec_metadata_address(mint@) == Some((addr@, bump)),
            None => spec_metadata_address(mint@) is None,
        }),
{
    let mut seeds: Vec<Vec<u8>> = Vec::new();
    seeds.push(seed_buf(&METADATA_SEED));
    seeds.push(seed_buf(&TOKEN_METADATA_PROGRAM_ID));
    seeds.push(seed_buf(&mint.bytes));
    let pid = Pubkey::new_from_array(TOKEN_METADATA_PROGRAM_ID);
    let r = find_program_address(&seeds, &pid);
    proof {
        assert(seeds_view(seeds@) =~= seq![METADATA_SEED@, TOKEN_METADATA_PROGRAM_ID@, mint@]);
    }
    r
}

/// Where the master-edition record of the asset `mint` must sit, under the
/// metadata service.
pub open spec fn spec_master_edition_address(mint: Seq<u8>) -> Option<(Seq<u8>, u8)> {
    spec_find_program_address(
        TOKEN_METADATA_PROGRAM_ID@,
        seq![METADATA_SEED@, TOKEN_METADATA_PROGRAM_ID@, mint, EDITION_SEED@],
    )
}

pub fn derive_master_edition_address(mint: &Pubkey) -> (r: Option<(Pubkey, u8)>)
    ensures
        (match r {
            Some((addr, bump)) => spec_master_edition_address(mint@) == Some((addr@, bump)),
            None => spec_master_edition_address(mint@) is None,
        }),
{
    let mut seeds: Vec<Vec<u8>> = Vec::new();
    seeds.push(seed_buf(&METADATA_SEED));
    seeds.push(seed_buf(&TOKEN_METADATA_PROGRAM_ID));
    seeds.push(seed_buf(&mint.bytes));
    seeds.push(seed_buf(&EDITION_SEED));
    let pid = Pubkey::new_from_array(TOKEN_METADATA_PROGRAM_ID);
    let r = find_program_address(&seeds, &pid);
    proof {
        assert(seeds_view(seeds@) =~= seq![
            METADATA_SEED@,
            TOKEN_METADATA_PROGRAM_ID@,
            mint@,
            EDITION_SEED@,
        ]);
    }
    r
}

} // verus!
