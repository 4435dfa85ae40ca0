//! One-time minting of a milestone achievement token. All three checks —
//! known tier, enough karma, tier not yet claimed — pass before any external
//! work is planned; on success the tier's bit is set and the handler returns
//! the full plan of external calls as one unit, which the runtime shell
//! performs all-or-nothing: if any step fails, the whole transition,
//! bit included, is discarded.

use vstd::prelude::*;

use crate::constants::TOKEN_METADATA_PROGRAM_ID;
use crate::errors::VoixError;
use crate::events::MilestoneNftMinted;
use crate::pda::{
    derive_associated_token_address, derive_master_edition_address, derive_metadata_address,
    derive_mint_authority_address, derive_user_address, spec_associated_token_address,
    spec_master_edition_address, spec_metadata_address, spec_mint_authority_address,
    spec_user_address,
};
use crate::pubkey::Pubkey;
use crate::state::user_account::{
    required_karma, spec_is_claimed, spec_milestone_flag, spec_required_karma, valid_level,
    UserAccount,
};

verus! {

/// The accounts this transition names. The runtime has already checked that
/// `user` authorized the request with its signature; the mint is a fresh
/// account created by the transition itself.
pub struct MintMilestoneNft {
    /// The caller, who must own the user record.
    pub user: Pubkey,
    /// Where the supplied user record sits.
    pub user_account_address: Pubkey,
    /// The caller's record.
    pub user_account: UserAccount,
    /// The minting authority: a derived identity with no private key, whose
    /// signing capability is the derivation itself.
    pub mint_authority: Pubkey,
    /// The fresh asset being created.
    pub mint: Pubkey,
    /// The caller's holding account for the new asset.
    pub token_account: Pubkey,
    /// The metadata record of the new asset.
    pub metadata_account: Pubkey,
    /// The master-edition record of the new asset.
    pub master_edition_account: Pubkey,
    /// The metadata service itself.
    pub token_metadata_program: Pubkey,
}

/// Issue `amount` fresh units of `mint` into `to`, signed by the derived
/// authority.
pub struct MintOneToken {
    pub mint: Pubkey,
    pub to: Pubkey,
    pub authority: Pubkey,
    pub amount: u64,
}

/// Register the display metadata of `mint` with the metadata service.
pub struct RegisterMetadata {
    pub metadata_account: Pubkey,
    pub mint: Pubkey,
    pub authority: Pubkey,
    pub payer: Pubkey,
    pub name: String,
    pub symbol: String,
    pub uri: String,
    /// Royalty in basis points; always zero here.
    pub seller_fee_basis_points: u16,
}

/// Register the master-edition marker of `mint`, fixing its total supply at
/// a single unit.
pub struct FinalizeMasterEdition {
    pub master_edition_account: Pubkey,
    pub mint: Pubkey,
    pub authority: Pubkey,
    pub payer: Pubkey,
    pub max_supply: u64,
}

/// The external calls of one minting, an all-or-nothing unit for the
/// runtime shell. `authority_bump` completes the derivation proof with
/// which the program signs for its minting authority.
pub struct MintNftPlan {
    pub authority_bump: u8,
    pub mint_one: MintOneToken,
    pub metadata: RegisterMetadata,
    pub master_edition: FinalizeMasterEdition,
}

/// Every supplied account sits where its derivation says: the user record
/// under the caller, the minting authority under its static seed, the
/// holding account under caller and asset, and the metadata and
/// master-edition records under the asset at the metadata service, which
/// itself must be the well-known one.
pub open spec fn spec_accounts_valid(accounts: MintMilestoneNft) -> bool {
    &&& (match spec_user_address(accounts.user@) {
        Some((addr, _bump)) => accounts.user_account_address@ == addr,
        None => false,
    })
    &&& spec_mint_authority_address() matches Some((addr, _bump))
        && accounts.mint_authority@ == addr
    &&& (match spec_associated_token_address(accounts.user@, accounts.mint@) {
        Some((addr, _bump)) => accounts.token_account@ == addr,
        None => false,
    })
    &&& (match spec_metadata_address(accounts.mint@) {
        Some((addr, _bump)) => accounts.metadata_account@ == addr,
        None => false,
    })
    &&& (match spec_master_edition_address(accounts.mint@) {
        Some((addr, _bump)) => accounts.master_edition_account@ == addr,
        None => false,
    })
    &&& accounts.token_metadata_program@ == TOKEN_METADATA_PROGRAM_ID@
}

/// The three preconditions of a mint, checked in order after the account
/// derivations: known tier, enough karma, tier still unclaimed.
pub open spec fn spec_mint_allowed(account: UserAccount, milestone_level: u8) -> bool {
    &&& valid_level(milestone_level)
    &&& account.karma >= spec_required_karma(milestone_level)
    &&& !spec_is_claimed(account.minted_milestones, milestone_level)
}

/// Validates a milestone mint, sets the tier's bit, and returns the plan of
/// external calls with the event to emit. A rejected request leaves the
/// record unchanged, and no plan exists for it: no partial side effect
/// precedes the checks.
pub fn handler(
    accounts: &mut MintMilestoneNft,
    milestone_level: u8,
    name: String,
    symbol: String,
    uri: String,
    now: i64,
) -> (r: Result<(MintNftPlan, MilestoneNftMinted), VoixError>)
    ensures
        r is Ok <==> spec_accounts_valid(*old(accounts)) && spec_mint_allowed(
            old(accounts).user_account,
            milestone_level,
        ),
        final(accounts).user == old(accounts).user,
        final(accounts).user_account_address == old(accounts).user_account_address,
        final(accounts).mint_authority == old(accounts).mint_authority,
        final(accounts).mint == old(accounts).mint,
        final(accounts).token_account == old(accounts).token_account,
        final(accounts).metadata_account == old(accounts).metadata_account,
        final(accounts).master_edition_account == old(accounts).master_edition_account,
        final(accounts).token_metadata_program == old(accounts).token_metadata_program,
        final(accounts).user_account.user_pubkey == old(accounts).user_account.user_pubkey,
        final(accounts).user_account.karma == old(accounts).user_account.karma,
        final(accounts).user_account.total_sol_tipped == old(
            accounts,
        ).user_account.total_sol_tipped,
        (match r {
            Ok((plan, event)) => {
                &&& final(accounts).user_account.minted_milestones == old(
                    accounts,
                ).user_account.minted_milestones | spec_milestone_flag(milestone_level)
                &&& spec_is_claimed(
                    final(accounts).user_account.minted_milestones,
                    milestone_level,
                )
                &&& spec_mint_authority_address() == Some(
                    (old(accounts).mint_authority@, plan.authority_bump),
                )
                &&& plan.mint_one.mint@ == old(accounts).mint@
                &&& plan.mint_one.to@ == old(accounts).token_account@
                &&& plan.mint_one.authority@ == old(accounts).mint_authority@
                &&& plan.mint_one.amount == 1
                &&& plan.metadata.metadata_account@ == old(accounts).metadata_account@
                &&& plan.metadata.mint@ == old(accounts).mint@
                &&& plan.metadata.authority@ == old(accounts).mint_authority@
                &&& plan.metadata.payer@ == old(accounts).user@
                &&& plan.metadata.name@ == name@
                &&& plan.metadata.symbol@ == symbol@
                &&& plan.metadata.uri@ == uri@
                &&& plan.metadata.seller_fee_basis_points == 0
                &&& plan.master_edition.master_edition_account@ == old(
                    accounts,
                ).master_edition_account@
                &&& plan.master_edition.mint@ == old(accounts).mint@
                &&& plan.master_edition.authority@ == old(accounts).mint_authority@
                &&& plan.master_edition.payer@ == old(accounts).user@
                &&& plan.master_edition.max_supply == 1
                &&& event.user@ == old(accounts).user@
                &&& event.nft_mint@ == old(accounts).mint@
                &&& event.milestone_level == milestone_level
                &&& event.timestamp == now
            },
            Err(e) => {
                &&& final(accounts).user_account == old(accounts).user_account
                &&& e == (if !spec_accounts_valid(*old(accounts)) {
                    VoixError::Unauthorized
                } else if !valid_level(milestone_level) {
                    VoixError::InvalidMilestoneLevel
                } else if old(accounts).user_account.karma < spec_required_karma(
                    milestone_level,
                ) {
                    VoixError::InsufficientKarma
                } else {
                    VoixError::MilestoneAlreadyMinted
                })
            },
        }),
{
    match derive_user_address(&accounts.user) {
        Some((addr, _bump)) => {
            if !accounts.user_account_address.matches(&addr) {
                return Err(VoixError::Unauthorized);
            }
        },
        None => {
            return Err(VoixError::Unauthorized);
        },
    }
    let authority_bump: u8;
    match derive_mint_authority_address() {
        Some((addr, bump)) => {
            if !accounts.mint_authority.matches(&addr) {
                return Err(VoixError::Unauthorized);
            }
            authority_bump = bump;
        },
        None => {
            return Err(VoixError::Unauthorized);
        },
    }
    match derive_associated_token_address(&accounts.user, &accounts.mint) {
        Some((addr, _bump)) => {
            if !accounts.token_account.matches(&addr) {
                return Err(VoixError::Unauthorized);
            }
        },
        None => {
            return Err(VoixError::Unauthorized);
        },
    }
    match derive_metadata_address(&accounts.mint) {
        Some((addr, _bump)) => {
            if !accounts.metadata_account.matches(&addr) {
                return Err(VoixError::Unauthorized);
            }
        },
        None => {
            return Err(VoixError::Unauthorized);
        },
    }
    match derive_master_edition_address(&accounts.mint) {
        Some((addr, _bump)) => {
            if !accounts.master_edition_account.matches(&addr) {
                return Err(VoixError::Unauthorized);
            }
        },
        None => {
            return Err(VoixError::Unauthorized);
        },
    }
    let metadata_program = Pubkey::new_from_array(TOKEN_METADATA_PROGRAM_ID);
    if !accounts.token_metadata_program.matches(&metadata_program) {
        return Err(VoixError::Unauthorized);
    }
    if milestone_level < 1 || milestone_level > 3 {
        return Err(VoixError::InvalidMilestoneLevel);
    }
    if accounts.user_account.karma < required_karma(milestone_level) {
        return Err(VoixError::InsufficientKarma);
    }
    if accounts.user_account.is_claimed(milestone_level) {
        return Err(VoixError::MilestoneAlreadyMinted);
    }
    accounts.user_account.claim(milestone_level);
    let plan = MintNftPlan {
        authority_bump,
        mint_one: MintOneToken {
            mint: accounts.mint,
            to: accounts.token_account,
            authority: accounts.mint_authority,
            amount: 1,
        },
        metadata: RegisterMetadata {
            metadata_account: accounts.metadata_account,
            mint: accounts.mint,
            authority: accounts.mint_authority,
            payer: accounts.user,
            name,
            symbol,
            uri,
            seller_fee_basis_points: 0,
        },
        master_edition: FinalizeMasterEdition {
            master_edition_account: accounts.master_edition_account,
            mint: accounts.mint,
            authority: accounts.mint_authority,
            payer: accounts.user,
            max_supply: 1,
        },
    };
    let event = MilestoneNftMinted {
        user: accounts.user,
        nft_mint: accounts.mint,
        milestone_level,
        timestamp: now,
    };
    Ok((plan, event))
}

} // verus!
