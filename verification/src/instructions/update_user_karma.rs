//! Admin-only overwrite of a user's karma score. The backend may correct a
//! score in either direction, so no monotonicity holds here.

use vstd::prelude::*;

use crate::errors::VoixError;
use crate::events::KarmaUpdated;
use crate::pda::{
    derive_config_address, derive_user_address, spec_config_address, spec_user_address,
};
use crate::pubkey::Pubkey;
use crate::state::global_config::GlobalConfig;
use crate::state::user_account::UserAccount;

verus! {

/// The accounts this transition names. The runtime has already checked that
/// `admin` authorized the request with its signature; `user_to_update` is a
/// plain address, not a signer.
pub struct UpdateUserKarma {
    /// The caller.
    pub admin: Pubkey,
    /// Where the supplied configuration record sits.
    pub global_config_address: Pubkey,
    /// The configuration record itself.
    pub global_config: GlobalConfig,
    /// Where the supplied user record sits.
    pub user_account_address: Pubkey,
    /// The record of the user being updated.
    pub user_account: UserAccount,
    /// The address of the user being updated.
    pub user_to_update: Pubkey,
}

/// The configuration record sits at its derived address and names the
/// caller as admin, and the user record sits at the address derived from
/// the target user.
pub open spec fn spec_accounts_valid(accounts: UpdateUserKarma) -> bool {
    &&& (match spec_config_address() {
        Some((addr, _bump)) => accounts.global_config_address@ == addr,
        None => false,
    })
    &&& accounts.global_config.admin@ == accounts.admin@
    &&& (match spec_user_address(accounts.user_to_update@) {
        Some((addr, _bump)) => accounts.user_account_address@ == addr,
        None => false,
    })
}

/// Overwrites the target user's karma, accepted only from the admin; a
/// rejected request leaves the record unchanged.
pub fn handler(accounts: &mut UpdateUserKarma, new_karma: u32, now: i64) -> (r: Result<
    KarmaUpdated,
    VoixError,
>)
    ensures
        r is Ok <==> spec_accounts_valid(*old(accounts)),
        final(accounts).admin == old(accounts).admin,
        final(accounts).global_config_address == old(accounts).global_config_address,
        final(accounts).global_config == old(accounts).global_config,
        final(accounts).user_account_address == old(accounts).user_account_address,
        final(accounts).user_to_update == old(accounts).user_to_update,
        final(accounts).user_account.user_pubkey == old(accounts).user_account.user_pubkey,
        final(accounts).user_account.minted_milestones == old(
            accounts,
        ).user_account.minted_milestones,
        final(accounts).user_account.total_sol_tipped == old(
            accounts,
        ).user_account.total_sol_tipped,
        (match r {
            Ok(event) => {
                &&& final(accounts).user_account.karma == new_karma
                &&& event.user@ == old(accounts).user_account.user_pubkey@
                &&& event.new_karma == new_karma
                &&& event.admin@ == old(accounts).admin@
                &&& event.timestamp == now
            },
            Err(e) => {
                &&& final(accounts).user_account == old(accounts).user_account
                &&& e == VoixError::Unauthorized
            },
        }),
{
    match derive_config_address() {
        Some((addr, _bump)) => {
            if !accounts.global_config_address.matches(&addr) {
                return Err(VoixError::Unauthorized);
            }
        },
        None => {
            return Err(VoixError::Unauthorized);
        },
    }
    if !accounts.global_config.admin.matches(&accounts.admin) {
        return Err(VoixError::Unauthorized);
    }
    match derive_user_address(&accounts.user_to_update) {
        Some((addr, _bump)) => {
            if !accounts.user_account_address.matches(&addr) {
                return Err(VoixError::Unauthorized);
            }
        },
        None => {
            return Err(VoixError::Unauthorized);
        },
    }
    accounts.user_account.karma = new_karma;
    let event = KarmaUpdated {
        user: accounts.user_account.user_pubkey,
        new_karma,
        admin: accounts.admin,
        timestamp: now,
    };
    Ok(event)
}

} // verus!
