//! Self-service creation of a user record, keyed to the caller, with every
//! counter at its default.

use vstd::prelude::*;

use crate::errors::VoixError;
use crate::events::UserInitialized;
use crate::pda::{derive_user_address, spec_user_address};
use crate::pubkey::Pubkey;
use crate::state::user_account::UserAccount;

verus! {

/// The accounts this transition names. The runtime has already checked that
/// `user` authorized the request with its signature.
pub struct InitializeUser {
    /// The caller, owner of the new record.
    pub user: Pubkey,
    /// Where the user record is to be created.
    pub user_account_address: Pubkey,
}

/// The supplied account sits at the address derived from the caller.
pub open spec fn spec_accounts_valid(accounts: InitializeUser) -> bool {
    match spec_user_address(accounts.user@) {
        Some((addr, _bump)) => accounts.user_account_address@ == addr,
        None => false,
    }
}

/// Builds the fresh user record and the event announcing it, rejecting an
/// account that does not sit at the caller's derived address. The runtime
/// creates the record there and fails the whole transition if one already
/// exists.
pub fn handler(accounts: &InitializeUser, now: i64) -> (r: Result<
    (UserAccount, UserInitialized),
    VoixError,
>)
    ensures
        r is Ok <==> spec_accounts_valid(*accounts),
        (match r {
            Ok((account, event)) => {
                &&& account.user_pubkey@ == accounts.user@
                &&& account.karma == 0
                &&& account.minted_milestones == 0
                &&& account.total_sol_tipped == 0
                &&& event.user@ == accounts.user@
                &&& event.timestamp == now
            },
            Err(e) => e == VoixError::Unauthorized,
        }),
{
    match derive_user_address(&accounts.user) {
        Some((addr, _bump)) => {
            if !accounts.user_account_address.matches(&addr) {
                return Err(VoixError::Unauthorized);
            }
        },
        None => {
            return Err(VoixError::Unauthorized);
        },
    }
    let account = UserAccount {
        user_pubkey: accounts.user,
        karma: 0,
        minted_milestones: 0,
        total_sol_tipped: 0,
    };
    let event = UserInitialized { user: accounts.user, timestamp: now };
    Ok((account, event))
}

} // verus!
