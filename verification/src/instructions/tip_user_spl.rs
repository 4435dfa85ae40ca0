//! A tip in a fungible token. The value moves between the canonical holding
//! accounts of tipper and receiver for the chosen asset; the receiver's
//! holding account is created on demand by the runtime shell if it does not
//! exist yet. This path leaves the receiver's cumulative native counter
//! untouched: only native-value tips are accounted there.

use vstd::prelude::*;

use crate::errors::VoixError;
use crate::events::UserTipped;
use crate::pda::{
    derive_associated_token_address, derive_user_address, spec_associated_token_address,
    spec_user_address,
};
use crate::pubkey::Pubkey;
use crate::state::user_account::UserAccount;

verus! {

/// The accounts this transition names. The runtime has already checked that
/// `tipper` authorized the request with its signature.
pub struct TipUserSpl {
    /// The caller, who pays the tip.
    pub tipper: Pubkey,
    /// The address receiving the tip.
    pub receiver: Pubkey,
    /// Where the supplied receiver record sits.
    pub receiver_account_address: Pubkey,
    /// The receiver's record.
    pub receiver_account: UserAccount,
    /// The asset being tipped.
    pub mint: Pubkey,
    /// The tipper's holding account for the asset.
    pub tipper_token_account: Pubkey,
    /// The receiver's holding account for the asset; created on demand.
    pub receiver_token_account: Pubkey,
}

/// A token movement for the fungible-token service, authorized by the
/// tipper's own signature.
#[derive(Clone, Copy, Debug)]
pub struct SplTransfer {
    pub from: Pubkey,
    pub to: Pubkey,
    pub authority: Pubkey,
    pub amount: u64,
}

/// The receiver record sits at the address derived from the receiver and
/// names that receiver as owner, and each holding account is the canonical
/// one for its owner and the asset.
pub open spec fn spec_accounts_valid(accounts: TipUserSpl) -> bool {
    &&& (match spec_user_address(accounts.receiver@) {
        Some((addr, _bump)) => accounts.receiver_account_address@ == addr,
        None => false,
    })
    &&& accounts.receiver@ == accounts.receiver_account.user_pubkey@
    &&& (match spec_associated_token_address(accounts.tipper@, accounts.mint@) {
        Some((addr, _bump)) => accounts.tipper_token_account@ == addr,
        None => false,
    })
    &&& (match spec_associated_token_address(accounts.receiver@, accounts.mint@) {
        Some((addr, _bump)) => accounts.receiver_token_account@ == addr,
        None => false,
    })
}

/// Validates a token tip and returns the transfer to perform with the event
/// to emit. No record changes on this path; a zero amount or a mismatched
/// account rejects the request.
pub fn handler(accounts: &TipUserSpl, amount: u64, now: i64) -> (r: Result<
    (SplTransfer, UserTipped),
    VoixError,
>)
    ensures
        r is Ok <==> spec_accounts_valid(*accounts) && amount > 0,
        (match r {
            Ok((transfer, event)) => {
                &&& transfer.from@ == accounts.tipper_token_account@
                &&& transfer.to@ == accounts.receiver_token_account@
                &&& transfer.authority@ == accounts.tipper@
                &&& transfer.amount == amount
                &&& event.tipper@ == accounts.tipper@
                &&& event.receiver@ == accounts.receiver@
                &&& event.amount == amount
                &&& (match event.mint {
                    Some(m) => m@ == accounts.mint@,
                    None => false,
                })
                &&& event.timestamp == now
            },
            Err(e) => e == (if !spec_accounts_valid(*accounts) {
                VoixError::Unauthorized
            } else {
                VoixError::InvalidTipAmount
            }),
        }),
{
    match derive_user_address(&accounts.receiver) {
        Some((addr, _bump)) => {
            if !accounts.receiver_account_address.matches(&addr) {
                return Err(VoixError::Unauthorized);
            }
        },
        None => {
            return Err(VoixError::Unauthorized);
        },
    }
    if !accounts.receiver.matches(&accounts.receiver_account.user_pubkey) {
        return Err(VoixError::Unauthorized);
    }
    match derive_associated_token_address(&accounts.tipper, &accounts.mint) {
        Some((addr, _bump)) => {
            if !accounts.tipper_token_account.matches(&addr) {
                return Err(VoixError::Unauthorized);
            }
        },
        None => {
            return Err(VoixError::Unauthorized);
        },
    }
    match derive_associated_token_address(&accounts.receiver, &accounts.mint) {
        Some((addr, _bump)) => {
            if !accounts.receiver_token_account.matches(&addr) {
                return Err(VoixError::Unauthorized);
            }
        },
        None => {
            return Err(VoixError::Unauthorized);
        },
    }
    if amount == 0 {
        return Err(VoixError::InvalidTipAmount);
    }
    let transfer = SplTransfer {
        from: accounts.tipper_token_account,
        to: accounts.receiver_token_account,
        authority: accounts.tipper,
        amount,
    };
    let event = UserTipped {
        tipper: accounts.tipper,
        receiver: accounts.receiver,
        amount,
        mint: Some(accounts.mint),
        timestamp: now,
    };
    Ok((transfer, event))
}

} // verus!
