//! A tip in native value. The handler validates the request, records the
//! amount on the receiver's cumulative counter with a checked addition, and
//! hands back the transfer for the runtime shell to perform; if the
//! transfer then fails, the runtime discards the whole transition, record
//! update included.

use vstd::prelude::*;

use crate::errors::VoixError;
use crate::events::UserTipped;
use crate::pda::{derive_user_address, spec_user_address};
use crate::pubkey::Pubkey;
use crate::state::user_account::UserAccount;

verus! {

/// The accounts this transition names. The runtime has already checked that
/// `tipper` authorized the request with its signature; `receiver` is a
/// plain address, bound to the supplied record below.
pub struct TipUserSol {
    /// The caller, who pays the tip.
    pub tipper: Pubkey,
    /// The address receiving the tip.
    pub receiver: Pubkey,
    /// Where the supplied receiver record sits.
    pub receiver_account_address: Pubkey,
    /// The receiver's record.
    pub receiver_account: UserAccount,
}

/// A native-value movement for the value-transfer service.
#[derive(Clone, Copy, Debug)]
pub struct SolTransfer {
    pub from: Pubkey,
    pub to: Pubkey,
    pub amount: u64,
}

/// The receiver record sits at the address derived from the receiver, and
/// its owner field names that same receiver: the supplied pair of accounts
/// belong together.
pub open spec fn spec_accounts_valid(accounts: TipUserSol) -> bool {
    &&& (match spec_user_address(accounts.receiver@) {
        Some((addr, _bump)) => accounts.receiver_account_address@ == addr,
        None => false,
    })
    &&& accounts.receiver@ == accounts.receiver_account.user_pubkey@
}

/// Validates a native-value tip, adds the amount to the receiver's
/// cumulative counter, and returns the transfer to perform with the event
/// to emit. A zero amount, a mismatched account pair, or an overflowing
/// counter rejects the request and leaves the record unchanged.
pub fn handler(accounts: &mut TipUserSol, amount: u64, now: i64) -> (r: Result<
    (SolTransfer, UserTipped),
    VoixError,
>)
    ensures
        r is Ok <==> spec_accounts_valid(*old(accounts)) && amount > 0 && old(
            accounts,
        ).receiver_account.total_sol_tipped + amount <= u64::MAX,
        final(accounts).tipper == old(accounts).tipper,
        final(accounts).receiver == old(accounts).receiver,
        final(accounts).receiver_account_address == old(accounts).receiver_account_address,
        final(accounts).receiver_account.user_pubkey == old(
            accounts,
        ).receiver_account.user_pubkey,
        final(accounts).receiver_account.karma == old(accounts).receiver_account.karma,
        final(accounts).receiver_account.minted_milestones == old(
            accounts,
        ).receiver_account.minted_milestones,
        final(accounts).receiver_account.total_sol_tipped >= old(
            accounts,
        ).receiver_account.total_sol_tipped,
        (match r {
            Ok((transfer, event)) => {
                &&& final(accounts).receiver_account.total_sol_tipped == old(
                    accounts,
                ).receiver_account.total_sol_tipped + amount
                &&& transfer.from@ == old(accounts).tipper@
                &&& transfer.to@ == old(accounts).receiver@
                &&& transfer.amount == amount
                &&& event.tipper@ == old(accounts).tipper@
                &&& event.receiver@ == old(accounts).receiver@
                &&& event.amount == amount
                &&& event.mint is None
                &&& event.timestamp == now
            },
            Err(e) => {
                &&& final(accounts).receiver_account == old(accounts).receiver_account
                &&& e == (if !spec_accounts_valid(*old(accounts)) {
                    VoixError::Unauthorized
                } else if amount == 0 {
                    VoixError::InvalidTipAmount
                } else {
                    VoixError::MathOverflow
                })
            },
        }),
{
    match derive_user_address(&accounts.receiver) {
        Some((addr, _bump)) => {
            if !accounts.receiver_account_address.matches(&addr) {
                return Err(VoixError::Unauthorized);
            }
        },
        None => {
            return Err(VoixError::Unauthorized);
        },
    }
    if !accounts.receiver.matches(&accounts.receiver_account.user_pubkey) {
        return Err(VoixError::Unauthorized);
    }
    if amount == 0 {
        return Err(VoixError::InvalidTipAmount);
    }
    if u64::MAX - accounts.receiver_account.total_sol_tipped < amount {
        return Err(VoixError::MathOverflow);
    }
    accounts.receiver_account.total_sol_tipped = accounts.receiver_account.total_sol_tipped
        + amount;
    let transfer = SolTransfer { from: accounts.tipper, to: accounts.receiver, amount };
    let event = UserTipped {
        tipper: accounts.tipper,
        receiver: accounts.receiver,
        amount,
        mint: None,
        timestamp: now,
    };
    Ok((transfer, event))
}

} // verus!
