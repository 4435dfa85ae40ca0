//! Admin-only commitment of a new content Merkle root under a strictly
//! increasing epoch.

use vstd::prelude::*;

use crate::errors::VoixError;
use crate::events::MerkleRootSubmitted;
use crate::pda::{derive_config_address, spec_config_address};
use crate::pubkey::Pubkey;
use crate::state::global_config::GlobalConfig;

verus! {

/// The accounts this transition names. The runtime has already checked that
/// `admin` authorized the request with its signature.
pub struct SubmitMerkleRoot {
    /// The caller.
    pub admin: Pubkey,
    /// Where the supplied configuration record sits.
    pub global_config_address: Pubkey,
    /// The configuration record itself.
    pub global_config: GlobalConfig,
}

/// The configuration record sits at its derived address and names the
/// caller as admin.
pub open spec fn spec_accounts_valid(accounts: SubmitMerkleRoot) -> bool {
    &&& (match spec_config_address() {
        Some((addr, _bump)) => accounts.global_config_address@ == addr,
        None => false,
    })
    &&& accounts.global_config.admin@ == accounts.admin@
}

/// Overwrites the commitment with `merkle_root` at `epoch`, accepted only
/// from the admin and only with an epoch strictly above the current one; a
/// rejected submission leaves the record unchanged.
pub fn handler(
    accounts: &mut SubmitMerkleRoot,
    merkle_root: [u8; 32],
    epoch: u64,
    now: i64,
) -> (r: Result<MerkleRootSubmitted, VoixError>)
    ensures
        r is Ok <==> spec_accounts_valid(*old(accounts)) && epoch > old(
            accounts,
        ).global_config.epoch,
        final(accounts).admin == old(accounts).admin,
        final(accounts).global_config_address == old(accounts).global_config_address,
        final(accounts).global_config.admin == old(accounts).global_config.admin,
        final(accounts).global_config.epoch >= old(accounts).global_config.epoch,
        (match r {
            Ok(event) => {
                &&& final(accounts).global_config.merkle_root@ == merkle_root@
                &&& final(accounts).global_config.epoch == epoch
                &&& event.admin@ == old(accounts).admin@
                &&& event.merkle_root@ == merkle_root@
                &&& event.epoch == epoch
                &&& event.timestamp == now
            },
            Err(e) => {
                &&& final(accounts).global_config == old(accounts).global_config
                &&& e == (if !spec_accounts_valid(*old(accounts)) {
                    VoixError::Unauthorized
                } else {
                    VoixError::InvalidEpoch
                })
            },
        }),
{
    match derive_config_address() {
        Some((addr, _bump)) => {
            if !accounts.global_config_address.matches(&addr) {
                return Err(VoixError::Unauthorized);
            }
        },
        None => {
            return Err(VoixError::Unauthorized);
        },
    }
    if !accounts.global_config.admin.matches(&accounts.admin) {
        return Err(VoixError::Unauthorized);
    }
    if epoch <= accounts.global_config.epoch {
        return Err(VoixError::InvalidEpoch);
    }
    accounts.global_config.merkle_root = merkle_root;
    accounts.global_config.epoch = epoch;
    Ok(MerkleRootSubmitted { admin: accounts.admin, merkle_root, epoch, timestamp: now })
}

} // verus!
