//! One-time creation of the global configuration record. The caller becomes
//! the admin; the commitment starts all-zero at epoch 0.

use vstd::prelude::*;

use crate::errors::VoixError;
use crate::pda::{derive_config_address, spec_config_address};
use crate::pubkey::Pubkey;
use crate::state::global_config::{spec_zero_root, GlobalConfig};

verus! {

/// The accounts this transition names. The runtime has already checked that
/// `admin` authorized the request with its signature.
pub struct InitializeConfig {
    /// The caller, who becomes the admin.
    pub admin: Pubkey,
    /// Where the configuration record is to be created.
    pub global_config_address: Pubkey,
}

/// The supplied account sits at the derived configuration address.
pub open spec fn spec_accounts_valid(accounts: InitializeConfig) -> bool {
    match spec_config_address() {
        Some((addr, _bump)) => accounts.global_config_address@ == addr,
        None => false,
    }
}

/// Builds the fresh configuration record, rejecting an account that does not
/// sit at the derived address. The runtime creates the record at that
/// address and fails the whole transition if one already exists there.
pub fn handler(accounts: &InitializeConfig) -> (r: Result<GlobalConfig, VoixError>)
    ensures
        r is Ok <==> spec_accounts_valid(*accounts),
        (match r {
            Ok(config) => {
                &&& config.admin@ == accounts.admin@
                &&& config.merkle_root@ == spec_zero_root()
                &&& config.epoch == 0
            },
            Err(e) => e == VoixError::Unauthorized,
        }),
{
    match derive_config_address() {
        Some((addr, _bump)) => {
            if !accounts.global_config_address.matches(&addr) {
                return Err(VoixError::Unauthorized);
            }
        },
        None => {
            return Err(VoixError::Unauthorized);
        },
    }
    let config = GlobalConfig { admin: accounts.admin, merkle_root: [0u8; 32], epoch: 0 };
    proof {
        assert(config.merkle_root@ =~= spec_zero_root());
    }
    Ok(config)
}

} // verus!
