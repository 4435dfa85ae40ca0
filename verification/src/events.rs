//! The events a transition emits: an append-only audit trail for off-chain
//! indexers, observational and never authoritative state. Each handler
//! returns the event it emits; the runtime shell appends it to the log.

use vstd::prelude::*;

use crate::pubkey::Pubkey;

verus! {

#[derive(Clone, Copy, Debug)]
pub struct UserInitialized {
    pub user: Pubkey,
    pub timestamp: i64,
}

#[derive(Clone, Copy, Debug)]
pub struct MerkleRootSubmitted {
    pub admin: Pubkey,
    pub merkle_root: [u8; 32],
    pub epoch: u64,
    pub timestamp: i64,
}

#[derive(Clone, Copy, Debug)]
pub struct KarmaUpdated {
    pub user: Pubkey,
    pub new_karma: u32,
    pub admin: Pubkey,
    pub timestamp: i64,
}

#[derive(Clone, Copy, Debug)]
pub struct UserTipped {
    pub tipper: Pubkey,
    pub receiver: Pubkey,
    pub amount: u64,
    /// The asset tipped, or `None` for native value.
    pub mint: Option<Pubkey>,
    pub timestamp: i64,
}

#[derive(Clone, Copy, Debug)]
pub struct MilestoneNftMinted {
    pub user: Pubkey,
    pub nft_mint: Pubkey,
    pub milestone_level: u8,
    pub timestamp: i64,
}

} // verus!
