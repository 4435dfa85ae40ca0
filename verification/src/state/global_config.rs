//! The singleton configuration record: the trusted admin identity and the
//! current content commitment (Merkle root and epoch).

use vstd::prelude::*;

use crate::pubkey::Pubkey;

verus! {

/// The all-zero 32-byte commitment a fresh configuration starts with.
pub open spec fn spec_zero_root() -> Seq<u8> {
    Seq::new(32, |i: int| 0u8)
}

#[derive(Clone, Copy, Debug)]
pub struct GlobalConfig {
    /// The only identity allowed to submit a root commitment or update
    /// karma. Set once at initialization, immutable afterwards.
    pub admin: Pubkey,

    /// The 32-byte Merkle root of all off-chain content.
    pub merkle_root: [u8; 32],

    /// Version counter of the root; strictly increases with each accepted
    /// commitment.
    pub epoch: u64,
}

} // verus!
