//! Seed bytes for derived addresses, karma thresholds and milestone
//! bit-flags, and the well-known service program ids.

use vstd::prelude::*;

verus! {

// --- Derivation seeds ---

/// Seed of the global configuration record: the bytes of "config".
pub const CONFIG_SEED: [u8; 6] = [99, 111, 110, 102, 105, 103];

/// Seed prefix of a user record: the bytes of "user".
pub const USER_SEED: [u8; 4] = [117, 115, 101, 114];

/// Seed of the minting authority: the bytes of "mint_authority".
pub const MINT_AUTHORITY_SEED: [u8; 14] = [
    109, 105, 110, 116, 95, 97, 117, 116, 104, 111, 114, 105, 116, 121,
];

/// Seed prefix of a metadata record: the bytes of "metadata".
pub const METADATA_SEED: [u8; 8] = [109, 101, 116, 97, 100, 97, 116, 97];

/// Seed suffix of a master-edition record: the bytes of "edition".
pub const EDITION_SEED: [u8; 7] = [101, 100, 105, 116, 105, 111, 110];

// --- Program ids ---

/// This program's own id (base58 41ixdTNskpBiezYZyjigB5k3MTgdv3CcFHYFuVPy3mbK).
pub const PROGRAM_ID: [u8; 32] = [
    44, 194, 129, 12, 160, 132, 162, 151, 152, 130, 15, 110, 175, 207, 111, 55, 111, 129, 150,
    196, 88, 219, 171, 244, 231, 141, 213, 215, 228, 57, 154, 134,
];

/// The fungible-token service (base58 TokenkegQfeZyiNwAJbNbGKPFXCWuBvf9Ss623VQ5DA).
pub const TOKEN_PROGRAM_ID: [u8; 32] = [
    6, 221, 246, 225, 215, 101, 161, 147, 217, 203, 225, 70, 206, 235, 121, 172, 28, 180, 133,
    237, 95, 91, 55, 145, 58, 140, 245, 133, 126, 255, 0, 169,
];

/// The holding-account service (base58 ATokenGPvbdGVxr1b2hvZbsiqW5xWH25efTNsLJA8knL).
pub const ASSOCIATED_TOKEN_PROGRAM_ID: [u8; 32] = [
    140, 151, 37, 143, 78, 36, 137, 241, 187, 61, 16, 41, 20, 142, 13, 131, 11, 90, 19, 153,
    218, 255, 16, 132, 4, 142, 123, 216, 219, 233, 248, 89,
];

/// The metadata service (base58 metaqbxxUerdq28cj1RbAWkYQm3ybzjb6a8bt518x1s).
pub const TOKEN_METADATA_PROGRAM_ID: [u8; 32] = [
    11, 112, 101, 177, 227, 209, 124, 69, 56, 157, 82, 127, 107, 4, 195, 205, 88, 184, 108, 115,
    26, 160, 253, 181, 73, 182, 209, 188, 3, 248, 41, 70,
];

// --- Karma requirements ---

pub const BRONZE_KARMA_REQ: u32 = 1000;

pub const SILVER_KARMA_REQ: u32 = 5000;

pub const GOLD_KARMA_REQ: u32 = 10000;

// --- Milestone bit-flags ---

pub const BRONZE_MILESTONE_FLAG: u8 = 1;

pub const SILVER_MILESTONE_FLAG: u8 = 2;

pub const GOLD_MILESTONE_FLAG: u8 = 4;

} // verus!
