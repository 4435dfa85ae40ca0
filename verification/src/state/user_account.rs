//! The per-user record, and the milestone bit-flag abstraction: three
//! independent one-way two-state machines (unclaimed -> claimed) packed into
//! the three low bits of one byte.

use vstd::prelude::*;

use crate::constants::{
    BRONZE_KARMA_REQ, BRONZE_MILESTONE_FLAG, GOLD_KARMA_REQ, GOLD_MILESTONE_FLAG,
    SILVER_KARMA_REQ, SILVER_MILESTONE_FLAG,
};
use crate::pubkey::Pubkey;

verus! {

/// The milestone levels that map to a known tier.
pub open spec fn valid_level(level: u8) -> bool {
    1 <= level <= 3
}

/// The bit that marks a tier as claimed, or 0 for an unknown level.
pub open spec fn spec_milestone_flag(level: u8) -> u8 {
    if level == 1 {
        BRONZE_MILESTONE_FLAG
    } else if level == 2 {
        SILVER_MILESTONE_FLAG
    } else if level == 3 {
        GOLD_MILESTONE_FLAG
    } else {
        0
    }
}

/// The karma a tier requires, or 0 for an unknown level.
pub open spec fn spec_required_karma(level: u8) -> u32 {
    if level == 1 {
        BRONZE_KARMA_REQ
    } else if level == 2 {
        SILVER_KARMA_REQ
    } else if level == 3 {
        GOLD_KARMA_REQ
    } else {
        0
    }
}

/// Whether the flag byte marks the tier of `level` as claimed.
pub open spec fn spec_is_claimed(flags: u8, level: u8) -> bool {
    flags & spec_milestone_flag(level) != 0
}

#[derive(Clone, Copy, Debug)]
pub struct UserAccount {
    /// The identity this record represents. Set once at initialization.
    pub user_pubkey: Pubkey,

    /// The user's karma score; backend-authoritative, overwritten freely.
    pub karma: u32,

    /// Bit i set <=> milestone tier i already claimed; bits are only ever
    /// set, never cleared.
    pub minted_milestones: u8,

    /// Cumulative native value received from tips; never decreases.
    pub total_sol_tipped: u64,
}

impl UserAccount {
    /// Whether this user has already claimed the tier of `level`.
    pub fn is_claimed(&self, level: u8) -> (r: bool)
        ensures
            r == spec_is_claimed(self.minted_milestones, level),
    {
        let flag = milestone_flag(level);
        self.minted_milestones & flag != 0
    }

    /// Marks the tier of `level` claimed. Bits only gain: the one-way
    /// transition of the tier's two-state machine.
    pub fn claim(&mut self, level: u8)
        requires
            valid_level(level),
        ensures
            final(self).minted_milestones == old(self).minted_milestones | spec_milestone_flag(
                level,
            ),
            final(self).user_pubkey == old(self).user_pubkey,
            final(self).karma == old(self).karma,
            final(self).total_sol_tipped == old(self).total_sol_tipped,
            spec_is_claimed(final(self).minted_milestones, level),
            forall|l2: u8|
                valid_level(l2) ==> spec_is_claimed(final(self).minted_milestones, l2)
                    == (spec_is_claimed(old(self).minted_milestones, l2) || l2 == level),
    {
        let flag = milestone_flag(level);
        proof {
            assert forall|l2: u8| valid_level(l2) implies spec_is_claimed(
                old(self).minted_milestones | spec_milestone_flag(level),
                l2,
            ) == (spec_is_claimed(old(self).minted_milestones, l2) || l2 == level) by {
                lemma_claim_effect(old(self).minted_milestones, level, l2);
            }
        }
        self.minted_milestones = self.minted_milestones | flag;
    }
}

/// The flag bit of `level`, 0 for an unknown level.
pub fn milestone_flag(level: u8) -> (f: u8)
    ensures
        f == spec_milestone_flag(level),
{
    match level {
        1 => BRONZE_MILESTONE_FLAG,
        2 => SILVER_MILESTONE_FLAG,
        3 => GOLD_MILESTONE_FLAG,
        _ => 0,
    }
}

/// The karma threshold of `level`, 0 for an unknown level.
pub fn required_karma(level: u8) -> (k: u32)
    ensures
        k == spec_required_karma(level),
{
    match level {
        1 => BRONZE_KARMA_REQ,
        2 => SILVER_KARMA_REQ,
        3 => GOLD_KARMA_REQ,
        _ => 0,
    }
}

/// Setting one tier's bit changes exactly that tier: afterwards a tier
/// reads as claimed iff it already was, or is the tier just claimed. In
/// particular no bit is ever cleared.
pub proof fn lemma_claim_effect(flags: u8, level: u8, l2: u8)
    requires
        valid_level(level),
        valid_level(l2),
    ensures
        spec_is_claimed(flags | spec_milestone_flag(level), l2) == (spec_is_claimed(flags, l2)
            || l2 == level),
{
    let m = spec_milestone_flag(level);
    let k = spec_milestone_flag(l2);
    assert(((m == 1 || m == 2 || m == 4) && (k == 1 || k == 2 || k == 4)) ==> (((flags | m) & k
        != 0) == ((flags & k != 0) || m == k))) by (bit_vector);
}

} // verus!
