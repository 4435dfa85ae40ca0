//! The properties that hold across transitions, stated over the same spec
//! functions the handlers' contracts use and proved here once and for all.

use vstd::prelude::*;

use crate::instructions::submit_merkle_root;
use crate::instructions::update_user_karma;
use crate::instructions::mint_milestone_nft::spec_mint_allowed;
use crate::state::user_account::{
    lemma_claim_effect, spec_is_claimed, spec_milestone_flag, valid_level, UserAccount,
};

verus! {

// --- Milestones mint at most once per tier ---

/// A successful mint marks its tier claimed, and the tier stays claimed
/// whatever the backend later does to the karma score: the same tier can
/// never mint again, and a repeat attempt with enough karma is rejected as
/// already claimed by the handler's contract.
pub proof fn lemma_milestone_mints_once(
    account: UserAccount,
    milestone_level: u8,
    new_karma: u32,
)
    requires
        spec_mint_allowed(account, milestone_level),
    ensures
        spec_is_claimed(
            account.minted_milestones | spec_milestone_flag(milestone_level),
            milestone_level,
        ),
        !spec_mint_allowed(
            UserAccount {
                karma: new_karma,
                minted_milestones: account.minted_milestones | spec_milestone_flag(
                    milestone_level,
                ),
                ..account
            },
            milestone_level,
        ),
{
    lemma_claim_effect(account.minted_milestones, milestone_level, milestone_level);
}

/// Claiming one tier leaves every other tier exactly as it was: the three
/// tiers are independent one-way machines.
pub proof fn lemma_milestone_tiers_independent(account: UserAccount, milestone_level: u8, other: u8)
    requires
        valid_level(milestone_level),
        valid_level(other),
        other != milestone_level,
    ensures
        spec_is_claimed(
            account.minted_milestones | spec_milestone_flag(milestone_level),
            other,
        ) == spec_is_claimed(account.minted_milestones, other),
{
    lemma_claim_effect(account.minted_milestones, milestone_level, other);
}

// --- Accepted epochs strictly increase ---

/// The epoch the configuration record holds after a sequence of submitted
/// epochs, each accepted exactly when it exceeds the epoch current at its
/// turn — the step the root-commitment handler's contract pins.
pub open spec fn spec_epoch_after(start: u64, submissions: Seq<u64>) -> u64
    decreases submissions.len(),
{
    if submissions.len() == 0 {
        start
    } else {
        let prior = spec_epoch_after(start, submissions.drop_last());
        if submissions.last() > prior {
            submissions.last()
        } else {
            prior
        }
    }
}

/// Whether the submission at position `i` is accepted.
pub open spec fn spec_submission_accepted(start: u64, submissions: Seq<u64>, i: int) -> bool {
    submissions[i] > spec_epoch_after(start, submissions.take(i))
}

proof fn lemma_epoch_after_monotone(start: u64, submissions: Seq<u64>, i: int, j: int)
    requires
        0 <= i <= j <= submissions.len(),
    ensures
        spec_epoch_after(start, submissions.take(i)) <= spec_epoch_after(
            start,
            submissions.take(j),
        ),
    decreases j - i,
{
    if i < j {
        lemma_epoch_after_monotone(start, submissions, i, j - 1);
        assert(submissions.take(j).drop_last() =~= submissions.take(j - 1));
    }
}

/// Along any sequence of submissions, the accepted epochs are strictly
/// increasing; a submission at or under the current epoch changes nothing.
pub proof fn lemma_accepted_epochs_strictly_increase(
    start: u64,
    submissions: Seq<u64>,
    i: int,
    j: int,
)
    requires
        0 <= i < j < submissions.len(),
        spec_submission_accepted(start, submissions, i),
        spec_submission_accepted(start, submissions, j),
    ensures
        submissions[i] < submissions[j],
{
    assert(submissions.take(i + 1).drop_last() =~= submissions.take(i));
    assert(spec_epoch_after(start, submissions.take(i + 1)) == submissions[i]);
    lemma_epoch_after_monotone(start, submissions, i + 1, j);
}

// --- Native tips accumulate exactly ---

/// The exact sum of a sequence of tip amounts.
pub open spec fn spec_sum(amounts: Seq<u64>) -> int
    decreases amounts.len(),
{
    if amounts.len() == 0 {
        0
    } else {
        spec_sum(amounts.drop_last()) + amounts.last()
    }
}

/// The cumulative counter after a sequence of tips, each landing exactly
/// when its checked addition fits and otherwise failing with the counter
/// untouched — the step the native-tip handler's contract pins.
pub open spec fn spec_total_after(start: u64, amounts: Seq<u64>) -> u64
    decreases amounts.len(),
{
    if amounts.len() == 0 {
        start
    } else {
        let prior = spec_total_after(start, amounts.drop_last());
        if prior + amounts.last() <= u64::MAX {
            (prior + amounts.last()) as u64
        } else {
            prior
        }
    }
}

proof fn lemma_sum_nonneg(amounts: Seq<u64>)
    ensures
        spec_sum(amounts) >= 0,
    decreases amounts.len(),
{
    if amounts.len() > 0 {
        lemma_sum_nonneg(amounts.drop_last());
    }
}

/// When the true sum of the tips fits in 64 bits, every tip lands and the
/// counter ends at exactly its start plus that sum; the overflow case of a
/// single tip — rejected, counter untouched — is the handler's contract.
pub proof fn lemma_tip_totals_are_exact(start: u64, amounts: Seq<u64>)
    requires
        start + spec_sum(amounts) <= u64::MAX,
    ensures
        spec_total_after(start, amounts) == start + spec_sum(amounts),
    decreases amounts.len(),
{
    if amounts.len() > 0 {
        lemma_tip_totals_are_exact(start, amounts.drop_last());
    }
}

// --- Only the admin touches the commitment and karma ---

/// A caller other than the configuration's admin never validates for the
/// two admin transitions: by the handlers' contracts such a request gets
/// the authorization error and leaves every record byte-for-byte unchanged.
pub proof fn lemma_only_admin_passes(
    commitment: submit_merkle_root::SubmitMerkleRoot,
    karma_update: update_user_karma::UpdateUserKarma,
)
    requires
        commitment.admin@ != commitment.global_config.admin@,
        karma_update.admin@ != karma_update.global_config.admin@,
    ensures
        !submit_merkle_root::spec_accounts_valid(commitment),
        !update_user_karma::spec_accounts_valid(karma_update),
{
}

} // verus!
