//! The error kinds a transition can fail with. A failing transition returns
//! one of these and leaves every record unchanged.

use vstd::prelude::*;

verus! {

#[derive(Clone, Copy, Debug, PartialEq, Eq, Structural)]
pub enum VoixError {
    /// The caller is not the required admin or owner, or an account does not
    /// sit at its derived address.
    Unauthorized,
    /// A tip amount of zero.
    InvalidTipAmount,
    /// A checked addition overflowed.
    MathOverflow,
    /// The caller's karma is under the milestone's threshold.
    InsufficientKarma,
    /// The milestone has already been claimed.
    MilestoneAlreadyMinted,
    /// The milestone level maps to no known tier.
    InvalidMilestoneLevel,
    /// The submitted epoch does not exceed the current one.
    InvalidEpoch,
}

} // verus!
