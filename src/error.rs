//! Typed errors of the ledger operations.

use vstd::prelude::*;

verus! {

/// Every way an operation of the ledger can be rejected.
#[derive(Clone, Copy, Debug, PartialEq, Eq, Structural)]
pub enum ErrorCode {
    /// The campaign window has not opened yet.
    NotStarted,
    /// A campaign needs a target amount above zero.
    InvalidTargetAmount,
    /// The campaign window has closed, or the campaign is no longer active.
    CampaignExpired,
    /// The start of the window must come before its end.
    InvalidTimeRange,
    /// The campaign name is longer than the bound on names.
    NameTooLong,
    /// Refunds are open only on a failed campaign.
    RefundNotAllowed,
    /// Withdrawal is open only once, on a successful campaign.
    WithdrawalNotAllowed,
    /// The amount raised is below the target.
    NotReaching,
    /// The ledger entry was refunded already.
    AlreadyRefunded,
    /// A donation must be above zero.
    InvalidDonationAmount,
    /// The raised total would not fit in the counter.
    Overflow,
    /// The donor holds a ledger entry for this campaign already.
    AlreadyDonated,
    /// The caller is not the party the operation belongs to.
    Unauthorized,
    /// The ledger entry belongs to another campaign.
    CampaignMismatch,
    /// Rewards are open only on a successful campaign.
    CampaignNotSuccessful,
    /// The reward root of the campaign was set already.
    RewardRootAlreadySet,
    /// No reward root has been set for the campaign.
    RewardRootNotSet,
    /// The inclusion proof does not lead to the reward root.
    InvalidMerkleProof,
}

} // verus!
