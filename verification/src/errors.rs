//! The error kinds a state transition can fail with.

use vstd::prelude::*;

verus! {

/// Every precondition failure of a transition surfaces as one of these kinds;
/// a failed transition leaves all records unchanged.
#[derive(Clone, Copy, Debug, PartialEq, Eq, Structural)]
pub enum CustomErrorCode {
    /// The caller is not the identity the transition demands.
    Unauthorized,
    /// The campaign is not in the source state of the requested transition.
    InvalidCampaignStatus,
    /// The selected promoter is the null identity.
    InvalidKolAddress,
    /// The acceptance window has closed.
    CampaignExpired,
    /// A deadline does not lie in the future.
    InvalidTimeParameters,
    /// The offered amount is zero.
    InvalidAmount,
    /// A custody account holds less than the amount to be moved.
    InsufficientFunds,
    /// The registry's token and decimal lists differ in length.
    InvalidParameters,
    /// The registry's allow-list would exceed its bound.
    TooManyTokens,
    /// The open campaign is not in the source state of the requested transition.
    InvalidOpenCampaignStatus,
}

} // verus!
