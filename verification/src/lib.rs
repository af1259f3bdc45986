//! An escrow-based marketplace for sponsorship campaigns.
//!
//! A creator opens a campaign and places its offered amount in a custody
//! account; a selected promoter may accept the offer while it is open; the
//! marketplace operator settles a fulfilled deal by splitting the custody
//! balance between promoter and operator in fixed basis-point shares. A
//! pooled "open campaign" variant has no selected promoter and is completed
//! by the operator alone. Every transition is a total function over the
//! persisted records, the caller's identity and the current time, and its
//! whole effect is stated in its contract.

pub mod address;
pub mod campaign;
pub mod custody;
pub mod distribution;
pub mod errors;
pub mod identity;
pub mod open_campaign;
pub mod registry;
