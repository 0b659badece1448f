//! The ways in which a ledger operation is refused.

use vstd::prelude::*;

verus! {

/// Why an operation was refused. A refused operation changes nothing.
#[derive(Clone, Copy, Debug, PartialEq, Eq, Structural)]
pub enum LedgerError {
    /// No campaign has the given handle.
    NotFound,
    /// The campaign has reached its goal and takes no more donations.
    CampaignClosed,
    /// The campaign's deadline has passed.
    CampaignExpired,
    /// The principal did not consent to the operation.
    Unauthorized,
    /// The raised amount would leave the range of a 128-bit signed integer.
    ArithmeticOverflow,
    /// A position outside the store, or a store with no handle left to give.
    OutOfRange,
    /// An amount that makes no sense: a goal that is not positive, or a
    /// negative donation.
    InvalidParameter,
}

} // verus!
