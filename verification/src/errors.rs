//! The typed, recoverable failures of the escrow operations.

use vstd::prelude::*;

verus! {

/// Every validation failure an operation can return. Each operation that
/// returns one of these performs no state mutation, so callers observe a
/// clean no-op.
#[derive(Clone, Copy, Debug, PartialEq, Eq, Structural)]
pub enum EscrowError {
    /// An order asked to reserve more than the listing's available balance.
    AmountUnavailable,
    /// A withdrawal asked for more than the listing's available balance.
    InsufficientFunds,
    /// A caller who is not a registered vendor tried to create a listing.
    ListingCanOnlyBeCreatedByAVendor,
    /// The listing ledger is at the maximum id its key type can hold.
    ListingLimitReached,
    /// No listing exists under the given id.
    ListingNotFound,
    /// The order was cancelled; its verification can no longer change.
    OrderCancelled,
    /// The order was finalised; its verification can no longer change.
    OrderFinalised,
    /// No order exists under the given id.
    OrderNotFound,
    /// The caller is already registered as a vendor.
    VendorAlreadyExists,
    /// The caller does not own the record the operation works on.
    Unauthorised,
}

} // verus!
