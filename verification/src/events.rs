//! The notifications an embedding emits as operations succeed.
//!
//! The core itself only mutates state and returns; delivering these records
//! to the host's log belongs to the embedding, which builds them from the
//! operation's arguments and the contract state.

use vstd::prelude::*;

use crate::AccountId;

verus! {

/// A listing was created.
#[derive(Clone, Copy, Debug, PartialEq, Eq, Structural)]
pub struct CreateListing {
    /// The new listing's id.
    pub id: u32,
    /// The vendor that owns it.
    pub vendor: AccountId,
}

/// An order was created.
#[derive(Clone, Copy, Debug, PartialEq, Eq, Structural)]
pub struct CreateOrder {
    /// The new order's id.
    pub id: u64,
    /// The account that placed it.
    pub buyer: AccountId,
    /// The listing's vendor.
    pub vendor: AccountId,
}

/// An account registered as a vendor.
#[derive(Clone, Copy, Debug, PartialEq, Eq, Structural)]
pub struct CreateVendor {
    /// The registered account.
    pub caller: AccountId,
}

/// An order changed status.
#[derive(Clone, Copy, Debug, PartialEq, Eq, Structural)]
pub struct UpdateOrder {
    /// The order's id.
    pub id: u64,
    /// Its status after the change.
    pub status: u8,
}

} // verus!
