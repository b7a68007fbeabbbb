//! An escrow marketplace ledger.
//!
//! Vendors register themselves, open listings backed by a deposited balance,
//! and withdraw settled funds; buyers reserve part of a listing's balance by
//! placing an order and attest payment out of band. The contract state is a
//! set of vendor accounts, an append-only listing ledger, an append-only
//! order ledger, and a fixed administrator account.
//!
//! The host environment (caller identity, the native-currency value attached
//! to a call, the transfer primitive, storage, and event delivery) is out of
//! scope: every operation takes the caller and any attached value as plain
//! arguments and leaves the native transfer of a withdrawal to the caller.

use vstd::prelude::*;

mod contract;
mod errors;
mod events;
mod laws;
mod listings;
mod orders;
mod pagination;

pub use contract::Config;
pub use contract::Escrow;
pub use contract::Vendor;
pub use contract::create_listing_post;
pub use contract::create_order_post;
pub use contract::create_vendor_post;
pub use contract::deposit_fits;
pub use contract::deposit_post;
pub use contract::submit_verification_post;
pub use contract::unchanged;
pub use contract::withdraw_post;
pub use errors::EscrowError;
pub use events::CreateListing;
pub use events::CreateOrder;
pub use events::CreateVendor;
pub use events::UpdateOrder;
pub use laws::lemma_deposit_adds_value;
pub use laws::lemma_listing_creation_adds_no_value;
pub use laws::lemma_listing_ids_monotonic;
pub use laws::lemma_order_ids_monotonic;
pub use laws::lemma_pagination_window;
pub use laws::lemma_registration_idempotent;
pub use laws::lemma_reservation_conserves_value;
pub use laws::lemma_withdrawal_conserves_value;
pub use laws::total_available;
pub use laws::total_reserved;
pub use listings::Listing;
pub use listings::Listings;
pub use orders::Order;
pub use orders::Orders;
pub use pagination::page_count;
pub use pagination::page_in_window;
pub use pagination::page_newest;
pub use pagination::page_oldest;
pub use pagination::paged;

verus! {

/// An account on the host ledger, as the host's identity provider hands it
/// to each entry point.
pub type AccountId = u128;

/// A non-negative amount of the native currency.
pub type Balance = u128;

} // verus!
