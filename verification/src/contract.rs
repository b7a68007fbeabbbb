//! The contract state and its operations.
//!
//! Each operation is one atomic transaction against the persisted state:
//! it validates authorization and invariants, then either mutates state and
//! returns `Ok`, or mutates nothing and returns a typed error. The caller's
//! identity and any attached native-currency value arrive as plain
//! arguments from the host; a successful withdrawal obliges the embedding
//! to pay the vendor, and to abort the whole transaction if that payment
//! fails.
//!
//! Each operation's outcome is pinned down by a `..._post` predicate over
//! the state before, the arguments, the state after, and the result.

use vstd::prelude::*;

use crate::AccountId;
use crate::Balance;
use crate::errors::EscrowError;
use crate::listings::{Listing, Listings};
use crate::orders::{Order, Orders};

verus! {

/// The read-only configuration: the administrator account, set once at
/// construction to the deploying caller. No operation changes it.
#[derive(Clone, Copy, Debug, PartialEq, Eq, Structural)]
pub struct Config {
    /// The administrator account.
    pub admin: AccountId,
}

/// The existence marker a registered vendor holds: being registered is
/// itself the capability to own listings.
#[derive(Clone, Copy, Debug, PartialEq, Eq, Structural)]
pub struct Vendor {}

/// The whole contract state: the vendor registry, the two ledgers, and the
/// administrator account.
#[derive(Debug)]
pub struct Escrow {
    /// The administrator, fixed at construction to the deploying caller.
    pub admin: AccountId,
    /// The listing ledger.
    pub listings: Listings,
    /// The order ledger.
    pub orders: Orders,
    /// The accounts registered as vendors, in registration order.
    pub vendors: Vec<AccountId>,
}

/// The two states agree on everything an operation may touch: an operation
/// that fails is a clean no-op.
pub open spec fn unchanged(pre: Escrow, post: Escrow) -> bool {
    &&& post.admin == pre.admin
    &&& post.listings@ == pre.listings@
    &&& post.orders@ == pre.orders@
    &&& post.vendors@ == pre.vendors@
}

/// What registering `caller` as a vendor does: a second registration is
/// refused, a first one appends the account to the registry.
pub open spec fn create_vendor_post(
    pre: Escrow,
    caller: AccountId,
    post: Escrow,
    r: Result<(), EscrowError>,
) -> bool {
    if pre.vendors@.contains(caller) {
        r == Err::<(), EscrowError>(EscrowError::VendorAlreadyExists) && unchanged(pre, post)
    } else {
        &&& r == Ok::<(), EscrowError>(())
        &&& post.vendors@ == pre.vendors@.push(caller)
        &&& post.admin == pre.admin
        &&& post.listings@ == pre.listings@
        &&& post.orders@ == pre.orders@
    }
}

/// What creating a listing for `caller` does: a full ledger is refused
/// before anything else, a caller that is no vendor is refused, and
/// otherwise a listing with the next id, owned by `caller`, with nothing
/// available yet, is appended.
pub open spec fn create_listing_post(
    pre: Escrow,
    caller: AccountId,
    post: Escrow,
    r: Result<(), EscrowError>,
) -> bool {
    if pre.listings@.len() == u32::MAX {
        r == Err::<(), EscrowError>(EscrowError::ListingLimitReached) && unchanged(pre, post)
    } else if !pre.vendors@.contains(caller) {
        r == Err::<(), EscrowError>(EscrowError::ListingCanOnlyBeCreatedByAVendor) && unchanged(
            pre,
            post,
        )
    } else {
        &&& r == Ok::<(), EscrowError>(())
        &&& post.listings@ == pre.listings@.push(
            Listing { id: pre.listings@.len() as u32, vendor: caller, available_amount: 0 },
        )
        &&& post.admin == pre.admin
        &&& post.orders@ == pre.orders@
        &&& post.vendors@ == pre.vendors@
    }
}

/// The deposited value still fits the listing's balance: the one machine
/// limit a deposit is subject to.
pub open spec fn deposit_fits(
    pre: Escrow,
    id: u32,
    caller: AccountId,
    transferred_value: Balance,
) -> bool {
    (id < pre.listings@.len() && pre.listings@[id as int].vendor == caller)
        ==> pre.listings@[id as int].available_amount + transferred_value <= u128::MAX
}

/// What depositing the attached value into listing `id` does: an unknown
/// id or a caller other than the owning vendor is refused, and otherwise
/// the attached value is added to the listing's available balance.
pub open spec fn deposit_post(
    pre: Escrow,
    id: u32,
    caller: AccountId,
    transferred_value: Balance,
    post: Escrow,
    r: Result<(), EscrowError>,
) -> bool {
    if id >= pre.listings@.len() {
        r == Err::<(), EscrowError>(EscrowError::ListingNotFound) && unchanged(pre, post)
    } else if pre.listings@[id as int].vendor != caller {
        r == Err::<(), EscrowError>(EscrowError::Unauthorised) && unchanged(pre, post)
    } else {
        &&& r == Ok::<(), EscrowError>(())
        &&& post.listings@ == pre.listings@.update(
            id as int,
            (Listing {
                available_amount: (pre.listings@[id as int].available_amount
                    + transferred_value) as Balance,
                ..pre.listings@[id as int]
            }),
        )
        &&& post.admin == pre.admin
        &&& post.orders@ == pre.orders@
        &&& post.vendors@ == pre.vendors@
    }
}

/// What ordering `amount` from listing `listing_id` does: an unknown id is
/// refused, the vendor may not buy its own listing, the amount must not
/// exceed the available balance; otherwise the reservation moves `amount`
/// out of the listing's balance into a fresh open order for `caller`,
/// with no native transfer involved.
pub open spec fn create_order_post(
    pre: Escrow,
    listing_id: u32,
    amount: Balance,
    caller: AccountId,
    post: Escrow,
    r: Result<(), EscrowError>,
) -> bool {
    if listing_id >= pre.listings@.len() {
        r == Err::<(), EscrowError>(EscrowError::ListingNotFound) && unchanged(pre, post)
    } else if pre.listings@[listing_id as int].vendor == caller {
        r == Err::<(), EscrowError>(EscrowError::Unauthorised) && unchanged(pre, post)
    } else if amount > pre.listings@[listing_id as int].available_amount {
        r == Err::<(), EscrowError>(EscrowError::AmountUnavailable) && unchanged(pre, post)
    } else {
        &&& r == Ok::<(), EscrowError>(())
        &&& post.listings@ == pre.listings@.update(
            listing_id as int,
            (Listing {
                available_amount: (pre.listings@[listing_id as int].available_amount
                    - amount) as Balance,
                ..pre.listings@[listing_id as int]
            }),
        )
        &&& post.orders@ == pre.orders@.push(
            Order {
                id: pre.orders@.len() as u64,
                buyer: caller,
                vendor: pre.listings@[listing_id as int].vendor,
                amount,
                payment_verification: None,
                status: 0,
            },
        )
        &&& post.admin == pre.admin
        &&& post.vendors@ == pre.vendors@
    }
}

/// What submitting payment evidence for order `order_id` does: an unknown
/// id is refused, only the buyer may attest, and a finalised or cancelled
/// order no longer changes. In every other status the evidence replaces
/// the stored one and the order moves to pending verification.
pub open spec fn submit_verification_post(
    pre: Escrow,
    order_id: u64,
    payment_verification: String,
    caller: AccountId,
    post: Escrow,
    r: Result<(), EscrowError>,
) -> bool {
    if order_id >= pre.orders@.len() {
        r == Err::<(), EscrowError>(EscrowError::OrderNotFound) && unchanged(pre, post)
    } else if pre.orders@[order_id as int].buyer != caller {
        r == Err::<(), EscrowError>(EscrowError::Unauthorised) && unchanged(pre, post)
    } else if pre.orders@[order_id as int].status == 2 {
        r == Err::<(), EscrowError>(EscrowError::OrderFinalised) && unchanged(pre, post)
    } else if pre.orders@[order_id as int].status == 3 {
        r == Err::<(), EscrowError>(EscrowError::OrderCancelled) && unchanged(pre, post)
    } else {
        &&& r == Ok::<(), EscrowError>(())
        &&& post.orders@ == pre.orders@.update(
            order_id as int,
            (Order {
                payment_verification: Some(payment_verification),
                status: 1,
                ..pre.orders@[order_id as int]
            }),
        )
        &&& post.admin == pre.admin
        &&& post.listings@ == pre.listings@
        &&& post.vendors@ == pre.vendors@
    }
}

/// What withdrawing `amount` from listing `id` does: an unknown id or a
/// caller other than the owning vendor is refused, the amount must not
/// exceed the available balance; otherwise the balance is decremented and
/// the embedding owes the vendor a native transfer of `amount`, aborting
/// the whole transaction if that transfer fails.
pub open spec fn withdraw_post(
    pre: Escrow,
    id: u32,
    amount: Balance,
    caller: AccountId,
    post: Escrow,
    r: Result<(), EscrowError>,
) -> bool {
    if id >= pre.listings@.len() {
        r == Err::<(), EscrowError>(EscrowError::ListingNotFound) && unchanged(pre, post)
    } else if pre.listings@[id as int].vendor != caller {
        r == Err::<(), EscrowError>(EscrowError::Unauthorised) && unchanged(pre, post)
    } else if amount > pre.listings@[id as int].available_amount {
        r == Err::<(), EscrowError>(EscrowError::InsufficientFunds) && unchanged(pre, post)
    } else {
        &&& r == Ok::<(), EscrowError>(())
        &&& post.listings@ == pre.listings@.update(
            id as int,
            (Listing {
                available_amount: (pre.listings@[id as int].available_amount - amount) as Balance,
                ..pre.listings@[id as int]
            }),
        )
        &&& post.admin == pre.admin
        &&& post.orders@ == pre.orders@
        &&& post.vendors@ == pre.vendors@
    }
}

impl Escrow {
    /// Well-formedness. Construction establishes it and every operation
    /// preserves it:
    /// - the listing ledger never outgrows its `u32` id space;
    /// - ids are dense in both ledgers: record `id` lives at position `id`,
    ///   so ids are monotonic, without gaps, and never reused;
    /// - no account is registered as a vendor twice.
    pub open spec fn wf(self) -> bool {
        &&& self.listings@.len() <= u32::MAX
        &&& forall|i: int|
            0 <= i < self.listings@.len() ==> (#[trigger] self.listings@[i]).id == i
        &&& forall|i: int| 0 <= i < self.orders@.len() ==> (#[trigger] self.orders@[i]).id == i
        &&& forall|i: int, j: int|
            #![trigger self.vendors@[i], self.vendors@[j]]
            0 <= i < j < self.vendors@.len() ==> self.vendors@[i] != self.vendors@[j]
    }

    /// Fresh state: the deploying caller becomes the administrator, the
    /// registry and both ledgers start empty.
    pub fn new(caller: AccountId) -> (r: Escrow)
        ensures
            r.wf(),
            r.admin == caller,
            r.listings@ == Seq::<Listing>::empty(),
            r.orders@ == Seq::<Order>::empty(),
            r.vendors@ == Seq::<AccountId>::empty(),
    {
        Escrow {
            admin: caller,
            listings: Listings::new(),
            orders: Orders::new(),
            vendors: Vec::new(),
        }
    }

    /// The read-only configuration projection.
    pub fn config(&self) -> (r: Config)
        ensures
            r == (Config { admin: self.admin }),
    {
        Config { admin: self.admin }
    }

    /// The pure authorization lookup: whether `account` is registered.
    pub fn is_vendor(&self, account: AccountId) -> (r: bool)
        ensures
            r == self.vendors@.contains(account),
    {
        let mut i: usize = 0;
        while i < self.vendors.len()
            invariant
                i <= self.vendors@.len(),
                forall|j: int| 0 <= j < i ==> self.vendors@[j] != account,
            decreases self.vendors@.len() - i,
        {
            if self.vendors[i] == account {
                assert(self.vendors@[i as int] == account);
                return true;
            }
            i = i + 1;
        }
        false
    }

    /// Registers `caller` as a vendor, once.
    pub fn create_vendor(&mut self, caller: AccountId) -> (r: Result<(), EscrowError>)
        requires
            old(self).wf(),
        ensures
            final(self).wf(),
            create_vendor_post(*old(self), caller, *final(self), r),
    {
        if self.is_vendor(caller) {
            return Err(EscrowError::VendorAlreadyExists);
        }
        self.vendors.push(caller);
        Ok(())
    }

    /// Creates an empty listing owned by `caller`, a registered vendor, at
    /// the next id.
    pub fn create_listing(&mut self, caller: AccountId) -> (r: Result<(), EscrowError>)
        requires
            old(self).wf(),
        ensures
            final(self).wf(),
            create_listing_post(*old(self), caller, *final(self), r),
    {
        if self.listings.values.len() == u32::MAX as usize {
            return Err(EscrowError::ListingLimitReached);
        }
        if !self.is_vendor(caller) {
            return Err(EscrowError::ListingCanOnlyBeCreatedByAVendor);
        }
        let listing = Listing {
            id: self.listings.values.len() as u32,
            vendor: caller,
            available_amount: 0,
        };
        self.listings.create(&listing);
        Ok(())
    }

    /// Adds the native-currency value the host attached to the call to the
    /// caller's own listing. The value comes from the host's transfer
    /// mechanism, so the caller cannot claim more than it attached.
    pub fn deposit_into_listing(
        &mut self,
        id: u32,
        caller: AccountId,
        transferred_value: Balance,
    ) -> (r: Result<(), EscrowError>)
        requires
            old(self).wf(),
            deposit_fits(*old(self), id, caller, transferred_value),
        ensures
            final(self).wf(),
            deposit_post(*old(self), id, caller, transferred_value, *final(self), r),
    {
        if id as usize >= self.listings.values.len() {
            return Err(EscrowError::ListingNotFound);
        }
        let listing = self.listings.values[id as usize];
        if listing.vendor != caller {
            return Err(EscrowError::Unauthorised);
        }
        let updated = Listing {
            available_amount: listing.available_amount + transferred_value,
            ..listing
        };
        self.listings.update(&updated);
        Ok(())
    }

    /// Reserves `amount` of a listing's balance as a fresh open order for
    /// `caller`: value moves from available to reserved, with no native
    /// transfer; settlement happens only through withdrawal.
    pub fn create_order(
        &mut self,
        listing_id: u32,
        amount: Balance,
        caller: AccountId,
    ) -> (r: Result<(), EscrowError>)
        requires
            old(self).wf(),
            old(self).orders@.len() < u64::MAX,
        ensures
            final(self).wf(),
            create_order_post(*old(self), listing_id, amount, caller, *final(self), r),
            r is Ok ==> listing_id < old(self).listings@.len() && amount <= old(
                self,
            ).listings@[listing_id as int].available_amount,
    {
        if listing_id as usize >= self.listings.values.len() {
            return Err(EscrowError::ListingNotFound);
        }
        let listing = self.listings.values[listing_id as usize];
        if listing.vendor == caller {
            return Err(EscrowError::Unauthorised);
        }
        if amount > listing.available_amount {
            return Err(EscrowError::AmountUnavailable);
        }
        let updated = Listing { available_amount: listing.available_amount - amount, ..listing };
        self.listings.update(&updated);
        let order = Order {
            id: self.orders.values.len() as u64,
            buyer: caller,
            vendor: listing.vendor,
            amount,
            payment_verification: None,
            status: 0,
        };
        self.orders.create(&order);
        Ok(())
    }

    /// Overwrites the buyer's payment evidence and moves the order to
    /// pending verification, unless the order is finalised or cancelled.
    pub fn update_order_payment_verification(
        &mut self,
        order_id: u64,
        payment_verification: String,
        caller: AccountId,
    ) -> (r: Result<(), EscrowError>)
        requires
            old(self).wf(),
        ensures
            final(self).wf(),
            submit_verification_post(
                *old(self),
                order_id,
                payment_verification,
                caller,
                *final(self),
                r,
            ),
    {
        if order_id >= self.orders.values.len() as u64 {
            return Err(EscrowError::OrderNotFound);
        }
        let order = &self.orders.values[order_id as usize];
        if order.buyer != caller {
            return Err(EscrowError::Unauthorised);
        }
        if order.status == 2 {
            return Err(EscrowError::OrderFinalised);
        }
        if order.status == 3 {
            return Err(EscrowError::OrderCancelled);
        }
        let updated = Order {
            id: order.id,
            buyer: order.buyer,
            vendor: order.vendor,
            amount: order.amount,
            payment_verification: Some(payment_verification),
            status: 1,
        };
        self.orders.update(&updated);
        Ok(())
    }

    /// Moves `amount` out of the caller's own listing for settlement. On
    /// `Ok` the embedding pays `amount` to the vendor through the native
    /// transfer primitive and aborts the whole transaction, this decrement
    /// included, if that payment fails.
    pub fn withdraw_from_listing(
        &mut self,
        id: u32,
        amount: Balance,
        caller: AccountId,
    ) -> (r: Result<(), EscrowError>)
        requires
            old(self).wf(),
        ensures
            final(self).wf(),
            withdraw_post(*old(self), id, amount, caller, *final(self), r),
            r is Ok ==> id < old(self).listings@.len() && amount <= old(
                self,
            ).listings@[id as int].available_amount,
    {
        if id as usize >= self.listings.values.len() {
            return Err(EscrowError::ListingNotFound);
        }
        let listing = self.listings.values[id as usize];
        if listing.vendor != caller {
            return Err(EscrowError::Unauthorised);
        }
        if amount > listing.available_amount {
            return Err(EscrowError::InsufficientFunds);
        }
        let updated = Listing { available_amount: listing.available_amount - amount, ..listing };
        self.listings.update(&updated);
        Ok(())
    }
}

} // verus!
