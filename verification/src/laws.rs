//! Laws of the escrow core, each proved once and for all states.

use vstd::prelude::*;

use crate::AccountId;
use crate::Balance;
use crate::contract::{
    Escrow, create_listing_post, create_order_post, create_vendor_post, deposit_fits,
    deposit_post, unchanged, withdraw_post,
};
use crate::errors::EscrowError;
use crate::listings::Listing;
use crate::orders::Order;
use crate::pagination::{page_count, page_in_window, page_newest, page_oldest};

verus! {

/// The value sitting in listings: the sum of every available balance.
pub open spec fn total_available(listings: Seq<Listing>) -> int
    decreases listings.len(),
{
    if listings.len() == 0 {
        0
    } else {
        total_available(listings.drop_last()) + listings.last().available_amount
    }
}

/// The value reserved by orders: the sum of every order's amount.
pub open spec fn total_reserved(orders: Seq<Order>) -> int
    decreases orders.len(),
{
    if orders.len() == 0 {
        0
    } else {
        total_reserved(orders.drop_last()) + orders.last().amount
    }
}

proof fn lemma_total_available_push(listings: Seq<Listing>, listing: Listing)
    ensures
        total_available(listings.push(listing)) == total_available(listings)
            + listing.available_amount,
{
    assert(listings.push(listing).drop_last() =~= listings);
}

proof fn lemma_total_reserved_push(orders: Seq<Order>, order: Order)
    ensures
        total_reserved(orders.push(order)) == total_reserved(orders) + order.amount,
{
    assert(orders.push(order).drop_last() =~= orders);
}

proof fn lemma_total_available_update(listings: Seq<Listing>, i: int, listing: Listing)
    requires
        0 <= i < listings.len(),
    ensures
        total_available(listings.update(i, listing)) == total_available(listings)
            - listings[i].available_amount + listing.available_amount,
    decreases listings.len(),
{
    if i == listings.len() - 1 {
        assert(listings.update(i, listing).drop_last() =~= listings.drop_last());
    } else {
        lemma_total_available_update(listings.drop_last(), i, listing);
        assert(listings.update(i, listing).drop_last() =~= listings.drop_last().update(i, listing));
    }
}

/// Registration is idempotent: registering the same fresh account twice in
/// a row returns `Ok` and then `VendorAlreadyExists`, grows the registry by
/// exactly one account, and the refused call changes nothing.
pub proof fn lemma_registration_idempotent(
    s0: Escrow,
    s1: Escrow,
    s2: Escrow,
    caller: AccountId,
    r1: Result<(), EscrowError>,
    r2: Result<(), EscrowError>,
)
    requires
        !s0.vendors@.contains(caller),
        create_vendor_post(s0, caller, s1, r1),
        create_vendor_post(s1, caller, s2, r2),
    ensures
        r1 == Ok::<(), EscrowError>(()),
        r2 == Err::<(), EscrowError>(EscrowError::VendorAlreadyExists),
        s1.vendors@.len() == s0.vendors@.len() + 1,
        unchanged(s1, s2),
{
    assert(s1.vendors@[s0.vendors@.len() as int] == caller);
    assert(s1.vendors@.contains(caller));
}

/// Listing ids are monotonic: a well-formed state holds listing `i` of the
/// creation order under id `i`, so ids grow strictly with creation order,
/// with no gaps and no reuse.
pub proof fn lemma_listing_ids_monotonic(s: Escrow)
    requires
        s.wf(),
    ensures
        forall|i: int| 0 <= i < s.listings@.len() ==> (#[trigger] s.listings@[i]).id == i,
        forall|i: int, j: int|
            #![trigger s.listings@[i], s.listings@[j]]
            0 <= i < j < s.listings@.len() ==> s.listings@[i].id < s.listings@[j].id,
{
}

/// Order ids are monotonic, exactly as listing ids are.
pub proof fn lemma_order_ids_monotonic(s: Escrow)
    requires
        s.wf(),
    ensures
        forall|i: int| 0 <= i < s.orders@.len() ==> (#[trigger] s.orders@[i]).id == i,
        forall|i: int, j: int|
            #![trigger s.orders@[i], s.orders@[j]]
            0 <= i < j < s.orders@.len() ==> s.orders@[i].id < s.orders@[j].id,
{
}

/// A successful reservation conserves value: it never exceeds the listing's
/// available balance, it moves exactly the ordered amount from that balance
/// into the new order's reserved amount, and it touches no other listing
/// and no existing order.
pub proof fn lemma_reservation_conserves_value(
    pre: Escrow,
    listing_id: u32,
    amount: Balance,
    caller: AccountId,
    post: Escrow,
    r: Result<(), EscrowError>,
)
    requires
        create_order_post(pre, listing_id, amount, caller, post, r),
        r is Ok,
    ensures
        listing_id < pre.listings@.len(),
        amount <= pre.listings@[listing_id as int].available_amount,
        post.listings@[listing_id as int].available_amount + amount == pre.listings@[
            listing_id as int
        ].available_amount,
        post.orders@.last().amount == amount,
        post.orders@.len() == pre.orders@.len() + 1,
        forall|i: int|
            0 <= i < pre.listings@.len() && i != listing_id ==> post.listings@[i]
                == pre.listings@[i],
        forall|i: int| 0 <= i < pre.orders@.len() ==> post.orders@[i] == pre.orders@[i],
        total_available(post.listings@) + total_reserved(post.orders@) == total_available(
            pre.listings@,
        ) + total_reserved(pre.orders@),
{
    let reserved = Listing {
        available_amount: (pre.listings@[listing_id as int].available_amount - amount) as Balance,
        ..pre.listings@[listing_id as int]
    };
    lemma_total_available_update(pre.listings@, listing_id as int, reserved);
    lemma_total_reserved_push(pre.orders@, post.orders@.last());
}

/// A successful withdrawal conserves value: it never exceeds the listing's
/// available balance, it removes exactly the withdrawn amount, owed to the
/// vendor by native transfer, and it touches no other listing and no order.
pub proof fn lemma_withdrawal_conserves_value(
    pre: Escrow,
    id: u32,
    amount: Balance,
    caller: AccountId,
    post: Escrow,
    r: Result<(), EscrowError>,
)
    requires
        withdraw_post(pre, id, amount, caller, post, r),
        r is Ok,
    ensures
        id < pre.listings@.len(),
        caller == pre.listings@[id as int].vendor,
        amount <= pre.listings@[id as int].available_amount,
        post.listings@[id as int].available_amount + amount == pre.listings@[
            id as int
        ].available_amount,
        post.orders@ == pre.orders@,
        forall|i: int|
            0 <= i < pre.listings@.len() && i != id ==> post.listings@[i] == pre.listings@[i],
        total_available(post.listings@) + amount == total_available(pre.listings@),
{
    let drained = Listing {
        available_amount: (pre.listings@[id as int].available_amount - amount) as Balance,
        ..pre.listings@[id as int]
    };
    lemma_total_available_update(pre.listings@, id as int, drained);
}

/// A fresh listing carries no value: creating one leaves the total of
/// listing balances, and the orders, exactly as they were.
pub proof fn lemma_listing_creation_adds_no_value(
    pre: Escrow,
    caller: AccountId,
    post: Escrow,
    r: Result<(), EscrowError>,
)
    requires
        create_listing_post(pre, caller, post, r),
        r is Ok,
    ensures
        total_available(post.listings@) == total_available(pre.listings@),
        post.listings@.len() == pre.listings@.len() + 1,
        post.orders@ == pre.orders@,
{
    lemma_total_available_push(
        pre.listings@,
        Listing { id: pre.listings@.len() as u32, vendor: caller, available_amount: 0 },
    );
}

/// A successful deposit adds exactly the attached value to the total of
/// listing balances and reserves nothing.
pub proof fn lemma_deposit_adds_value(
    pre: Escrow,
    id: u32,
    caller: AccountId,
    transferred_value: Balance,
    post: Escrow,
    r: Result<(), EscrowError>,
)
    requires
        deposit_fits(pre, id, caller, transferred_value),
        deposit_post(pre, id, caller, transferred_value, post, r),
        r is Ok,
    ensures
        total_available(post.listings@) == total_available(pre.listings@) + transferred_value,
        post.orders@ == pre.orders@,
{
    let topped = Listing {
        available_amount: (pre.listings@[id as int].available_amount
            + transferred_value) as Balance,
        ..pre.listings@[id as int]
    };
    lemma_total_available_update(pre.listings@, id as int, topped);
}

/// The pagination window's boundary behavior, kept exactly as specified:
/// a page's window is inside the ledger, holds between 1 and `size + 1`
/// records (both ends of the window are inclusive), and consecutive pages
/// share exactly one record: the oldest of one page is the newest of the
/// next.
pub proof fn lemma_pagination_window(length: int, page: int, size: int, skip_cap: int)
    requires
        0 <= page,
        0 <= size,
        page_in_window(length, page, size, skip_cap),
    ensures
        0 <= page_oldest(length, page, size) <= page_newest(length, page, size) < length,
        1 <= page_count(length, page, size) <= size + 1,
        page_in_window(length, page + 1, size, skip_cap) ==> page_oldest(length, page, size)
            == page_newest(length, page + 1, size),
{
    assert(0 <= page * size) by (nonlinear_arith)
        requires
            0 <= page && 0 <= size,
    ;
    assert((page + 1) * size == page * size + size) by (nonlinear_arith);
}

} // verus!
