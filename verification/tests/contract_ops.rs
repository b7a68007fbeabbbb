//! The escrow operations, exercised through the public interface.

use escrow::Escrow;
use escrow::EscrowError;
use escrow::Order;

const ALICE: u128 = 1;
const BOB: u128 = 2;
const CHARLIE: u128 = 3;

#[test]
fn test_new() {
    let escrow = Escrow::new(BOB);
    // * it sets owner as caller
    assert_eq!(escrow.admin, BOB);
    // * it sets listings
    assert_eq!(escrow.listings.values.len(), 0);
    // * it sets vendors
    assert_eq!(escrow.vendors.len(), 0);
    assert_eq!(escrow.orders.values.len(), 0);
}

#[test]
fn test_config() {
    let escrow = Escrow::new(BOB);
    let config = escrow.config();
    // * it returns the config
    assert_eq!(config.admin, BOB);
}

#[test]
fn test_create_listing() {
    let mut escrow = Escrow::new(BOB);
    // when caller isn't a vendor
    // * it raises an error
    let mut result = escrow.create_listing(BOB);
    assert_eq!(result, Err(EscrowError::ListingCanOnlyBeCreatedByAVendor));
    // when caller is a vendor
    let _ = escrow.create_vendor(BOB);
    // * it creates a listing at the listings length index
    result = escrow.create_listing(BOB);
    assert!(result.is_ok());
    assert_eq!(escrow.listings.values[0].vendor, BOB);
    assert_eq!(escrow.listings.values[0].id, 0);
    assert_eq!(escrow.listings.values[0].available_amount, 0);
    // * it increases the listings length by one
    assert_eq!(escrow.listings.values.len(), 1);
}

#[test]
fn test_create_order() {
    let mut escrow = Escrow::new(BOB);
    let _ = escrow.create_vendor(BOB);
    let _ = escrow.create_listing(BOB);

    // when listing does not exist
    // * it raises an error
    let mut result = escrow.create_order(1, 5, BOB);
    assert_eq!(result, Err(EscrowError::ListingNotFound));
    // when listing exists
    // = when caller is vendor
    // = * it raises an error
    result = escrow.create_order(0, 5, BOB);
    assert_eq!(result, Err(EscrowError::Unauthorised));
    // = when caller is not vendor
    // == when amount to purchase is not available
    // == * it raises an error
    result = escrow.create_order(0, 5, ALICE);
    assert_eq!(result, Err(EscrowError::AmountUnavailable));
    // == when amount to purchase is available
    let _ = escrow.deposit_into_listing(0, BOB, 5);
    result = escrow.create_order(0, 5, ALICE);
    assert!(result.is_ok());
    // == * it reduces the amount_availabe by the amount
    assert_eq!(escrow.listings.values[0].available_amount, 0);
    // == * it create an order
    let order = &escrow.orders.values[0];
    assert_eq!(order.amount, 5);
    assert_eq!(order.buyer, ALICE);
    assert_eq!(order.vendor, BOB);
    assert_eq!(order.id, 0);
    assert_eq!(escrow.orders.values.len(), 1);
    assert_eq!(order.status, 0);
}

#[test]
fn test_create_vendor() {
    let mut escrow = Escrow::new(BOB);
    // when account is not a vendor
    // * it creates a vendor profile for account
    let mut result = escrow.create_vendor(BOB);
    assert!(result.is_ok());
    assert!(escrow.vendors.contains(&BOB));

    // when account is already a vendor
    // * it raises an error
    result = escrow.create_vendor(BOB);
    assert_eq!(result, Err(EscrowError::VendorAlreadyExists));
}

#[test]
fn test_is_vendor_lookup() {
    let mut escrow = Escrow::new(BOB);
    assert!(!escrow.is_vendor(BOB));
    let _ = escrow.create_vendor(BOB);
    assert!(escrow.is_vendor(BOB));
    assert!(!escrow.is_vendor(ALICE));
}

#[test]
fn test_deposit_into_listing() {
    let mut escrow = Escrow::new(BOB);

    // when listing does not exist
    // * it raises an error
    let mut result = escrow.deposit_into_listing(0, BOB, 1);
    assert_eq!(result, Err(EscrowError::ListingNotFound));

    // when listing exists
    let _ = escrow.create_vendor(BOB);
    let _ = escrow.create_listing(BOB);
    // = when listing does not belong to caller
    // = * it raises an error
    result = escrow.deposit_into_listing(0, ALICE, 1);
    assert_eq!(result, Err(EscrowError::Unauthorised));
    // = when listing belongs to caller
    // = * it increases the listing available_amount
    result = escrow.deposit_into_listing(0, BOB, 1);
    assert!(result.is_ok());
    assert_eq!(escrow.listings.values[0].available_amount, 1);
}

#[test]
fn test_update_order_payment_verification() {
    let mut escrow = Escrow::new(BOB);
    let payment_verification: String = "tx-hash-that-proves-payment".to_string();

    // when order does not exist
    // * it raises an error
    let mut result =
        escrow.update_order_payment_verification(0, payment_verification.clone(), BOB);
    assert_eq!(result, Err(EscrowError::OrderNotFound));
    // when order exists
    let _ = escrow.create_vendor(BOB);
    let _ = escrow.create_listing(BOB);
    let _ = escrow.deposit_into_listing(0, BOB, 10);
    let _ = escrow.create_order(0, 5, ALICE);
    // = when called by non-buyer
    // = * it raises an error
    result = escrow.update_order_payment_verification(0, payment_verification.clone(), BOB);
    assert_eq!(result, Err(EscrowError::Unauthorised));
    // = when called by buyer
    // == when order has status finalised
    escrow.orders.update(&order_with_status(&escrow.orders.values[0], 2));
    // == * it raises an error
    result = escrow.update_order_payment_verification(0, payment_verification.clone(), ALICE);
    assert_eq!(result, Err(EscrowError::OrderFinalised));
    // == when order has status cancelled
    escrow.orders.update(&order_with_status(&escrow.orders.values[0], 3));
    // == * it raises an error
    result = escrow.update_order_payment_verification(0, payment_verification.clone(), ALICE);
    assert_eq!(result, Err(EscrowError::OrderCancelled));
    // == when order has status open
    escrow.orders.update(&order_with_status(&escrow.orders.values[0], 0));
    let _ = escrow.update_order_payment_verification(0, payment_verification.clone(), ALICE);
    // == * it updates the order's tx hash
    assert_eq!(
        escrow.orders.values[0].payment_verification,
        Some(payment_verification.clone())
    );
    // == * it updates the status to PendingVerification
    assert_eq!(escrow.orders.values[0].status, 1);
    // == when order has status PendingVerification
    // == * it updates the order's tx hash
    let payment_verification_two: String = "Hey Joni".to_string();
    let _ = escrow.update_order_payment_verification(0, payment_verification_two.clone(), ALICE);
    assert_eq!(
        escrow.orders.values[0].payment_verification,
        Some(payment_verification_two)
    );
    assert_eq!(escrow.orders.values[0].status, 1);
    // == when order has status Disputed
    escrow.orders.update(&order_with_status(&escrow.orders.values[0], 4));
    let _ = escrow.update_order_payment_verification(0, payment_verification.clone(), ALICE);
    // == * it updates the order's tx hash
    assert_eq!(
        escrow.orders.values[0].payment_verification,
        Some(payment_verification)
    );
    assert_eq!(escrow.orders.values[0].status, 1);
}

#[test]
fn test_withdraw_from_listing() {
    let mut escrow = Escrow::new(BOB);

    // when listing does not exist
    // * it raises an error
    let mut result = escrow.deposit_into_listing(0, BOB, 1);
    assert_eq!(result, Err(EscrowError::ListingNotFound));

    // when listing exists
    let _ = escrow.create_vendor(BOB);
    let _ = escrow.create_listing(BOB);
    // = when listing does not belong to caller
    // = * it raises an error
    result = escrow.deposit_into_listing(0, ALICE, 1);
    assert_eq!(result, Err(EscrowError::Unauthorised));
    // = when listing belongs to caller
    let mut bob_balance: u128 = 10;
    let _ = escrow.deposit_into_listing(0, BOB, 5);
    // == when amount is less than or equal to the the available_amount
    // == * it sends the amount to the vendor
    result = escrow.withdraw_from_listing(0, 1, BOB);
    assert!(result.is_ok());
    bob_balance += 1;
    assert_eq!(bob_balance, 11);
    // == * it reduces the available amount
    assert_eq!(escrow.listings.values[0].available_amount, 4);
    // == when amount is greater than the available_amount
    // == * it raises an error
    result = escrow.withdraw_from_listing(0, 5, BOB);
    assert_eq!(result, Err(EscrowError::InsufficientFunds));
}

#[test]
fn test_registration_grows_registry_once() {
    let mut escrow = Escrow::new(BOB);
    let before = escrow.vendors.len();
    assert_eq!(escrow.create_vendor(CHARLIE), Ok(()));
    assert_eq!(
        escrow.create_vendor(CHARLIE),
        Err(EscrowError::VendorAlreadyExists)
    );
    assert_eq!(escrow.vendors.len(), before + 1);
}

#[test]
fn test_listing_ids_are_monotonic() {
    let mut escrow = Escrow::new(BOB);
    let _ = escrow.create_vendor(BOB);
    for _ in 0..5 {
        assert_eq!(escrow.create_listing(BOB), Ok(()));
    }
    for (position, listing) in escrow.listings.values.iter().enumerate() {
        assert_eq!(listing.id as usize, position);
    }
    assert_eq!(escrow.listings.values.len(), 5);
}

#[test]
fn test_authorization_checks() {
    let mut escrow = Escrow::new(BOB);
    // a non-vendor cannot create a listing
    assert_eq!(
        escrow.create_listing(ALICE),
        Err(EscrowError::ListingCanOnlyBeCreatedByAVendor)
    );
    let _ = escrow.create_vendor(BOB);
    let _ = escrow.create_listing(BOB);
    let _ = escrow.deposit_into_listing(0, BOB, 8);
    // a vendor cannot buy its own listing
    assert_eq!(escrow.create_order(0, 1, BOB), Err(EscrowError::Unauthorised));
    // a non-buyer cannot attest payment
    let _ = escrow.create_order(0, 1, ALICE);
    assert_eq!(
        escrow.update_order_payment_verification(0, "tx1".to_string(), CHARLIE),
        Err(EscrowError::Unauthorised)
    );
}

#[test]
fn test_order_lifecycle() {
    let mut escrow = Escrow::new(BOB);
    assert_eq!(escrow.create_vendor(BOB), Ok(()));
    assert_eq!(escrow.create_listing(BOB), Ok(()));
    assert_eq!(escrow.listings.values[0].available_amount, 0);
    assert_eq!(escrow.deposit_into_listing(0, BOB, 10), Ok(()));
    assert_eq!(escrow.listings.values[0].available_amount, 10);
    assert_eq!(escrow.create_order(0, 5, ALICE), Ok(()));
    assert_eq!(escrow.listings.values[0].available_amount, 5);
    assert_eq!(escrow.orders.values[0].status, 0);
    assert_eq!(
        escrow.update_order_payment_verification(0, "tx1".to_string(), ALICE),
        Ok(())
    );
    assert_eq!(escrow.orders.values[0].status, 1);
    assert_eq!(
        escrow.orders.values[0].payment_verification,
        Some("tx1".to_string())
    );
    // an out-of-scope settlement collaborator finalises the order directly
    escrow.orders.update(&order_with_status(&escrow.orders.values[0], 2));
    assert_eq!(
        escrow.update_order_payment_verification(0, "tx2".to_string(), ALICE),
        Err(EscrowError::OrderFinalised)
    );
    assert_eq!(
        escrow.orders.values[0].payment_verification,
        Some("tx1".to_string())
    );
}

#[test]
fn test_withdrawal_scenario() {
    let mut escrow = Escrow::new(BOB);
    let _ = escrow.create_vendor(BOB);
    let _ = escrow.create_listing(BOB);
    let _ = escrow.deposit_into_listing(0, BOB, 9);
    let _ = escrow.create_order(0, 5, ALICE);
    assert_eq!(escrow.listings.values[0].available_amount, 4);
    let mut vendor_balance: u128 = 0;
    // the vendor withdraws one unit; the embedding owes it the transfer
    assert_eq!(escrow.withdraw_from_listing(0, 1, BOB), Ok(()));
    vendor_balance += 1;
    assert_eq!(escrow.listings.values[0].available_amount, 3);
    assert_eq!(vendor_balance, 1);
    // more than the remaining balance is refused and nothing changes
    assert_eq!(
        escrow.withdraw_from_listing(0, 5, BOB),
        Err(EscrowError::InsufficientFunds)
    );
    assert_eq!(escrow.listings.values[0].available_amount, 3);
    assert_eq!(escrow.orders.values.len(), 1);
}

fn order_with_status(order: &Order, status: u8) -> Order {
    Order {
        id: order.id,
        buyer: order.buyer,
        vendor: order.vendor,
        amount: order.amount,
        payment_verification: order.payment_verification.clone(),
        status,
    }
}
