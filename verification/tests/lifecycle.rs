//! End-to-end behaviour of the payment lifecycle controller.

use btc_pay::handlers::{check_payment_status, create_invoice, get_invoice, PayError};
use btc_pay::issuer::AddressIssuer;
use btc_pay::models::{InvoiceStatus, PaymentRequest};
use btc_pay::store::InvoiceStore;

fn request(amount: u64, expiry: u64) -> PaymentRequest {
    PaymentRequest {
        amount,
        description: "Test payment".to_string(),
        expiry,
    }
}

#[test]
fn create_yields_pending_invoice() {
    let mut store = InvoiceStore::new();
    let mut issuer = AddressIssuer::new();
    let inv = create_invoice(&mut store, &mut issuer, request(50000, 3600), 1_000).unwrap();
    assert_eq!(inv.amount, 50000);
    assert_eq!(inv.description, "Test payment");
    assert!(matches!(inv.status, InvoiceStatus::Pending));
    assert_eq!(inv.created_at, 1_000);
    assert_eq!(inv.expires_at, 4_600);
    assert_eq!(inv.id.len(), 36);
    assert!(!inv.address.is_empty());
}

#[test]
fn create_rejects_invalid_requests() {
    let mut store = InvoiceStore::new();
    let mut issuer = AddressIssuer::new();
    let r = create_invoice(&mut store, &mut issuer, request(0, 3600), 1_000);
    assert!(matches!(r, Err(PayError::InvalidRequest)));
    let r = create_invoice(&mut store, &mut issuer, request(50000, 0), 1_000);
    assert!(matches!(r, Err(PayError::InvalidRequest)));
}

#[test]
fn created_invoices_are_unique() {
    let mut store = InvoiceStore::new();
    let mut issuer = AddressIssuer::new();
    let a = create_invoice(&mut store, &mut issuer, request(1, 10), 0).unwrap();
    let b = create_invoice(&mut store, &mut issuer, request(2, 20), 0).unwrap();
    assert_ne!(a.id, b.id);
    assert_ne!(a.address, b.address);
}

#[test]
fn get_invoice_finds_created_and_rejects_unknown() {
    let mut store = InvoiceStore::new();
    let mut issuer = AddressIssuer::new();
    let inv = create_invoice(&mut store, &mut issuer, request(7, 60), 5).unwrap();
    let got = get_invoice(&store, &inv.id).unwrap();
    assert_eq!(got, inv);
    let missing = get_invoice(&store, &"no-such-id".to_string());
    assert!(matches!(missing, Err(PayError::NotFound)));
}

#[test]
fn pending_invoice_stays_pending_before_expiry() {
    let mut store = InvoiceStore::new();
    let mut issuer = AddressIssuer::new();
    let inv = create_invoice(&mut store, &mut issuer, request(50000, 3600), 1_000).unwrap();
    let checked = check_payment_status(&mut store, &inv.id, Ok(false), 1_001).unwrap();
    assert!(matches!(checked.status, InvoiceStatus::Pending));
}

#[test]
fn payment_observation_settles_invoice() {
    let mut store = InvoiceStore::new();
    let mut issuer = AddressIssuer::new();
    let inv = create_invoice(&mut store, &mut issuer, request(50000, 3600), 1_000).unwrap();
    let checked = check_payment_status(&mut store, &inv.id, Ok(true), 1_500).unwrap();
    assert!(matches!(checked.status, InvoiceStatus::Paid));
    let again = get_invoice(&store, &inv.id).unwrap();
    assert!(matches!(again.status, InvoiceStatus::Paid));
}

#[test]
fn payment_wins_over_simultaneous_expiry() {
    // Both conditions hold at reconciliation time: payment takes priority.
    let mut store = InvoiceStore::new();
    let mut issuer = AddressIssuer::new();
    let inv = create_invoice(&mut store, &mut issuer, request(50000, 3600), 1_000).unwrap();
    let checked = check_payment_status(&mut store, &inv.id, Ok(true), 10_000).unwrap();
    assert!(matches!(checked.status, InvoiceStatus::Paid));
}

#[test]
fn terminal_status_never_changes_on_later_checks() {
    let mut store = InvoiceStore::new();
    let mut issuer = AddressIssuer::new();
    let inv = create_invoice(&mut store, &mut issuer, request(50000, 3600), 1_000).unwrap();
    let paid = check_payment_status(&mut store, &inv.id, Ok(true), 1_500).unwrap();
    assert!(matches!(paid.status, InvoiceStatus::Paid));
    let again = check_payment_status(&mut store, &inv.id, Ok(false), 999_999).unwrap();
    assert!(matches!(again.status, InvoiceStatus::Paid));
    let again = check_payment_status(&mut store, &inv.id, Err("down".to_string()), 999_999).unwrap();
    assert!(matches!(again.status, InvoiceStatus::Paid));
}

#[test]
fn chain_error_leaves_invoice_untouched() {
    let mut store = InvoiceStore::new();
    let mut issuer = AddressIssuer::new();
    let inv = create_invoice(&mut store, &mut issuer, request(50000, 3600), 1_000).unwrap();
    let before = get_invoice(&store, &inv.id).unwrap();
    let r = check_payment_status(&mut store, &inv.id, Err("provider down".to_string()), 9_999);
    assert!(matches!(r, Err(PayError::ChainQueryError(ref m)) if m == "provider down"));
    let after = get_invoice(&store, &inv.id).unwrap();
    assert_eq!(before, after);
}

#[test]
fn expiry_then_late_payment_stays_expired() {
    // Create with amount 50000 and expiry 3600; an immediate check is
    // pending; past the expiry with no payment it expires; a payment
    // observed only on a later call no longer changes the recorded state.
    let mut store = InvoiceStore::new();
    let mut issuer = AddressIssuer::new();
    let inv = create_invoice(&mut store, &mut issuer, request(50000, 3600), 1_000).unwrap();
    let first = check_payment_status(&mut store, &inv.id, Ok(false), 1_000).unwrap();
    assert!(matches!(first.status, InvoiceStatus::Pending));
    let expired = check_payment_status(&mut store, &inv.id, Ok(false), 4_601).unwrap();
    assert!(matches!(expired.status, InvoiceStatus::Expired));
    let late = check_payment_status(&mut store, &inv.id, Ok(true), 5_000).unwrap();
    assert!(matches!(late.status, InvoiceStatus::Expired));
}

#[test]
fn check_unknown_invoice_is_not_found() {
    let mut store = InvoiceStore::new();
    let r = check_payment_status(&mut store, &"missing".to_string(), Ok(true), 0);
    assert!(matches!(r, Err(PayError::NotFound)));
}
