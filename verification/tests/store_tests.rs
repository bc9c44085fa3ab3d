//! The invoice store's state machine and the persistence text mapping.

use btc_pay::models::{invoice_from_row, status_from_text, status_text, Invoice, InvoiceStatus};
use btc_pay::store::{InvoiceStore, StoreError};

fn invoice(id: &str, status: InvoiceStatus) -> Invoice {
    Invoice {
        id: id.to_string(),
        address: format!("addr-{id}"),
        amount: 1_000,
        description: "d".to_string(),
        status,
        created_at: 10,
        expires_at: 20,
    }
}

#[test]
fn create_then_get_returns_snapshot() {
    let mut store = InvoiceStore::new();
    let inv = invoice("a", InvoiceStatus::Pending);
    store.create(inv.clone()).unwrap();
    assert_eq!(store.get(&"a".to_string()), Some(inv));
    assert_eq!(store.get(&"b".to_string()), None);
}

#[test]
fn duplicate_id_is_refused() {
    let mut store = InvoiceStore::new();
    store.create(invoice("a", InvoiceStatus::Pending)).unwrap();
    let r = store.create(invoice("a", InvoiceStatus::Pending));
    assert_eq!(r, Err(StoreError::DuplicateId));
}

#[test]
fn pending_commits_to_either_terminal_state() {
    let mut store = InvoiceStore::new();
    store.create(invoice("a", InvoiceStatus::Pending)).unwrap();
    store.create(invoice("b", InvoiceStatus::Pending)).unwrap();
    store.update_status(&"a".to_string(), InvoiceStatus::Paid).unwrap();
    store.update_status(&"b".to_string(), InvoiceStatus::Expired).unwrap();
    assert!(matches!(store.get(&"a".to_string()).unwrap().status, InvoiceStatus::Paid));
    assert!(matches!(store.get(&"b".to_string()).unwrap().status, InvoiceStatus::Expired));
}

#[test]
fn repeating_a_status_is_a_no_op() {
    let mut store = InvoiceStore::new();
    store.create(invoice("a", InvoiceStatus::Pending)).unwrap();
    store.update_status(&"a".to_string(), InvoiceStatus::Paid).unwrap();
    assert_eq!(store.update_status(&"a".to_string(), InvoiceStatus::Paid), Ok(()));
    assert!(matches!(store.get(&"a".to_string()).unwrap().status, InvoiceStatus::Paid));
}

#[test]
fn terminal_states_cannot_cross() {
    let mut store = InvoiceStore::new();
    store.create(invoice("a", InvoiceStatus::Pending)).unwrap();
    store.create(invoice("b", InvoiceStatus::Pending)).unwrap();
    store.update_status(&"a".to_string(), InvoiceStatus::Paid).unwrap();
    store.update_status(&"b".to_string(), InvoiceStatus::Expired).unwrap();

    let r = store.update_status(&"a".to_string(), InvoiceStatus::Expired);
    assert_eq!(r, Err(StoreError::IllegalTransition));
    assert!(matches!(store.get(&"a".to_string()).unwrap().status, InvoiceStatus::Paid));

    let r = store.update_status(&"b".to_string(), InvoiceStatus::Paid);
    assert_eq!(r, Err(StoreError::IllegalTransition));
    assert!(matches!(store.get(&"b".to_string()).unwrap().status, InvoiceStatus::Expired));
}

#[test]
fn terminal_states_cannot_return_to_pending() {
    let mut store = InvoiceStore::new();
    store.create(invoice("a", InvoiceStatus::Pending)).unwrap();
    store.update_status(&"a".to_string(), InvoiceStatus::Paid).unwrap();
    let r = store.update_status(&"a".to_string(), InvoiceStatus::Pending);
    assert_eq!(r, Err(StoreError::IllegalTransition));
}

#[test]
fn updating_an_unknown_id_is_not_found() {
    let mut store = InvoiceStore::new();
    let r = store.update_status(&"nope".to_string(), InvoiceStatus::Paid);
    assert_eq!(r, Err(StoreError::NotFound));
}

#[test]
fn pending_invoices_lists_only_pending() {
    let mut store = InvoiceStore::new();
    store.create(invoice("a", InvoiceStatus::Pending)).unwrap();
    store.create(invoice("b", InvoiceStatus::Pending)).unwrap();
    store.create(invoice("c", InvoiceStatus::Pending)).unwrap();
    store.update_status(&"b".to_string(), InvoiceStatus::Paid).unwrap();
    let pending = store.get_pending_invoices();
    let ids: Vec<&str> = pending.iter().map(|i| i.id.as_str()).collect();
    assert_eq!(ids, vec!["a", "c"]);
}

#[test]
fn status_text_round_trips() {
    for st in [InvoiceStatus::Pending, InvoiceStatus::Paid, InvoiceStatus::Expired] {
        assert_eq!(status_from_text(status_text(st)), Some(st));
    }
    assert_eq!(status_text(InvoiceStatus::Pending), "Pending");
    assert_eq!(status_text(InvoiceStatus::Paid), "Paid");
    assert_eq!(status_text(InvoiceStatus::Expired), "Expired");
    assert_eq!(status_from_text("bogus"), None);
    assert_eq!(status_from_text("pending"), None);
}

#[test]
fn rows_rebuild_only_valid_invoices() {
    let ok = invoice_from_row(
        "id-1".to_string(),
        "addr-1".to_string(),
        500,
        "lunch".to_string(),
        "Paid",
        100,
        200,
    )
    .unwrap();
    assert_eq!(ok.id, "id-1");
    assert_eq!(ok.amount, 500);
    assert!(matches!(ok.status, InvoiceStatus::Paid));

    let bad_status = invoice_from_row(
        "i".to_string(),
        "a".to_string(),
        500,
        "d".to_string(),
        "Settled",
        100,
        200,
    );
    assert_eq!(bad_status, None);

    let zero_amount =
        invoice_from_row("i".to_string(), "a".to_string(), 0, "d".to_string(), "Paid", 100, 200);
    assert_eq!(zero_amount, None);

    let bad_window =
        invoice_from_row("i".to_string(), "a".to_string(), 5, "d".to_string(), "Paid", 200, 200);
    assert_eq!(bad_window, None);
}
