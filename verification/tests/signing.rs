//! The signing-device session protocol, the integrity check on the
//! device's answer, and the broadcast decision around it.

use btc_pay::handlers::{sign_transaction, BroadcastDecision, PayError};
use btc_pay::models::{Invoice, InvoiceStatus};
use btc_pay::store::InvoiceStore;
use btc_pay::trezor::{
    DeviceResponse, OutPointRef, Transaction, TrezorClient, TrezorError, TxInput, TxOutput,
};
use sha2::Digest;

// A well-known testnet pay-to-public-key-hash address.
const DEST: &str = "mipcBbFg9gMiCh81Kj8tqqdgoZub1ZJRfn";

fn store_with_invoice(id: &str) -> InvoiceStore {
    let mut store = InvoiceStore::new();
    store
        .create(Invoice {
            id: id.to_string(),
            address: DEST.to_string(),
            amount: 50_000,
            description: "outbound".to_string(),
            status: InvoiceStatus::Paid,
            created_at: 1,
            expires_at: 2,
        })
        .unwrap();
    store
}

fn connected_client() -> TrezorClient {
    let mut client = TrezorClient::new();
    client.connect(Some("/dev/trezor0".to_string())).unwrap();
    client
}

fn template(client: &TrezorClient) -> Transaction {
    let outpoint = OutPointRef { txid: [7u8; 32], vout: 1 };
    let spent = TxOutput { value: 60_000, script_pubkey: vec![0x51] };
    client
        .build_transaction(vec![(outpoint, spent)], vec![(DEST.to_string(), 50_000)])
        .unwrap()
}

fn signed_like(t: &Transaction) -> Transaction {
    // The same shape, with the signature script filled in as a device would.
    let mut copy = Transaction {
        version: t.version,
        lock_time: t.lock_time,
        input: Vec::new(),
        output: Vec::new(),
    };
    for i in &t.input {
        copy.input.push(TxInput {
            previous_output: i.previous_output,
            script_sig: vec![0xaa, 0xbb],
            sequence: i.sequence,
            witness: Vec::new(),
        });
    }
    for o in &t.output {
        copy.output.push(TxOutput { value: o.value, script_pubkey: o.script_pubkey.clone() });
    }
    copy
}

#[test]
fn build_transaction_fills_the_template() {
    let client = connected_client();
    let t = template(&client);
    assert_eq!(t.version, 2);
    assert_eq!(t.lock_time, 0);
    assert_eq!(t.input.len(), 1);
    assert_eq!(t.input[0].previous_output.txid, [7u8; 32]);
    assert_eq!(t.input[0].previous_output.vout, 1);
    assert!(t.input[0].script_sig.is_empty());
    assert_eq!(t.input[0].sequence, 0xFFFFFFFF);
    assert_eq!(t.output.len(), 1);
    assert_eq!(t.output[0].value, 50_000);
    // A pay-to-public-key-hash script: OP_DUP OP_HASH160 <20 bytes>
    // OP_EQUALVERIFY OP_CHECKSIG.
    let script = &t.output[0].script_pubkey;
    assert_eq!(script.len(), 25);
    assert_eq!(script[0], 0x76);
    assert_eq!(script[1], 0xa9);
    assert_eq!(script[2], 0x14);
    assert_eq!(script[23], 0x88);
    assert_eq!(script[24], 0xac);
}

#[test]
fn build_transaction_rejects_an_invalid_address() {
    let client = connected_client();
    let outpoint = OutPointRef { txid: [0u8; 32], vout: 0 };
    let spent = TxOutput { value: 1, script_pubkey: vec![] };
    let r = client.build_transaction(
        vec![(outpoint, spent)],
        vec![("not-an-address".to_string(), 1)],
    );
    assert!(matches!(r, Err(TrezorError::ValidationFailed(_))));
}

#[test]
fn connect_without_a_device_fails() {
    let mut client = TrezorClient::new();
    let r = client.connect(None);
    assert!(matches!(r, Err(TrezorError::DeviceNotFound)));
}

#[test]
fn signing_needs_a_connected_session() {
    let mut client = TrezorClient::new();
    let t = Transaction { version: 2, lock_time: 0, input: vec![], output: vec![] };
    let r = client.sign_transaction(&t, DeviceResponse::Refused);
    assert!(matches!(r, Err(TrezorError::ConnectionFailed(_))));
}

#[test]
fn a_matching_answer_yields_the_signed_transaction() {
    let mut client = connected_client();
    let t = template(&client);
    let signed = signed_like(&t);
    let raw = vec![1u8, 2, 3, 4];
    let st = client
        .sign_transaction(&t, DeviceResponse::Signed { tx: signed, raw: raw.clone() })
        .unwrap();
    assert_eq!(st.raw, raw);
    assert_eq!(st.txid.len(), 32);
    // The id is the double SHA-256 of the raw bytes.
    let once = sha2::Sha256::digest(&raw);
    let twice = sha2::Sha256::digest(once);
    assert_eq!(st.txid.as_slice(), twice.as_slice());
}

#[test]
fn a_reshaped_answer_is_an_integrity_violation() {
    let mut client = connected_client();
    let t = template(&client);
    let mut reshaped = signed_like(&t);
    reshaped.output.push(TxOutput { value: 9_999, script_pubkey: vec![0x51] });
    let r = client.sign_transaction(&t, DeviceResponse::Signed { tx: reshaped, raw: vec![1] });
    assert!(matches!(r, Err(TrezorError::IntegrityViolation)));
}

#[test]
fn a_redirected_output_is_an_integrity_violation() {
    let mut client = connected_client();
    let t = template(&client);
    let mut redirected = signed_like(&t);
    redirected.output[0].script_pubkey = vec![0x00, 0x14];
    let r = client.sign_transaction(&t, DeviceResponse::Signed { tx: redirected, raw: vec![1] });
    assert!(matches!(r, Err(TrezorError::IntegrityViolation)));
}

#[test]
fn no_broadcast_payload_exists_for_a_reshaped_answer() {
    let store = store_with_invoice("inv-sign");
    let mut client = connected_client();
    let t = template(&client);
    let mut reshaped = signed_like(&t);
    reshaped.input.clear();
    let d = sign_transaction(
        &store,
        &"inv-sign".to_string(),
        &mut client,
        &t,
        DeviceResponse::Signed { tx: reshaped, raw: vec![1] },
    )
    .unwrap();
    assert!(matches!(d, BroadcastDecision::Withhold(TrezorError::IntegrityViolation)));
}

#[test]
fn a_matching_answer_is_submitted_as_hex_of_the_raw_bytes() {
    let store = store_with_invoice("inv-sign");
    let mut client = connected_client();
    let t = template(&client);
    let signed = signed_like(&t);
    let d = sign_transaction(
        &store,
        &"inv-sign".to_string(),
        &mut client,
        &t,
        DeviceResponse::Signed { tx: signed, raw: vec![0x00, 0xff, 0x10] },
    )
    .unwrap();
    match d {
        BroadcastDecision::Submit(st, hex) => {
            assert_eq!(st.raw, vec![0x00, 0xff, 0x10]);
            assert_eq!(hex, "00ff10");
        }
        BroadcastDecision::Withhold(e) => panic!("withheld: {e:?}"),
    }
}

#[test]
fn signing_an_unknown_invoice_is_not_found() {
    let store = store_with_invoice("inv-sign");
    let mut client = connected_client();
    let t = template(&client);
    let signed = signed_like(&t);
    let r = sign_transaction(
        &store,
        &"no-such-invoice".to_string(),
        &mut client,
        &t,
        DeviceResponse::Signed { tx: signed, raw: vec![1] },
    );
    assert!(matches!(r, Err(PayError::NotFound)));
    // The device was never engaged: a new request may begin at once.
    assert!(client.begin_sign().is_ok());
}

#[test]
fn a_busy_session_withholds_device_busy() {
    let store = store_with_invoice("inv-sign");
    let mut client = connected_client();
    let t = template(&client);
    client.begin_sign().unwrap();
    let d = sign_transaction(
        &store,
        &"inv-sign".to_string(),
        &mut client,
        &t,
        DeviceResponse::Refused,
    )
    .unwrap();
    assert!(matches!(d, BroadcastDecision::Withhold(TrezorError::DeviceBusy)));
}

#[test]
fn a_policy_rejection_is_a_validation_failure() {
    let mut client = connected_client();
    let t = template(&client);
    let r = client.sign_transaction(&t, DeviceResponse::PolicyRejected("outputs exceed inputs".to_string()));
    match r {
        Err(TrezorError::ValidationFailed(reason)) => {
            assert_eq!(reason, "outputs exceed inputs");
        }
        other => panic!("unexpected: {other:?}"),
    }
    // The session survives the device's policy verdict.
    assert!(client.begin_sign().is_ok());
}

#[test]
fn a_second_signing_request_is_busy() {
    let mut client = connected_client();
    assert!(client.begin_sign().is_ok());
    let r = client.begin_sign();
    assert!(matches!(r, Err(TrezorError::DeviceBusy)));
}

#[test]
fn a_refusal_keeps_the_session_usable() {
    let mut client = connected_client();
    let t = template(&client);
    let r = client.sign_transaction(&t, DeviceResponse::Refused);
    assert!(matches!(r, Err(TrezorError::SigningRefused)));
    // The session is connected again: a new attempt may begin.
    assert!(client.begin_sign().is_ok());
}

#[test]
fn a_lost_connection_disconnects_until_reconnect() {
    let mut client = connected_client();
    let t = template(&client);
    let r = client.sign_transaction(&t, DeviceResponse::ConnectionLost);
    assert!(matches!(r, Err(TrezorError::ConnectionFailed(_))));
    let r = client.begin_sign();
    assert!(matches!(r, Err(TrezorError::ConnectionFailed(_))));
    client.connect(None).unwrap();
    assert!(client.begin_sign().is_ok());
}

#[test]
fn cancelling_returns_the_session_to_connected() {
    let mut client = connected_client();
    client.begin_sign().unwrap();
    client.cancel_sign();
    assert!(client.begin_sign().is_ok());
}

#[test]
fn failures_render_as_text() {
    assert_eq!(TrezorError::DeviceNotFound.message(), "Trezor device not found");
    assert_eq!(
        TrezorError::ConnectionFailed("no transport".to_string()).message(),
        "Failed to connect to Trezor: no transport"
    );
    assert_eq!(
        TrezorError::IntegrityViolation.message(),
        "Signed transaction does not match the request"
    );
}

#[test]
fn transaction_hex_is_the_consensus_encoding() {
    let client = connected_client();
    let empty = Transaction { version: 2, lock_time: 0, input: vec![], output: vec![] };
    let hex = client.get_transaction_hex(&empty).unwrap();
    // A transaction without inputs takes the extended encoding: version,
    // marker and flag, empty input and output lists, lock time.
    assert_eq!(hex, "020000000001000000000000");
}
