//! Webhook preparation: the notification payload describing an invoice
//! snapshot, and the authentication code computed over the exact bytes to
//! be sent, keyed by the endpoint's shared secret. The transport that
//! performs the delivery lives outside this crate; a delivery failure
//! never touches invoice state, since the payload is a pure function of
//! the snapshot.

use vstd::prelude::*;
use vstd::utf8::encode_utf8;
use crate::encoding::{
    append_decimal, append_json_escaped, append_str_bytes, dec_bytes, esc_bytes, hex_encode,
    hex_of,
};
use crate::models::{Invoice, WebhookConfig, WebhookEvent, status_str, status_text};

verus! {

/// The authentication code over a message under a key.
pub uninterp spec fn hmac_sha256_of(key: Seq<u8>, msg: Seq<u8>) -> Seq<u8>;

/// Relies on hmac::Hmac over sha2::Sha256: the code depends on the key and
/// the message alone and is 32 bytes long. This construction accepts a key
/// of any length, so building it cannot fail.
#[verifier::external_body]
fn hmac_sha256(key: &[u8], msg: &[u8]) -> (r: Vec<u8>)
    ensures
        r@ == hmac_sha256_of(key@, msg@),
        r@.len() == 32,
{
    let mut mac = <hmac::Hmac<sha2::Sha256> as hmac::Mac>::new_from_slice(key).expect(
        "a key of any length is accepted",
    );
    hmac::Mac::update(&mut mac, msg);
    hmac::Mac::finalize(mac).into_bytes().to_vec()
}

/// The notification body for an invoice snapshot taken at `now`: one JSON
/// object carrying the event type, the invoice id, the timestamp, and the
/// snapshot's status, address, amount and description, with every
/// free-form field JSON-escaped. Timestamps are carried as JSON numbers
/// counting seconds, the form the whole core keeps time in; receivers
/// should expect numbers, not formatted dates.
pub open spec fn payload_of(inv: Invoice, now: u64) -> Seq<u8> {
    encode_utf8("{\"event_type\":\"invoice.updated\",\"invoice_id\":\""@) + esc_bytes(
        encode_utf8(inv.id@),
    ) + encode_utf8("\",\"timestamp\":"@) + dec_bytes(now as nat) + encode_utf8(
        ",\"data\":{\"status\":\""@,
    ) + encode_utf8(status_str(inv.status)) + encode_utf8("\",\"address\":\""@) + esc_bytes(
        encode_utf8(inv.address@),
    ) + encode_utf8("\",\"amount\":"@) + dec_bytes(inv.amount as nat) + encode_utf8(
        ",\"description\":\""@,
    ) + esc_bytes(encode_utf8(inv.description@)) + encode_utf8("\"}}"@)
}

/// Builds exactly the bytes of `payload_of` for the snapshot.
pub fn build_payload(inv: &Invoice, now: u64) -> (r: Vec<u8>)
    ensures
        r@ == payload_of(*inv, now),
{
    let mut v: Vec<u8> = Vec::new();
    append_str_bytes(&mut v, "{\"event_type\":\"invoice.updated\",\"invoice_id\":\"");
    append_json_escaped(&mut v, inv.id.as_str().as_bytes());
    append_str_bytes(&mut v, "\",\"timestamp\":");
    append_decimal(&mut v, now);
    append_str_bytes(&mut v, ",\"data\":{\"status\":\"");
    append_str_bytes(&mut v, status_text(inv.status));
    append_str_bytes(&mut v, "\",\"address\":\"");
    append_json_escaped(&mut v, inv.address.as_str().as_bytes());
    append_str_bytes(&mut v, "\",\"amount\":");
    append_decimal(&mut v, inv.amount);
    append_str_bytes(&mut v, ",\"description\":\"");
    append_json_escaped(&mut v, inv.description.as_str().as_bytes());
    append_str_bytes(&mut v, "\"}}");
    proof {
        assert(v@ =~= payload_of(*inv, now));
    }
    v
}

/// Prepares notification deliveries; the transport that sends them is an
/// external collaborator.
pub struct WebhookManager {}

impl WebhookManager {
    /// A dispatcher.
    pub fn new() -> (r: Self) {
        WebhookManager {  }
    }

    /// The authentication code for a payload under an endpoint secret,
    /// rendered in lowercase hexadecimal. Receivers recompute it over the
    /// exact bytes received to authenticate the origin and detect
    /// tampering.
    pub fn calculate_signature(&self, payload: &[u8], secret: &[u8]) -> (r: String)
        ensures
            r@ == hex_of(hmac_sha256_of(secret@, payload@)),
    {
        let code = hmac_sha256(secret, payload);
        hex_encode(code.as_slice())
    }

    /// Prepares one status notification for the invoice snapshot: the
    /// event header, the exact payload bytes, and the authentication code
    /// over exactly those bytes keyed by the endpoint's secret. At most
    /// one delivery attempt is made with it, by the transport; nothing
    /// here retries or blocks.
    pub fn notify_payment_status(
        &self,
        invoice: &Invoice,
        webhook: &WebhookConfig,
        now: u64,
    ) -> (r: (WebhookEvent, Vec<u8>, String))
        ensures
            r.0.event_type@ == "invoice.updated"@,
            r.0.invoice_id@ == invoice.id@,
            r.0.timestamp == now,
            r.1@ == payload_of(*invoice, now),
            r.2@ == hex_of(
                hmac_sha256_of(encode_utf8(webhook.secret@), payload_of(*invoice, now)),
            ),
    {
        let payload = build_payload(invoice, now);
        let signature = self.calculate_signature(
            payload.as_slice(),
            webhook.secret.as_str().as_bytes(),
        );
        let event = WebhookEvent {
            event_type: "invoice.updated".to_owned(),
            invoice_id: invoice.id.clone(),
            timestamp: now,
        };
        (event, payload, signature)
    }
}

} // verus!
