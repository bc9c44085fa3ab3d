//! Plain data carried through the payment core: creation requests, invoice
//! records and their status, webhook endpoint configuration, and the data
//! exchanged with the authentication collaborator.

use vstd::prelude::*;
use vstd::utf8::encode_utf8;
use crate::encoding::bytes_eq;

verus! {

/// A caller's request to create an invoice: the amount in satoshis, a
/// free-form description, and the expiry in seconds from creation.
#[derive(Debug)]
pub struct PaymentRequest {
    pub amount: u64,
    pub description: String,
    pub expiry: u64,
}

impl PaymentRequest {
    /// A creation request is accepted only with a positive amount and a
    /// positive expiry.
    pub open spec fn valid(&self) -> bool {
        self.amount > 0 && self.expiry > 0
    }
}

/// Settlement state of an invoice. `Paid` and `Expired` are terminal.
#[derive(Clone, Copy, PartialEq, Eq, Structural, Debug)]
pub enum InvoiceStatus {
    Pending,
    Paid,
    Expired,
}

impl InvoiceStatus {
    /// Terminal states admit no further transition.
    pub open spec fn is_terminal(&self) -> bool {
        *self == InvoiceStatus::Paid || *self == InvoiceStatus::Expired
    }
}

/// The stable textual form of a status, as persisted and as carried in
/// webhook payloads.
pub open spec fn status_str(s: InvoiceStatus) -> Seq<char> {
    match s {
        InvoiceStatus::Pending => "Pending"@,
        InvoiceStatus::Paid => "Paid"@,
        InvoiceStatus::Expired => "Expired"@,
    }
}

/// Reading a status back from its textual form; unknown text is rejected.
pub open spec fn status_from_str(t: Seq<char>) -> Option<InvoiceStatus> {
    if t == status_str(InvoiceStatus::Pending) {
        Some(InvoiceStatus::Pending)
    } else if t == status_str(InvoiceStatus::Paid) {
        Some(InvoiceStatus::Paid)
    } else if t == status_str(InvoiceStatus::Expired) {
        Some(InvoiceStatus::Expired)
    } else {
        None
    }
}

/// Writing a status and reading it back yields the same status: the write
/// and read paths of persistence cannot drift apart.
pub proof fn lemma_status_text_roundtrip(s: InvoiceStatus)
    ensures
        status_from_str(status_str(s)) == Some(s),
{
    reveal_strlit("Pending");
    reveal_strlit("Paid");
    reveal_strlit("Expired");
    assert("Pending"@.len() == 7);
    assert("Paid"@.len() == 4);
    assert("Expired"@.len() == 7);
    assert("Pending"@[0] == 'P' && "Expired"@[0] == 'E');
}

/// Renders a status as its stable text.
pub fn status_text(s: InvoiceStatus) -> (r: &'static str)
    ensures
        r@ == status_str(s),
{
    match s {
        InvoiceStatus::Pending => "Pending",
        InvoiceStatus::Paid => "Paid",
        InvoiceStatus::Expired => "Expired",
    }
}

/// Equal UTF-8 encodings come only from equal texts.
proof fn lemma_encode_utf8_injective(a: Seq<char>, b: Seq<char>)
    requires
        encode_utf8(a) == encode_utf8(b),
    ensures
        a == b,
{
    vstd::utf8::encode_utf8_decode_utf8(a);
    vstd::utf8::encode_utf8_decode_utf8(b);
}

/// Reads a status back from its persisted text; unknown text is rejected
/// rather than defaulted.
pub fn status_from_text(t: &str) -> (r: Option<InvoiceStatus>)
    ensures
        r == status_from_str(t@),
{
    if bytes_eq(t.as_bytes(), "Pending".as_bytes()) {
        proof {
            lemma_encode_utf8_injective(t@, "Pending"@);
        }
        Some(InvoiceStatus::Pending)
    } else if bytes_eq(t.as_bytes(), "Paid".as_bytes()) {
        proof {
            lemma_encode_utf8_injective(t@, "Paid"@);
        }
        Some(InvoiceStatus::Paid)
    } else if bytes_eq(t.as_bytes(), "Expired".as_bytes()) {
        proof {
            lemma_encode_utf8_injective(t@, "Expired"@);
        }
        Some(InvoiceStatus::Expired)
    } else {
        None
    }
}

/// An invoice record. The id and the receiving address are fixed at
/// creation; only `status` may change afterwards, and only along the legal
/// transitions of the store.
#[derive(Debug, PartialEq, Eq)]
pub struct Invoice {
    pub id: String,
    pub address: String,
    pub amount: u64,
    pub description: String,
    pub status: InvoiceStatus,
    pub created_at: u64,
    pub expires_at: u64,
}

impl Invoice {
    /// Structural invariant: a positive amount and an expiry strictly after
    /// creation.
    pub open spec fn wf(&self) -> bool {
        self.amount > 0 && self.expires_at > self.created_at
    }

    /// The same record with another status; every other field is kept.
    pub open spec fn with_status(&self, s: InvoiceStatus) -> Invoice {
        Invoice { status: s, ..*self }
    }

    /// Replaces the status, keeping every other field.
    pub fn with_status_exec(self, s: InvoiceStatus) -> (r: Invoice)
        ensures
            r == self.with_status(s),
    {
        Invoice { status: s, ..self }
    }
}

impl Clone for Invoice {
    fn clone(&self) -> (r: Self)
        ensures
            r == *self,
    {
        Invoice {
            id: self.id.clone(),
            address: self.address.clone(),
            amount: self.amount,
            description: self.description.clone(),
            status: self.status,
            created_at: self.created_at,
            expires_at: self.expires_at,
        }
    }
}

/// Rebuilds an invoice from its persisted row values. A row whose status
/// text is unknown, or whose fields break the invoice invariant, is
/// rejected rather than repaired.
pub fn invoice_from_row(
    id: String,
    address: String,
    amount: u64,
    description: String,
    status: &str,
    created_at: u64,
    expires_at: u64,
) -> (r: Option<Invoice>)
    ensures
        r is Some <==> (status_from_str(status@) is Some && amount > 0 && expires_at > created_at),
        r matches Some(inv) ==> inv.id == id && inv.address == address && inv.amount == amount
            && inv.description == description && Some(inv.status) == status_from_str(status@)
            && inv.created_at == created_at && inv.expires_at == expires_at && inv.wf(),
{
    let st = match status_from_text(status) {
        Some(st) => st,
        None => {
            return None;
        },
    };
    if amount == 0 || expires_at <= created_at {
        return None;
    }
    Some(Invoice { id, address, amount, description, status: st, created_at, expires_at })
}

/// Where and how to deliver webhook notifications for an endpoint.
#[derive(Debug)]
pub struct WebhookConfig {
    pub url: String,
    pub secret: String,
}

/// The header of an outbound notification; the body is built from the
/// invoice snapshot at transition time.
#[derive(Debug, PartialEq, Eq)]
pub struct WebhookEvent {
    pub event_type: String,
    pub invoice_id: String,
    pub timestamp: u64,
}

/// Credentials presented to the authentication collaborator.
pub struct AuthRequest {
    pub username: String,
    pub password: String,
}

/// A session token issued by the authentication collaborator.
pub struct TokenResponse {
    pub token: String,
}

} // verus!
