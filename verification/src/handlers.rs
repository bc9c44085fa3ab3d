//! The payment lifecycle controller: creation, settlement reconciliation
//! and the read path. Chain observations arrive as plain values — the
//! network query itself is a collaborator outside this crate — so every
//! decision taken here is checked for every possible observation.

use vstd::prelude::*;
use crate::encoding::{hex_encode, hex_of};
use crate::issuer::{AddressIssuer, IssueError, contains_addr};
use crate::models::{Invoice, InvoiceStatus, PaymentRequest};
use crate::store::{InvoiceStore, has_id, idx_of, record_of};
use crate::trezor::{
    DeviceResponse, SessionState, SignedTransaction, Transaction, TrezorClient, TrezorError,
    shape_matches, txid_of,
};

verus! {

/// Failures of the controller, distinguishing bad input, unknown ids,
/// key-generation trouble and an unreachable or malformed chain provider.
#[derive(Debug)]
pub enum PayError {
    InvalidRequest,
    NotFound,
    DuplicateId,
    KeyGenerationError,
    ChainQueryError(String),
}

/// Relies on uuid::Uuid::new_v4, rendered in the hyphenated form: a fresh
/// random id of 36 characters. The value is random; only the length is
/// promised.
#[verifier::external_body]
fn generate_invoice_id() -> (r: String)
    ensures
        r@.len() == 36,
{
    uuid::Uuid::new_v4().to_string()
}

/// What one successful creation leaves behind: the store grew by exactly
/// the new record, whose id was not there before, and the issuer recorded
/// exactly the new address, which it had never issued before.
pub open spec fn create_committed(
    s0: Seq<Invoice>,
    a0: Seq<Seq<char>>,
    s1: Seq<Invoice>,
    a1: Seq<Seq<char>>,
    inv: Invoice,
) -> bool {
    &&& s1 == s0.push(inv)
    &&& !has_id(s0, inv.id@)
    &&& a1 == a0.push(inv.address@)
    &&& !contains_addr(a0, inv.address@)
}

/// Validates the request, derives a fresh address and a fresh id, builds
/// the record and persists it. No notification is sent on creation, and no
/// partial invoice is persisted on any failure. A valid request can fail
/// only on an id already stored or an address already issued, so the
/// first creation against a fresh store and issuer succeeds.
pub fn create_invoice(
    store: &mut InvoiceStore,
    issuer: &mut AddressIssuer,
    req: PaymentRequest,
    now: u64,
) -> (r: Result<Invoice, PayError>)
    requires
        old(store).wf(),
        now + req.expiry <= u64::MAX,
    ensures
        final(store).wf(),
        r == Err::<Invoice, PayError>(PayError::InvalidRequest) <==> !req.valid(),
        r matches Err(e) ==> (e is InvalidRequest || e is DuplicateId || e is KeyGenerationError),
        r == Err::<Invoice, PayError>(PayError::DuplicateId) ==> old(store)@.len() > 0,
        r == Err::<Invoice, PayError>(PayError::KeyGenerationError) ==> old(issuer)@.len() > 0,
        r is Err ==> final(store)@ == old(store)@,
        r matches Err(e) && !(e is KeyGenerationError) ==> final(issuer)@ == old(issuer)@,
        r matches Ok(inv) ==> {
            &&& create_committed(old(store)@, old(issuer)@, final(store)@, final(issuer)@, inv)
            &&& inv.amount == req.amount
            &&& inv.description == req.description
            &&& inv.status == InvoiceStatus::Pending
            &&& inv.created_at == now
            &&& inv.expires_at == now + req.expiry
            &&& inv.wf()
        },
{
    if !(req.amount > 0 && req.expiry > 0) {
        return Err(PayError::InvalidRequest);
    }
    let id = generate_invoice_id();
    if store.get(&id).is_some() {
        return Err(PayError::DuplicateId);
    }
    let address = match issuer.issue() {
        Ok(a) => a,
        Err(IssueError::KeyGenerationError) => {
            return Err(PayError::KeyGenerationError);
        },
    };
    let inv = Invoice {
        id,
        address,
        amount: req.amount,
        description: req.description,
        status: InvoiceStatus::Pending,
        created_at: now,
        expires_at: now + req.expiry,
    };
    match store.create(inv.clone()) {
        Ok(()) => Ok(inv),
        Err(_) => Err(PayError::DuplicateId),
    }
}

/// A snapshot of the invoice, or `NotFound`; never blocks on chain or
/// device work and never changes the store.
pub fn get_invoice(store: &InvoiceStore, id: &String) -> (r: Result<Invoice, PayError>)
    requires
        store.wf(),
    ensures
        has_id(store@, id@) ==> r == Ok::<Invoice, PayError>(record_of(store@, id@)),
        !has_id(store@, id@) ==> r == Err::<Invoice, PayError>(PayError::NotFound),
{
    match store.get(id) {
        Some(inv) => Ok(inv),
        None => Err(PayError::NotFound),
    }
}

/// The reconciliation policy for one status check: a terminal status is
/// kept; for a pending invoice an observed payment wins, even when the
/// expiry has also passed; only otherwise does the clock expire it.
pub open spec fn reconcile(
    cur: InvoiceStatus,
    has_payment: bool,
    now: u64,
    expires_at: u64,
) -> InvoiceStatus {
    if cur != InvoiceStatus::Pending {
        cur
    } else if has_payment {
        InvoiceStatus::Paid
    } else if now > expires_at {
        InvoiceStatus::Expired
    } else {
        InvoiceStatus::Pending
    }
}

/// Reconciliation never moves a terminal status: repeated status checks of
/// a paid or expired invoice change nothing, whatever the chain or the
/// clock report.
pub proof fn lemma_terminal_reconcile_idempotent(
    cur: InvoiceStatus,
    has_payment: bool,
    now: u64,
    expires_at: u64,
)
    requires
        cur.is_terminal(),
    ensures
        reconcile(cur, has_payment, now, expires_at) == cur,
{
}

/// Once one reconciliation has produced a terminal status, every later
/// reconciliation returns that status unchanged.
pub proof fn lemma_reconcile_settles(
    cur: InvoiceStatus,
    h1: bool,
    n1: u64,
    h2: bool,
    n2: u64,
    expires_at: u64,
)
    requires
        reconcile(cur, h1, n1, expires_at).is_terminal(),
    ensures
        reconcile(reconcile(cur, h1, n1, expires_at), h2, n2, expires_at) == reconcile(
            cur,
            h1,
            n1,
            expires_at,
        ),
{
}

/// When a qualifying payment and the expiry condition hold at the same
/// reconciliation, the payment wins: the result is `Paid`, never `Expired`.
pub proof fn lemma_payment_beats_expiry(now: u64, expires_at: u64)
    ensures
        reconcile(InvoiceStatus::Pending, true, now, expires_at) == InvoiceStatus::Paid,
{
}

/// Runs one status check for the invoice: a pending invoice is reconciled
/// against the supplied chain observation and the committed transition is
/// returned in the snapshot; a terminal invoice is returned untouched; a
/// failed chain query changes nothing and is surfaced as `ChainQueryError`.
pub fn check_payment_status(
    store: &mut InvoiceStore,
    id: &String,
    chain: Result<bool, String>,
    now: u64,
) -> (r: Result<Invoice, PayError>)
    requires
        old(store).wf(),
    ensures
        final(store).wf(),
        !has_id(old(store)@, id@) ==> r == Err::<Invoice, PayError>(PayError::NotFound)
            && final(store)@ == old(store)@,
        has_id(old(store)@, id@) ==> {
            let i = idx_of(old(store)@, id@);
            let rec = old(store)@[i];
            &&& rec.status != InvoiceStatus::Pending ==> r == Ok::<Invoice, PayError>(rec)
                && final(store)@ == old(store)@
            &&& rec.status == InvoiceStatus::Pending ==> match chain {
                Err(e) => r == Err::<Invoice, PayError>(PayError::ChainQueryError(e))
                    && final(store)@ == old(store)@,
                Ok(has_payment) => {
                    let st = reconcile(rec.status, has_payment, now, rec.expires_at);
                    r == Ok::<Invoice, PayError>(rec.with_status(st))
                        && final(store)@ == old(store)@.update(i, rec.with_status(st))
                },
            }
        },
{
    let rec = match store.get(id) {
        Some(rec) => rec,
        None => {
            return Err(PayError::NotFound);
        },
    };
    if !matches!(rec.status, InvoiceStatus::Pending) {
        proof {
            assert(rec.status != InvoiceStatus::Pending);
        }
        return Ok(rec);
    }
    let has_payment = match chain {
        Ok(h) => h,
        Err(e) => {
            return Err(PayError::ChainQueryError(e));
        },
    };
    let st = if has_payment {
        InvoiceStatus::Paid
    } else if now > rec.expires_at {
        InvoiceStatus::Expired
    } else {
        InvoiceStatus::Pending
    };
    match store.update_status(id, st) {
        Ok(()) => Ok(rec.with_status_exec(st)),
        Err(_) => Err(PayError::NotFound),
    }
}

/// What the controller hands the broadcaster after one signing request:
/// either the signed transaction with the hexadecimal payload to submit,
/// or the error to surface — and then there is nothing that could be
/// submitted.
pub enum BroadcastDecision {
    Submit(SignedTransaction, String),
    Withhold(TrezorError),
}

/// What the sign-and-broadcast decision is, as a relation between the
/// device before and after, the request, the device's answer and the
/// decision. Without a connected idle session the device is untouched and
/// the session error is withheld: `ConnectionFailed` when disconnected,
/// `DeviceBusy` when a request is already in flight. Over a connected
/// session the device's answer decides: a refusal withholds
/// `SigningRefused` and a policy rejection `ValidationFailed`, both with
/// the session kept; a lost connection withholds `ConnectionFailed` and
/// drops it; a signed answer that keeps the requested shape — and only
/// such an answer — is submitted, as the signed transaction together with
/// the hexadecimal form of exactly the bytes the device returned, while a
/// shape that differs withholds the fatal `IntegrityViolation`.
pub open spec fn sign_decision_post(
    pre: TrezorClient,
    post: TrezorClient,
    request: Transaction,
    response: DeviceResponse,
    d: BroadcastDecision,
) -> bool {
    match pre.session_state() {
        SessionState::Disconnected => (d matches BroadcastDecision::Withhold(e)
            && e is ConnectionFailed) && post == pre,
        SessionState::Signing => d == BroadcastDecision::Withhold(TrezorError::DeviceBusy) && post
            == pre,
        SessionState::Connected => {
            &&& post.spec_device_path() == pre.spec_device_path()
            &&& post.spec_network() == pre.spec_network()
            &&& match response {
                DeviceResponse::Refused => d == BroadcastDecision::Withhold(
                    TrezorError::SigningRefused,
                ) && post.session_state() == SessionState::Connected,
                DeviceResponse::PolicyRejected(reason) => d == BroadcastDecision::Withhold(
                    TrezorError::ValidationFailed(reason),
                ) && post.session_state() == SessionState::Connected,
                DeviceResponse::ConnectionLost => (d matches BroadcastDecision::Withhold(e)
                    && e is ConnectionFailed) && post.session_state()
                    == SessionState::Disconnected,
                DeviceResponse::Signed { tx, raw } => {
                    &&& post.session_state() == SessionState::Connected
                    &&& shape_matches(request, tx) ==> (d matches BroadcastDecision::Submit(st, h)
                        && st.tx == tx && st.raw == raw && st.txid@ == txid_of(raw@) && h@
                        == hex_of(raw@))
                    &&& !shape_matches(request, tx) ==> d == BroadcastDecision::Withhold(
                        TrezorError::IntegrityViolation,
                    )
                },
            }
        },
    }
}

/// Runs one signing request for an invoice and decides what may be
/// broadcast. The invoice must exist — an unknown id fails `NotFound` and
/// the device is not touched — but outbound signing is independent of the
/// invoice's own settlement state, and the store is only read, so no
/// invoice state changes on this path, on success or on any failure.
/// Otherwise `sign_decision_post` fixes the decision for every session
/// state and every device answer: only a signed answer that kept the
/// requested shape is submitted, and every failure is withheld, the
/// device's own errors verbatim.
pub fn sign_transaction(
    store: &InvoiceStore,
    id: &String,
    device: &mut TrezorClient,
    request: &Transaction,
    response: DeviceResponse,
) -> (r: Result<BroadcastDecision, PayError>)
    requires
        store.wf(),
    ensures
        !has_id(store@, id@) ==> r == Err::<BroadcastDecision, PayError>(PayError::NotFound)
            && *final(device) == *old(device),
        has_id(store@, id@) ==> (r matches Ok(d) && sign_decision_post(
            *old(device),
            *final(device),
            *request,
            response,
            d,
        )),
{
    if store.get(id).is_none() {
        return Err(PayError::NotFound);
    }
    match device.sign_transaction(request, response) {
        Ok(st) => {
            let h = hex_encode(st.raw.as_slice());
            Ok(BroadcastDecision::Submit(st, h))
        },
        Err(e) => Ok(BroadcastDecision::Withhold(e)),
    }
}

/// A committed creation leaves its id in the store and its address with
/// the issuer.
pub proof fn lemma_create_records(
    s0: Seq<Invoice>,
    a0: Seq<Seq<char>>,
    s1: Seq<Invoice>,
    a1: Seq<Seq<char>>,
    inv: Invoice,
)
    requires
        create_committed(s0, a0, s1, a1, inv),
    ensures
        has_id(s1, inv.id@),
        contains_addr(a1, inv.address@),
{
    assert(s1[s0.len() as int].id@ == inv.id@);
    assert(a1[a0.len() as int] == inv.address@);
}

/// A creation forgets no earlier id and no earlier address.
pub proof fn lemma_create_preserves(
    s0: Seq<Invoice>,
    a0: Seq<Seq<char>>,
    s1: Seq<Invoice>,
    a1: Seq<Seq<char>>,
    inv: Invoice,
    x: Seq<char>,
    y: Seq<char>,
)
    requires
        create_committed(s0, a0, s1, a1, inv),
        has_id(s0, x),
        contains_addr(a0, y),
    ensures
        has_id(s1, x),
        contains_addr(a1, y),
{
    let i = choose|i: int| 0 <= i < s0.len() && s0[i].id@ == x;
    assert(s1[i].id@ == x);
    let j = choose|j: int| 0 <= j < a0.len() && a0[j] == y;
    assert(a1[j] == y);
}

/// A status update forgets no id either: only a record's status changes.
pub proof fn lemma_update_preserves_ids(s: Seq<Invoice>, i: int, st: InvoiceStatus, x: Seq<char>)
    requires
        0 <= i < s.len(),
    ensures
        has_id(s.update(i, s[i].with_status(st)), x) == has_id(s, x),
{
    let t = s.update(i, s[i].with_status(st));
    assert forall|k: int| 0 <= k < s.len() implies t[k].id@ == s[k].id@ by {}
    if has_id(s, x) {
        let k = choose|k: int| 0 <= k < s.len() && s[k].id@ == x;
        assert(t[k].id@ == x);
    }
    if has_id(t, x) {
        let k = choose|k: int| 0 <= k < t.len() && t[k].id@ == x;
        assert(s[k].id@ == x);
    }
}

/// Any two invoices created against the same store and issuer carry
/// distinct ids and distinct receiving addresses: the first creation's id
/// and address are recorded, later steps keep them recorded, and the
/// second creation commits only a fresh id and a fresh address.
pub proof fn lemma_creations_distinct(
    s0: Seq<Invoice>,
    a0: Seq<Seq<char>>,
    s1: Seq<Invoice>,
    a1: Seq<Seq<char>>,
    inv1: Invoice,
    s2: Seq<Invoice>,
    a2: Seq<Seq<char>>,
    s3: Seq<Invoice>,
    a3: Seq<Seq<char>>,
    inv2: Invoice,
)
    requires
        create_committed(s0, a0, s1, a1, inv1),
        create_committed(s2, a2, s3, a3, inv2),
        has_id(s2, inv1.id@),
        contains_addr(a2, inv1.address@),
    ensures
        inv1.id@ != inv2.id@,
        inv1.address@ != inv2.address@,
{
}

} // verus!
