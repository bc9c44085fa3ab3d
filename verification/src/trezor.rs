//! The signing device: a physically isolated key holder, driven over a
//! session whose states are disconnected, connected and signing. The
//! device transport hands its answer back as a plain value, and every
//! decision here — busy handling, refusals, and the integrity check that
//! the signed transaction keeps the requested shape — is verified for
//! every possible answer. No key material ever enters this process.

use vstd::prelude::*;
use crate::encoding::{bytes_eq, hex_encode, hex_of};
use core::str::FromStr;
use bitcoin::hashes::sha256d;
use bitcoin::hashes::Hash as BtcHash;
use bitcoin::{OutPoint, Script, TxIn, TxOut, Txid, Witness};

verus! {

/// The chain a key or an address belongs to.
#[derive(Clone, Copy, PartialEq, Eq, Structural, Debug)]
pub enum Network {
    Bitcoin,
    Testnet,
    Signet,
    Regtest,
}

/// A reference to the previous output an input spends.
#[derive(Clone, Copy, Debug, PartialEq, Eq)]
pub struct OutPointRef {
    pub txid: [u8; 32],
    pub vout: u32,
}

/// One transaction input: the spent outpoint, the signature script and
/// witness the device fills in, and the sequence number.
#[derive(Debug, PartialEq, Eq)]
pub struct TxInput {
    pub previous_output: OutPointRef,
    pub script_sig: Vec<u8>,
    pub sequence: u32,
    pub witness: Vec<Vec<u8>>,
}

/// One transaction output: an amount in satoshis and the script it pays.
#[derive(Debug, PartialEq, Eq)]
pub struct TxOutput {
    pub value: u64,
    pub script_pubkey: Vec<u8>,
}

/// A transaction held as plain values: the template handed to the device
/// and the shape against which its answer is checked.
#[derive(Debug, PartialEq, Eq)]
pub struct Transaction {
    pub version: u32,
    pub lock_time: u32,
    pub input: Vec<TxInput>,
    pub output: Vec<TxOutput>,
}

/// A signed transaction: the filled-in template, the raw bytes exactly as
/// the device returned them, and the id derived from those bytes. Produced
/// only by the signing protocol below.
#[derive(Debug, PartialEq, Eq)]
pub struct SignedTransaction {
    pub tx: Transaction,
    pub raw: Vec<u8>,
    pub txid: Vec<u8>,
}

/// What the device transport handed back for one signing request.
/// `Refused` is the user declining on the device, or the device timing
/// out; `PolicyRejected` is the device's own policy refusing the
/// transaction shape, with the device's reason.
pub enum DeviceResponse {
    Signed { tx: Transaction, raw: Vec<u8> },
    Refused,
    PolicyRejected(String),
    ConnectionLost,
}

/// The session with the device.
#[derive(Clone, Copy, PartialEq, Eq, Structural, Debug)]
pub enum SessionState {
    Disconnected,
    Connected,
    Signing,
}

/// Failures of the signing device and of the protocol around it.
/// `SigningRefused` (the user declined, or the device timed out) is not
/// retriable without a new request; `ConnectionFailed` is retriable after
/// reconnecting; `IntegrityViolation` is fatal and never retried.
#[derive(Debug)]
pub enum TrezorError {
    DeviceNotFound,
    ConnectionFailed(String),
    SigningRefused,
    SigningFailed(String),
    ValidationFailed(String),
    SerializationFailed(String),
    IntegrityViolation,
    DeviceBusy,
}

/// The text describing a device failure.
pub open spec fn spec_message(e: TrezorError) -> Seq<char> {
    match e {
        TrezorError::DeviceNotFound => "Trezor device not found"@,
        TrezorError::ConnectionFailed(m) => "Failed to connect to Trezor: "@ + m@,
        TrezorError::SigningRefused => "Signing refused by the device"@,
        TrezorError::SigningFailed(m) => "Failed to sign transaction: "@ + m@,
        TrezorError::ValidationFailed(m) => "Transaction validation failed: "@ + m@,
        TrezorError::SerializationFailed(m) => "Transaction serialization failed: "@ + m@,
        TrezorError::IntegrityViolation => "Signed transaction does not match the request"@,
        TrezorError::DeviceBusy => "Device is busy with another signing request"@,
    }
}

impl TrezorError {
    /// Renders the failure for logs and callers.
    pub fn message(&self) -> (r: String)
        ensures
            r@ == spec_message(*self),
    {
        match self {
            TrezorError::DeviceNotFound => "Trezor device not found".to_owned(),
            TrezorError::ConnectionFailed(m) => "Failed to connect to Trezor: ".to_owned().concat(
                m.as_str(),
            ),
            TrezorError::SigningRefused => "Signing refused by the device".to_owned(),
            TrezorError::SigningFailed(m) => "Failed to sign transaction: ".to_owned().concat(
                m.as_str(),
            ),
            TrezorError::ValidationFailed(m) => "Transaction validation failed: "
                .to_owned()
                .concat(m.as_str()),
            TrezorError::SerializationFailed(m) => "Transaction serialization failed: "
                .to_owned()
                .concat(m.as_str()),
            TrezorError::IntegrityViolation => "Signed transaction does not match the request"
                .to_owned(),
            TrezorError::DeviceBusy => "Device is busy with another signing request".to_owned(),
        }
    }
}

/// The script paying to an address, as a function of the address text
/// alone; text that parses as no address yields nothing.
pub uninterp spec fn script_of(addr: Seq<char>) -> Option<Seq<u8>>;

/// The consensus encoding of a transaction template.
pub uninterp spec fn consensus_bytes_of(t: Transaction) -> Seq<u8>;

/// The transaction id derived from raw transaction bytes.
pub uninterp spec fn txid_of(raw: Seq<u8>) -> Seq<u8>;

/// Relies on bitcoin::Address::from_str and bitcoin::Address::script_pubkey:
/// parsing is deterministic and the script depends on the address text
/// alone.
#[verifier::external_body]
fn address_script(addr: &str) -> (r: Option<Vec<u8>>)
    ensures
        r is Some <==> script_of(addr@) is Some,
        r is Some ==> r->0@ == script_of(addr@)->0,
{
    match bitcoin::Address::from_str(addr) {
        Ok(a) => Some(a.script_pubkey().to_bytes()),
        Err(_) => None,
    }
}

/// Relies on bitcoin::consensus::encode::serialize over the corresponding
/// bitcoin::Transaction: the consensus encoding depends on the template
/// alone.
#[verifier::external_body]
fn consensus_encode(t: &Transaction) -> (r: Vec<u8>)
    ensures
        r@ == consensus_bytes_of(*t),
{
    let ins: Vec<TxIn> = t.input.iter().map(|i| TxIn {
        previous_output: OutPoint::new(
            Txid::from_hash(sha256d::Hash::from_inner(i.previous_output.txid)),
            i.previous_output.vout),
        script_sig: Script::from(i.script_sig.clone()),
        sequence: i.sequence,
        witness: Witness::from_vec(i.witness.clone()),
    }).collect();
    let outs: Vec<TxOut> = t.output.iter().map(|o| TxOut {
        value: o.value, script_pubkey: Script::from(o.script_pubkey.clone()),
    }).collect();
    bitcoin::consensus::encode::serialize(&bitcoin::Transaction {
        version: t.version as i32, lock_time: t.lock_time, input: ins, output: outs,
    })
}

/// Relies on sha2::Sha256 applied twice: the derived id depends on the raw
/// bytes alone and is 32 bytes long.
#[verifier::external_body]
fn compute_txid(raw: &[u8]) -> (r: Vec<u8>)
    ensures
        r@ == txid_of(raw@),
        r@.len() == 32,
{
    let first = <sha2::Sha256 as sha2::Digest>::digest(raw);
    let second = <sha2::Sha256 as sha2::Digest>::digest(&first);
    second.to_vec()
}

/// Both inputs spend the same previous output.
pub open spec fn same_outpoint(a: OutPointRef, b: OutPointRef) -> bool {
    a.txid@ == b.txid@ && a.vout == b.vout
}

/// The signed transaction keeps the requested structure: the same number
/// of inputs and outputs, each input spending the requested previous
/// output, and each output paying the requested amount to the requested
/// script. Signature scripts and witnesses are the device's to fill.
pub open spec fn shape_matches(req: Transaction, signed: Transaction) -> bool {
    &&& signed.input@.len() == req.input@.len()
    &&& signed.output@.len() == req.output@.len()
    &&& forall|i: int|
        0 <= i < req.input@.len() ==> same_outpoint(
            (#[trigger] signed.input@[i]).previous_output,
            req.input@[i].previous_output,
        )
    &&& forall|i: int|
        0 <= i < req.output@.len() ==> (#[trigger] signed.output@[i]).value == req.output@[i].value
            && signed.output@[i].script_pubkey@ == req.output@[i].script_pubkey@
}

/// Decides `shape_matches`.
fn shape_matches_exec(req: &Transaction, signed: &Transaction) -> (r: bool)
    ensures
        r == shape_matches(*req, *signed),
{
    if signed.input.len() != req.input.len() || signed.output.len() != req.output.len() {
        return false;
    }
    let mut i: usize = 0;
    while i < req.input.len()
        invariant
            0 <= i <= req.input@.len(),
            signed.input@.len() == req.input@.len(),
            signed.output@.len() == req.output@.len(),
            forall|j: int|
                0 <= j < i ==> same_outpoint(
                    (#[trigger] signed.input@[j]).previous_output,
                    req.input@[j].previous_output,
                ),
        decreases req.input@.len() - i,
    {
        let a = &signed.input[i].previous_output;
        let b = &req.input[i].previous_output;
        if !bytes_eq(a.txid.as_slice(), b.txid.as_slice()) || a.vout != b.vout {
            return false;
        }
        i = i + 1;
    }
    let mut k: usize = 0;
    while k < req.output.len()
        invariant
            0 <= k <= req.output@.len(),
            signed.input@.len() == req.input@.len(),
            signed.output@.len() == req.output@.len(),
            forall|j: int|
                0 <= j < req.input@.len() ==> same_outpoint(
                    (#[trigger] signed.input@[j]).previous_output,
                    req.input@[j].previous_output,
                ),
            forall|j: int|
                0 <= j < k ==> (#[trigger] signed.output@[j]).value == req.output@[j].value
                    && signed.output@[j].script_pubkey@ == req.output@[j].script_pubkey@,
        decreases req.output@.len() - k,
    {
        if signed.output[k].value != req.output[k].value || !bytes_eq(
            signed.output[k].script_pubkey.as_slice(),
            req.output[k].script_pubkey.as_slice(),
        ) {
            return false;
        }
        k = k + 1;
    }
    true
}

/// Drives the signing device over one session.
pub struct TrezorClient {
    device_path: Option<String>,
    network: Network,
    session: SessionState,
}

/// What `begin_sign` does, as a relation between the states before and
/// after and the result: only a connected, idle session may enter signing;
/// a session already signing answers `DeviceBusy` and is left alone.
pub open spec fn begin_sign_post(
    pre: TrezorClient,
    post: TrezorClient,
    r: Result<(), TrezorError>,
) -> bool {
    &&& post.spec_device_path() == pre.spec_device_path()
    &&& post.spec_network() == pre.spec_network()
    &&& match pre.session_state() {
        SessionState::Disconnected => (r matches Err(e) && e is ConnectionFailed) && post == pre,
        SessionState::Signing => r == Err::<(), TrezorError>(TrezorError::DeviceBusy) && post
            == pre,
        SessionState::Connected => r == Ok::<(), TrezorError>(()) && post.session_state()
            == SessionState::Signing,
    }
}

/// What applying the device's answer to a taken session does, as a
/// relation between the client before and after, the request, the answer
/// and the result: a refusal is surfaced as `SigningRefused` and a policy
/// rejection as `ValidationFailed` with the device's reason, both keeping
/// the session; a lost connection is surfaced as `ConnectionFailed` and
/// drops it; a signed answer yields the signed transaction exactly when it
/// keeps the requested shape, and is refused as `IntegrityViolation`
/// otherwise.
pub open spec fn device_answer_post(
    pre: TrezorClient,
    post: TrezorClient,
    request: Transaction,
    response: DeviceResponse,
    r: Result<SignedTransaction, TrezorError>,
) -> bool {
    &&& post.spec_device_path() == pre.spec_device_path()
    &&& post.spec_network() == pre.spec_network()
    &&& match response {
        DeviceResponse::Refused => r == Err::<SignedTransaction, TrezorError>(
            TrezorError::SigningRefused,
        ) && post.session_state() == SessionState::Connected,
        DeviceResponse::PolicyRejected(reason) => r == Err::<SignedTransaction, TrezorError>(
            TrezorError::ValidationFailed(reason),
        ) && post.session_state() == SessionState::Connected,
        DeviceResponse::ConnectionLost => (r matches Err(e) && e is ConnectionFailed)
            && post.session_state() == SessionState::Disconnected,
        DeviceResponse::Signed { tx, raw } => {
            &&& post.session_state() == SessionState::Connected
            &&& shape_matches(request, tx) ==> (r matches Ok(st) && st.tx == tx && st.raw == raw
                && st.txid@ == txid_of(raw@))
            &&& !shape_matches(request, tx) ==> r == Err::<SignedTransaction, TrezorError>(
                TrezorError::IntegrityViolation,
            )
        },
    }
}

impl TrezorClient {
    /// The session the client is in.
    pub closed spec fn session_state(&self) -> SessionState {
        self.session
    }

    /// The network addresses are checked against.
    pub closed spec fn spec_network(&self) -> Network {
        self.network
    }

    /// The device path, once known.
    pub closed spec fn spec_device_path(&self) -> Option<Seq<char>> {
        match self.device_path {
            Some(p) => Some(p@),
            None => None,
        }
    }

    /// A client with no device found yet.
    pub fn new() -> (r: Self)
        ensures
            r.session_state() == SessionState::Disconnected,
            r.spec_network() == Network::Testnet,
            r.spec_device_path() is None,
    {
        TrezorClient { device_path: None, network: Network::Testnet, session: SessionState::Disconnected }
    }

    /// A client bound to a known device path.
    pub fn with_device_path(device_path: String) -> (r: Self)
        ensures
            r.session_state() == SessionState::Disconnected,
            r.spec_network() == Network::Testnet,
            r.spec_device_path() == Some(device_path@),
    {
        TrezorClient {
            device_path: Some(device_path),
            network: Network::Testnet,
            session: SessionState::Disconnected,
        }
    }

    /// Selects the network.
    pub fn set_network(&mut self, network: Network)
        ensures
            final(self).spec_network() == network,
            final(self).session_state() == old(self).session_state(),
            final(self).spec_device_path() == old(self).spec_device_path(),
    {
        self.network = network;
    }

    /// Establishes the session: with a known device path, or with the path
    /// an external scan discovered; with neither, `DeviceNotFound`. A
    /// session in the middle of signing is never torn down from here.
    pub fn connect(&mut self, scan: Option<String>) -> (r: Result<(), TrezorError>)
        ensures
            final(self).spec_network() == old(self).spec_network(),
            old(self).session_state() == SessionState::Signing ==> (r matches Err(e)
                && e is DeviceBusy) && final(self).session_state() == SessionState::Signing
                && final(self).spec_device_path() == old(self).spec_device_path(),
            old(self).session_state() != SessionState::Signing ==> {
                &&& old(self).spec_device_path() is Some ==> r == Ok::<(), TrezorError>(())
                    && final(self).session_state() == SessionState::Connected
                    && final(self).spec_device_path() == old(self).spec_device_path()
                &&& old(self).spec_device_path() is None ==> match scan {
                    Some(p) => r == Ok::<(), TrezorError>(()) && final(self).session_state()
                        == SessionState::Connected && final(self).spec_device_path() == Some(p@),
                    None => (r matches Err(e) && e is DeviceNotFound) && final(self).session_state()
                        == old(self).session_state() && final(self).spec_device_path() is None,
                }
            },
    {
        if matches!(self.session, SessionState::Signing) {
            return Err(TrezorError::DeviceBusy);
        }
        if self.device_path.is_none() {
            match scan {
                Some(p) => {
                    self.device_path = Some(p);
                },
                None => {
                    return Err(TrezorError::DeviceNotFound);
                },
            }
        }
        self.session = SessionState::Connected;
        Ok(())
    }

    /// Takes the session for one signing request. Only a connected, idle
    /// session may enter signing; a session already signing answers
    /// `DeviceBusy` and nothing changes, so two overlapping requests can
    /// never interleave on one device.
    pub fn begin_sign(&mut self) -> (r: Result<(), TrezorError>)
        ensures
            begin_sign_post(*old(self), *final(self), r),
    {
        match self.session {
            SessionState::Disconnected => Err(
                TrezorError::ConnectionFailed("device not connected".to_owned()),
            ),
            SessionState::Signing => Err(TrezorError::DeviceBusy),
            SessionState::Connected => {
                self.session = SessionState::Signing;
                Ok(())
            },
        }
    }

    /// Applies the device's answer to a signing request. A refusal or a
    /// policy rejection ends the attempt but keeps the session; a lost
    /// connection drops it; a signed transaction is accepted exactly when
    /// it keeps the requested shape, and a shape that differs is a fatal
    /// `IntegrityViolation` — no signed transaction is returned then, so
    /// there is nothing a caller could broadcast.
    pub fn complete_sign(&mut self, request: &Transaction, response: DeviceResponse) -> (r: Result<
        SignedTransaction,
        TrezorError,
    >)
        requires
            old(self).session_state() == SessionState::Signing,
        ensures
            device_answer_post(*old(self), *final(self), *request, response, r),
    {
        match response {
            DeviceResponse::Refused => {
                self.session = SessionState::Connected;
                Err(TrezorError::SigningRefused)
            },
            DeviceResponse::PolicyRejected(reason) => {
                self.session = SessionState::Connected;
                Err(TrezorError::ValidationFailed(reason))
            },
            DeviceResponse::ConnectionLost => {
                self.session = SessionState::Disconnected;
                Err(TrezorError::ConnectionFailed("device connection lost".to_owned()))
            },
            DeviceResponse::Signed { tx, raw } => {
                self.session = SessionState::Connected;
                if shape_matches_exec(request, &tx) {
                    let txid = compute_txid(raw.as_slice());
                    Ok(SignedTransaction { tx, raw, txid })
                } else {
                    Err(TrezorError::IntegrityViolation)
                }
            },
        }
    }

    /// Abandons a signing request from the caller's side: the session
    /// returns to connected, ready for a later attempt, and no signed
    /// transaction exists that could be broadcast.
    pub fn cancel_sign(&mut self)
        requires
            old(self).session_state() == SessionState::Signing,
        ensures
            final(self).session_state() == SessionState::Connected,
            final(self).spec_network() == old(self).spec_network(),
            final(self).spec_device_path() == old(self).spec_device_path(),
    {
        self.session = SessionState::Connected;
    }

    /// One whole signing request: takes the session, applies the device's
    /// answer, and releases the session. Fails without touching anything
    /// when the session is not connected and idle.
    pub fn sign_transaction(&mut self, request: &Transaction, response: DeviceResponse) -> (r:
        Result<SignedTransaction, TrezorError>)
        ensures
            old(self).session_state() == SessionState::Disconnected ==> (r matches Err(e)
                && e is ConnectionFailed) && *final(self) == *old(self),
            old(self).session_state() == SessionState::Signing ==> r == Err::<
                SignedTransaction,
                TrezorError,
            >(TrezorError::DeviceBusy) && *final(self) == *old(self),
            old(self).session_state() == SessionState::Connected ==> device_answer_post(
                *old(self),
                *final(self),
                *request,
                response,
                r,
            ),
    {
        match self.begin_sign() {
            Ok(()) => self.complete_sign(request, response),
            Err(e) => Err(e),
        }
    }

    /// Builds the unsigned template: version 2, no lock time, one input
    /// per spent outpoint with an empty signature script and final
    /// sequence, and one output per destination, paying the requested
    /// amount to the script of the destination address. A destination
    /// that parses as no address fails validation and yields no template.
    pub fn build_transaction(
        &self,
        inputs: Vec<(OutPointRef, TxOutput)>,
        outputs: Vec<(String, u64)>,
    ) -> (r: Result<Transaction, TrezorError>)
        ensures
            (r is Ok) <==> (forall|i: int|
                0 <= i < outputs@.len() ==> (#[trigger] script_of(outputs@[i].0@)) is Some),
            r matches Ok(t) ==> {
                &&& t.version == 2 && t.lock_time == 0
                &&& t.input@.len() == inputs@.len()
                &&& forall|i: int|
                    0 <= i < inputs@.len() ==> same_outpoint(
                        (#[trigger] t.input@[i]).previous_output,
                        inputs@[i].0,
                    ) && t.input@[i].script_sig@ == Seq::<u8>::empty() && t.input@[i].sequence
                        == 0xFFFFFFFFu32 && t.input@[i].witness@ == Seq::<Vec<u8>>::empty()
                &&& t.output@.len() == outputs@.len()
                &&& forall|i: int|
                    0 <= i < outputs@.len() ==> (#[trigger] t.output@[i]).value == outputs@[i].1
                        && Some(t.output@[i].script_pubkey@) == script_of(outputs@[i].0@)
            },
            r matches Err(e) ==> e is ValidationFailed,
    {
        let mut tx_inputs: Vec<TxInput> = Vec::new();
        let mut i: usize = 0;
        while i < inputs.len()
            invariant
                0 <= i <= inputs@.len(),
                tx_inputs@.len() == i,
                forall|j: int|
                    0 <= j < i ==> same_outpoint(
                        (#[trigger] tx_inputs@[j]).previous_output,
                        inputs@[j].0,
                    ) && tx_inputs@[j].script_sig@ == Seq::<u8>::empty() && tx_inputs@[j].sequence
                        == 0xFFFFFFFFu32 && tx_inputs@[j].witness@ == Seq::<Vec<u8>>::empty(),
            decreases inputs@.len() - i,
        {
            tx_inputs.push(
                TxInput {
                    previous_output: inputs[i].0,
                    script_sig: Vec::new(),
                    sequence: 0xFFFFFFFF,
                    witness: Vec::new(),
                },
            );
            i = i + 1;
        }
        let mut tx_outputs: Vec<TxOutput> = Vec::new();
        let mut k: usize = 0;
        while k < outputs.len()
            invariant
                0 <= k <= outputs@.len(),
                tx_outputs@.len() == k,
                forall|j: int| 0 <= j < k ==> (#[trigger] script_of(outputs@[j].0@)) is Some,
                forall|j: int|
                    0 <= j < k ==> (#[trigger] tx_outputs@[j]).value == outputs@[j].1 && Some(
                        tx_outputs@[j].script_pubkey@,
                    ) == script_of(outputs@[j].0@),
            decreases outputs@.len() - k,
        {
            let script = match address_script(outputs[k].0.as_str()) {
                Some(s) => s,
                None => {
                    return Err(TrezorError::ValidationFailed("invalid address".to_owned()));
                },
            };
            tx_outputs.push(TxOutput { value: outputs[k].1, script_pubkey: script });
            k = k + 1;
        }
        Ok(Transaction { version: 2, lock_time: 0, input: tx_inputs, output: tx_outputs })
    }

    /// The lowercase hexadecimal form of the template's consensus
    /// encoding, as handed to a broadcaster.
    pub fn get_transaction_hex(&self, tx: &Transaction) -> (r: Result<String, TrezorError>)
        ensures
            r matches Ok(h) && h@ == hex_of(consensus_bytes_of(*tx)),
    {
        let bytes = consensus_encode(tx);
        Ok(hex_encode(bytes.as_slice()))
    }
}

/// Two signing attempts racing for one connected session: exactly one
/// takes the session into signing; the other is answered `DeviceBusy` and
/// changes nothing, so requests are queued or refused, never interleaved.
pub proof fn lemma_single_signer(
    c0: TrezorClient,
    c1: TrezorClient,
    r1: Result<(), TrezorError>,
    c2: TrezorClient,
    r2: Result<(), TrezorError>,
)
    requires
        c0.session_state() == SessionState::Connected,
        begin_sign_post(c0, c1, r1),
        begin_sign_post(c1, c2, r2),
    ensures
        r1 == Ok::<(), TrezorError>(()),
        c1.session_state() == SessionState::Signing,
        r2 == Err::<(), TrezorError>(TrezorError::DeviceBusy),
        c2 == c1,
{
}

} // verus!
