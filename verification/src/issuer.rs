//! The address issuer: derives a fresh receiving address for each invoice.
//! The private key is generated and handed off inside the key-custody
//! boundary of the wrapper; only the address returns, and the issuer keeps
//! a record of every address it has handed out so that none is ever issued
//! twice.

use vstd::prelude::*;

verus! {

/// Failure of address issuance.
#[derive(Clone, Copy, PartialEq, Eq, Structural, Debug)]
pub enum IssueError {
    KeyGenerationError,
}

/// True when `x` occurs among the issued addresses `a`.
pub open spec fn contains_addr(a: Seq<Seq<char>>, x: Seq<char>) -> bool {
    exists|i: int| 0 <= i < a.len() && a[i] == x
}

/// Relies on bitcoin::Address::p2pkh over a key pair freshly drawn with
/// bitcoin::secp256k1::SecretKey::new from the thread's generator: returns
/// the pay-to-public-key-hash address of that key for the test network,
/// rendered as text. The private key never leaves this scope. The result
/// is random, so nothing is promised of it. Should the operating system's
/// randomness source itself fail, the generator aborts the process — an
/// environmental failure like running out of memory; the issuer's
/// `KeyGenerationError` covers its refusal to reuse a key, not that.
#[verifier::external_body]
fn generate_p2pkh_address() -> String {
    let secp = bitcoin::secp256k1::Secp256k1::new();
    let sk = bitcoin::secp256k1::SecretKey::new(&mut bitcoin::secp256k1::rand::thread_rng());
    let pk = bitcoin::PublicKey::from_private_key(
        &secp,
        &bitcoin::PrivateKey::new(sk, bitcoin::Network::Testnet),
    );
    bitcoin::Address::p2pkh(&pk, bitcoin::Network::Testnet).to_string()
}

/// Issues receiving addresses, each one fresh for the life of the issuer.
pub struct AddressIssuer {
    issued: Vec<String>,
}

impl View for AddressIssuer {
    type V = Seq<Seq<char>>;

    closed spec fn view(&self) -> Seq<Seq<char>> {
        self.issued@.map_values(|s: String| s@)
    }
}

impl AddressIssuer {
    /// An issuer that has issued nothing yet.
    pub fn new() -> (r: Self)
        ensures
            r@ == Seq::<Seq<char>>::empty(),
    {
        let issuer = AddressIssuer { issued: Vec::new() };
        proof {
            assert(issuer@ =~= Seq::<Seq<char>>::empty());
        }
        issuer
    }

    /// True when the address was issued before.
    fn was_issued(&self, a: &String) -> (r: bool)
        ensures
            r == contains_addr(self@, a@),
    {
        let mut i: usize = 0;
        while i < self.issued.len()
            invariant
                0 <= i <= self.issued.len(),
                self@ == self.issued@.map_values(|s: String| s@),
                forall|j: int| 0 <= j < i ==> self@[j] != a@,
            decreases self.issued.len() - i,
        {
            if self.issued[i] == *a {
                proof {
                    assert(self@[i as int] == a@);
                }
                return true;
            }
            i = i + 1;
        }
        false
    }

    /// Derives one fresh address. A generated address that was already
    /// issued is refused — no key, and so no address, is ever reused — and
    /// counts as a key-generation failure; so failure can only come from a
    /// collision with an already-issued address, and a fresh issuer always
    /// succeeds.
    pub fn issue(&mut self) -> (r: Result<String, IssueError>)
        ensures
            match r {
                Ok(a) => !contains_addr(old(self)@, a@) && final(self)@ == old(self)@.push(a@),
                Err(_) => final(self)@ == old(self)@ && old(self)@.len() > 0,
            },
    {
        let a = generate_p2pkh_address();
        if self.was_issued(&a) {
            Err(IssueError::KeyGenerationError)
        } else {
            let ghost pre = self@;
            self.issued.push(a.clone());
            proof {
                assert(self@ =~= pre.push(a@));
            }
            Ok(a)
        }
    }
}

} // verus!
