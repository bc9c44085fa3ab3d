//! The claims carried in a session token. Token encoding, verification
//! and the transport middleware around them belong to the authentication
//! collaborator outside this crate; only the claim arithmetic is core
//! logic.

use vstd::prelude::*;

verus! {

/// The claims of a session token: the subject, when it was issued, and
/// when it expires.
pub struct Claims {
    pub sub: String,
    pub exp: usize,
    pub iat: usize,
}

/// The claims issued to a user at time `now`, valid for 24 hours.
pub fn token_claims(user_id: &String, now: usize) -> (r: Claims)
    requires
        now + 24 * 3600 <= usize::MAX,
    ensures
        r.sub@ == user_id@,
        r.iat == now,
        r.exp == now + 24 * 3600,
{
    Claims { sub: user_id.clone(), exp: now + 24 * 3600, iat: now }
}

} // verus!
