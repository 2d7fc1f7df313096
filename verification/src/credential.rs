//! Secret verification against a stored hash, through the bcrypt scheme:
//! a slow, salted comparison whose answer is deterministic in the secret
//! and the stored hash alone.

use vstd::prelude::*;

verus! {

/// What `bcrypt::verify` answers for a secret and a stored hash: `None`
/// when the stored hash is malformed and the verifier rejects it, and
/// `Some(b)` when verification runs and answers `b`. Deterministic in the
/// two strings alone.
pub uninterp spec fn bcrypt_check(secret: Seq<char>, stored_hash: Seq<char>) -> Option<bool>;

/// The hash verifier failed: the stored hash was malformed. Distinct from a
/// mismatch, and fatal to the login attempt.
pub struct HashError;

/// Relies on `bcrypt::verify`: deterministic in the secret and the stored
/// hash, it returns `Err` exactly when it rejects the stored hash as
/// malformed, and never panics.
#[verifier::external_body]
pub(crate) fn verify_secret(secret: &str, stored_hash: &str) -> (r: Result<bool, HashError>)
    ensures
        r is Ok <==> bcrypt_check(secret@, stored_hash@) is Some,
        r matches Ok(b) ==> bcrypt_check(secret@, stored_hash@) == Some(b),
{
    match bcrypt::verify(secret, stored_hash) {
        Ok(b) => Ok(b),
        Err(_) => Err(HashError),
    }
}

} // verus!
