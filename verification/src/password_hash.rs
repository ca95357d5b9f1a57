//! bcrypt's hashing and verification of passwords, behind trusted wrappers.

use vstd::prelude::*;
use crate::login::{bcrypt_key, bcrypt_verify_outcome};

verus! {

/// bcrypt could not draw a random salt from the operating system. Its field
/// is private to this module, so only a failed call of `bcrypt::hash` in
/// [`bcrypt_hash`] makes one.
#[derive(Debug, Clone, Copy)]
pub struct SaltUnavailable {
    drawn: bool,
}

/// `bcrypt::hash` at `bcrypt::DEFAULT_COST`: hashes `password` with a random
/// salt, and reports an error where `bcrypt::hash` does (the salt could not
/// be drawn from the operating system; the cost is a valid one). Of a
/// returned hash it claims what the crate's source shows: `bcrypt::verify` parses it without error for every password, and
/// accepts every password from which bcrypt derives the same key. That it
/// refuses the other passwords rests on bcrypt's resistance to collisions and
/// is left unsaid.
#[verifier::external_body]
pub(crate) fn bcrypt_hash(password: &[u8]) -> (r: Result<String, SaltUnavailable>)
    ensures
        r matches Ok(h) ==> forall|p: Seq<u8>| (#[trigger] bcrypt_verify_outcome(p, h@)) is Some,
        r matches Ok(h) ==> forall|p: Seq<u8>|
            bcrypt_key(p) == bcrypt_key(password@) ==> #[trigger] bcrypt_verify_outcome(p, h@)
                == Some(true),
{
    match bcrypt::hash(password, bcrypt::DEFAULT_COST) {
        Ok(h) => Ok(h),
        Err(_) => Err(SaltUnavailable { drawn: false }),
    }
}

/// `bcrypt::verify`: whether `password` matches the bcrypt hash string
/// `hash`, `None` where it returns an error. Its result depends on its
/// arguments alone, and is named by [`bcrypt_verify_outcome`].
#[verifier::external_body]
pub(crate) fn bcrypt_verify(password: &[u8], hash: &str) -> (r: Option<bool>)
    ensures
        r == bcrypt_verify_outcome(password@, hash@),
{
    bcrypt::verify(password, hash).ok()
}

} // verus!
