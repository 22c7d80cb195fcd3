//! The password-hashing primitive, called through a narrow trusted boundary.
//!
//! Hashing draws a random salt, so nothing is stated about the digest it
//! returns.  Verification is a function of the password and the digest alone;
//! its result carries the name `verify_outcome`, and the contracts of the
//! login flow speak of that name.

use vstd::prelude::*;
use argon2::password_hash::PasswordHasher;
use argon2::password_hash::PasswordVerifier;
use argon2::password_hash::phc::PasswordHash;

verus! {

/// A failure of the credential primitive, reported to callers without detail.
#[derive(Clone, Copy, PartialEq, Eq, Structural, Debug)]
pub enum CredentialError {
    /// The primitive could not produce a digest.
    HashingFailed,
    /// The stored digest could not be parsed, so no comparison took place.
    MalformedDigest,
}

/// What verifying `password` against `digest` yields: `None` when the digest
/// does not parse, otherwise `Some` of whether the password matches.  The
/// result depends on the two arguments alone.
pub uninterp spec fn verify_outcome(password: Seq<char>, digest: Seq<char>) -> Option<bool>;

/// Relies on argon2's `PasswordHasher::hash_password` (Argon2id, version 0x13,
/// 64 MiB, three passes, four lanes, 64-byte tags) with a random salt: the
/// digest depends on that salt, so nothing is promised about it.
#[verifier::external_body]
pub fn hash_password(password: &str) -> (r: Result<String, CredentialError>) {
    let params = match argon2::Params::new(65536, 3, 4, Some(64)) {
        Ok(p) => p,
        Err(_) => return Err(CredentialError::HashingFailed),
    };
    let engine = argon2::Argon2::new(argon2::Algorithm::Argon2id, argon2::Version::V0x13, params);
    match engine.hash_password(password.as_bytes()) {
        Ok(h) => Ok(h.to_string()),
        Err(_) => Err(CredentialError::MalformedDigest),
    }
}

/// Relies on phc's `PasswordHash::new` and argon2's
/// `PasswordVerifier::verify_password`: parsing and comparison read only the
/// two arguments, so the call decides `verify_outcome`.
#[verifier::external_body]
pub fn verify_password(password: &str, digest: &str) -> (r: Result<bool, CredentialError>)
    ensures
        r is Ok <==> verify_outcome(password@, digest@) is Some,
        r matches Ok(b) ==> verify_outcome(password@, digest@) == Some(b),
        r matches Err(e) ==> e == CredentialError::MalformedDigest,
{
    let parsed = match PasswordHash::new(digest) {
        Ok(p) => p,
        Err(_) => return Err(CredentialError::MalformedDigest),
    };
    let engine = argon2::Argon2::default();
    Ok(engine.verify_password(password.as_bytes(), &parsed).is_ok())
}

/// The credential verifier with its invocation count.  The login flow promises
/// one invocation per attempt whatever the outcome, which is the
/// timing-equalization rule made checkable.
pub struct VerifyCounter {
    /// How often the verify primitive has been invoked.
    pub calls: u64,
}

impl VerifyCounter {
    pub fn new() -> (c: Self)
        ensures
            c.calls == 0,
    {
        VerifyCounter { calls: 0 }
    }

    /// Verifies `password` against `digest` and counts the invocation.
    pub fn verify(&mut self, password: &str, digest: &str) -> (r: Result<bool, CredentialError>)
        requires
            old(self).calls < u64::MAX,
        ensures
            final (self).calls == old(self).calls + 1,
            r matches Ok(b) ==> verify_outcome(password@, digest@) == Some(b),
            r is Err <==> verify_outcome(password@, digest@) is None,
    {
        self.calls = self.calls + 1;
        verify_password(password, digest)
    }
}

} // verus!
