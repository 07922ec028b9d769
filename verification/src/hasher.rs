//! The secret hasher: salted, one-way hashing of passwords and API keys with
//! Argon2, and the check of a secret against a stored digest.
//!
//! A digest is a PHC string. It names the algorithm, its version and cost
//! parameters, the salt and the output, so that checking a secret needs nothing
//! but the digest itself.

use argon2::password_hash::rand_core::OsRng;
use argon2::password_hash::Error;
use argon2::password_hash::PasswordHasher;
use argon2::password_hash::PasswordVerifier;
use argon2::password_hash::Salt;
use argon2::password_hash::SaltString;
use argon2::Argon2;
use argon2::PasswordHash;
use crate::database::DatabaseError;
use vstd::prelude::*;

verus! {

/// The error type of the `password-hash` crate, carried through unread.
#[verifier::external_type_specification]
#[verifier::external_body]
pub struct ExPasswordHashError(Error);

/// The PHC string that Argon2id, with the default version and cost parameters
/// of the `argon2` crate, derives from `secret` and the B64 salt text `salt`;
/// `None` where it derives none (the text is no salt, or Argon2 refuses the
/// input).
pub uninterp spec fn argon2_digest(secret: Seq<char>, salt: Seq<char>) -> Option<Seq<char>>;

/// Whether `digest` parses as a PHC string and Argon2, run on `secret` with
/// the algorithm, version, parameters and salt that the string names, arrives
/// at the output that the string holds.
pub uninterp spec fn argon2_accepts(secret: Seq<char>, digest: Seq<char>) -> bool;

/// A secret could not be hashed.
#[derive(Clone, Copy, Debug, PartialEq, Eq, Structural)]
pub struct HashFailure;

/// The most bytes of a secret that Argon2 hashes.
pub const MAX_SECRET_BYTES: u64 = 0xFFFF_FFFF;

/// Whether `secret` is short enough to be hashed: as UTF-8 it has no more
/// than `MAX_SECRET_BYTES` bytes. What it holds does not matter.
pub open spec fn is_hashable(secret: Seq<char>) -> bool {
    vstd::utf8::encode_utf8(secret).len() <= MAX_SECRET_BYTES
}

/// Whether the hasher takes `salt`: under it, every secret that is short
/// enough has a digest.
pub open spec fn is_usable_salt(salt: Seq<char>) -> bool {
    forall|secret: Seq<char>| is_hashable(secret) ==> #[trigger] argon2_digest(secret, salt) is Some
}

/// Whether `digest` is a digest of `secret`: hashing `secret` under some salt
/// gives it, and it is accepted for `secret`.
pub open spec fn is_digest_of(secret: Seq<char>, digest: Seq<char>) -> bool {
    &&& exists|salt: Seq<char>| argon2_digest(secret, salt) == Some(digest)
    &&& argon2_accepts(secret, digest)
}

/// Calls `SaltString::generate` of `password-hash` on the operating system's
/// random source and hands the salt back as text. Which salt is left open.
///
/// The contract claims that the hasher takes every salt that is drawn. The
/// salt is the B64 text of 16 random bytes; `Salt::from_b64` reads such a
/// text, it decodes to the 16 bytes again, and Argon2 refuses a salt only
/// under 8 bytes and a secret only over `MAX_SECRET_BYTES` bytes.
#[verifier::external_body]
fn fresh_salt() -> (salt: String)
    ensures
        is_usable_salt(salt@),
{
    SaltString::generate(&mut OsRng).as_str().to_owned()
}

/// Calls `Argon2::default().hash_password` of `argon2` on the bytes of
/// `secret` and on `salt` read as a B64 salt, and hands the PHC string back.
///
/// The contract claims that the outcome is a function of the two texts alone,
/// that a secret of more than `MAX_SECRET_BYTES` bytes is refused, and that a
/// digest made here is accepted for the secret it was made from:
/// `verify_password` recomputes the output from the algorithm, version,
/// parameters and salt written in the string, which are the ones used here.
#[verifier::external_body]
fn argon2_hash(secret: &str, salt: &str) -> (hashed: Result<String, Error>)
    ensures
        match hashed {
            Ok(digest) => {
                &&& argon2_digest(secret@, salt@) == Some(digest@)
                &&& argon2_accepts(secret@, digest@)
                &&& is_hashable(secret@)
            },
            Err(_) => argon2_digest(secret@, salt@) is None,
        },
{
    let salt = Salt::from_b64(salt)?;
    let hash = Argon2::default().hash_password(secret.as_bytes(), salt)?;
    Ok(hash.to_string())
}

/// Calls `PasswordHash::new` on `digest` and then
/// `Argon2::default().verify_password` of `argon2` on the bytes of `secret`.
/// The contract claims that acceptance is a function of the two texts alone.
#[verifier::external_body]
fn argon2_verify(secret: &str, digest: &str) -> (checked: Result<(), Error>)
    ensures
        checked is Ok <==> argon2_accepts(secret@, digest@),
{
    let parsed = PasswordHash::new(digest)?;
    Argon2::default().verify_password(secret.as_bytes(), &parsed)
}

/// Hashes `secret` under the given salt. A digest that comes back is accepted
/// for `secret`.
pub fn hash_with_salt(secret: &str, salt: &str) -> (hashed: Result<String, HashFailure>)
    ensures
        match argon2_digest(secret@, salt@) {
            Some(digest) => hashed matches Ok(text) && text@ == digest && argon2_accepts(
                secret@,
                digest,
            ),
            None => hashed == Err::<String, HashFailure>(HashFailure),
        },
        hashed is Ok ==> is_hashable(secret@),
{
    match argon2_hash(secret, salt) {
        Ok(digest) => Ok(digest),
        Err(_) => Err(HashFailure),
    }
}

/// Hashes `secret` under a salt drawn for this call. Hashing succeeds
/// whatever `secret` holds, unless `secret` is too long; what comes back is
/// then a digest of `secret`.
pub fn hash(secret: &str) -> (hashed: Result<String, HashFailure>)
    ensures
        hashed is Ok <==> is_hashable(secret@),
        hashed matches Ok(digest) ==> is_digest_of(secret@, digest@),
{
    let salt = fresh_salt();
    hash_with_salt(secret, salt.as_str())
}

/// Whether `digest` is a digest of `secret`. A text that is no digest at all
/// is a digest of nothing: the answer is `false`, never an error.
pub fn verify(secret: &str, digest: &str) -> (accepted: bool)
    ensures
        accepted == argon2_accepts(secret@, digest@),
{
    match argon2_verify(secret, digest) {
        Ok(_) => true,
        Err(_) => false,
    }
}

/// Hashes an API key for the key column, under a salt drawn for this call.
/// Hashing succeeds whatever `key` holds, unless `key` is too long; what
/// comes back is then a digest of `key`, and else the failure `HashError`.
pub fn hash_api_key(key: &String) -> (hashed: Result<String, DatabaseError>)
    ensures
        hashed is Ok <==> is_hashable(key@),
        match hashed {
            Ok(digest) => is_digest_of(key@, digest@),
            Err(error) => error == DatabaseError::HashError,
        },
{
    match hash(key.as_str()) {
        Ok(digest) => Ok(digest),
        Err(_) => Err(DatabaseError::HashError),
    }
}

} // verus!
