//! One-way password hashing. The hashing itself is bcrypt's; this module
//! states what the rest of the crate relies on.

use vstd::prelude::*;

verus! {

/// The error type of the `bcrypt` crate, carried through unread.
#[verifier::external_type_specification]
#[verifier::external_body]
pub struct ExBcryptError(bcrypt::BcryptError);

/// The work factor with which passwords are hashed.
pub const PASSWORD_COST: u32 = 12;

/// The work factor with which requester addresses are hashed.
pub const ADDRESS_COST: u32 = 10;

/// What `bcrypt::verify` returns for a secret and a stored hash: `Some(true)`
/// where the hash is well formed and the secret hashes to it, `Some(false)`
/// where it is well formed and the secret does not, `None` where `verify`
/// fails on the hash.
pub uninterp spec fn bcrypt_verdict(secret: Seq<char>, hash: Seq<char>) -> Option<bool>;

/// Whether `secret` verifies against the stored `hash`. A malformed hash
/// verifies nothing.
pub open spec fn verifies(secret: Seq<char>, hash: Seq<char>) -> bool {
    bcrypt_verdict(secret, hash) == Some(true)
}

/// Calls `bcrypt::verify`, which splits `hash` into cost, salt and digest,
/// hashes `secret` again with that cost and salt, and compares. The result
/// depends on the two arguments only; the contract gives it the name
/// `bcrypt_verdict`.
#[verifier::external_body]
fn bcrypt_verify(secret: &str, hash: &str) -> (outcome: Result<bool, bcrypt::BcryptError>)
    ensures
        bcrypt_verdict(secret@, hash@) == match outcome {
            Ok(matched) => Some(matched),
            Err(_) => None::<bool>,
        },
{
    bcrypt::verify(secret, hash)
}

/// Calls `bcrypt::hash`, which draws a random salt and fails where the cost is
/// outside 4..=31 or no randomness can be had. The hash differs from call to
/// call; what holds of each is that `bcrypt::verify` accepts the secret
/// against it: `verify` reads cost and salt back out of the hash and repeats
/// the computation.
#[verifier::external_body]
fn bcrypt_hash(secret: &str, cost: u32) -> (outcome: Result<String, bcrypt::BcryptError>)
    ensures
        outcome matches Ok(hash) ==> 4 <= cost <= 31 && bcrypt_verdict(secret@, hash@) == Some(true),
{
    bcrypt::hash(secret, cost)
}

/// A hash could not be computed.
#[derive(Debug, Clone, Copy, PartialEq, Eq, Structural)]
pub struct HashFailure;

/// Whether `secret` verifies against the stored `hash`. A hash that cannot be
/// read verifies nothing.
pub fn verify_secret(secret: &str, hash: &str) -> (matched: bool)
    ensures
        matched == verifies(secret@, hash@),
{
    match bcrypt_verify(secret, hash) {
        Ok(matched) => matched,
        Err(_) => false,
    }
}

/// Hashes `secret` with the given work factor. Every hash that comes back
/// verifies the secret it was made from.
pub fn hash_secret(secret: &str, cost: u32) -> (hashed: Result<String, HashFailure>)
    ensures
        hashed matches Ok(hash) ==> verifies(secret@, hash@),
        !(4 <= cost <= 31) ==> hashed is Err,
{
    hashing_outcome(bcrypt_hash(secret, cost))
}

/// What an outcome of `bcrypt::hash` comes to for the rest of the crate: the
/// hash where one was made, `HashFailure` where none was, whatever the reason.
pub fn hashing_outcome(outcome: Result<String, bcrypt::BcryptError>) -> (hashed: Result<
    String,
    HashFailure,
>)
    ensures
        hashed == match outcome {
            Ok(hash) => Ok::<String, HashFailure>(hash),
            Err(_) => Err::<String, HashFailure>(HashFailure),
        },
{
    match outcome {
        Ok(hash) => Ok(hash),
        Err(_) => Err(HashFailure),
    }
}

} // verus!
