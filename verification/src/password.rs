//! Password hashing with Argon2 in the PHC string format.

use vstd::prelude::*;
use vstd::utf8::encode_utf8;
use argon2::password_hash::{PasswordHash, PasswordHasher, PasswordVerifier, SaltString};

verus! {

/// The error type of the `password-hash` crate.
#[verifier::external_type_specification]
#[verifier::external_body]
pub struct ExPasswordHashError(argon2::password_hash::Error);

/// Whether `phc` is a well-formed PHC hash string, as `PasswordHash::new`
/// decides it.
pub uninterp spec fn phc_string_parses(phc: Seq<char>) -> bool;

/// Whether `verify_password` of the default Argon2 instance accepts
/// `password` for the parsed PHC string `phc`: it recomputes the hash with the
/// algorithm, version, parameters and salt that `phc` records and compares the
/// output with the one `phc` records.
pub uninterp spec fn argon2_accepts(password: Seq<char>, phc: Seq<char>) -> bool;

/// Whether the UTF-8 form of `password` fits the default Argon2 instance's
/// limit on password length (`MAX_PWD_LEN`, 2^32 - 1 bytes).
pub open spec fn within_hash_limit(password: Seq<char>) -> bool {
    encode_utf8(password).len() <= 0xFFFF_FFFF
}

/// How a PHC string of the default Argon2 instance begins: the algorithm
/// Argon2id and the version 0x13, written in decimal.
pub open spec fn argon2id_v19_prefix() -> Seq<char> {
    seq!['$', 'a', 'r', 'g', 'o', 'n', '2', 'i', 'd', '$', 'v', '=', '1', '9', '$']
}

/// Whether `phc` is a hash of `password` as the default Argon2 instance writes
/// it: an Argon2id, version 19 PHC string that is accepted for `password`.
pub open spec fn is_argon2id_hash_of(password: Seq<char>, phc: Seq<char>) -> bool {
    &&& argon2id_v19_prefix().is_prefix_of(phc)
    &&& phc_string_parses(phc)
    &&& argon2_accepts(password, phc)
}

/// Hashes `password` with the default Argon2 instance and a salt drawn from
/// the operating system's random source, and renders the hash as a PHC string.
///
/// Trusted: `SaltString::generate`, `Argon2::default`,
/// `PasswordHasher::hash_password` and `PasswordHash`'s `Display`. The
/// contract claims that hashing succeeds exactly when the password's bytes fit
/// `MAX_PWD_LEN` (the generated salt is 16 bytes and the default parameters
/// are valid, so the length check is the one check that can fail; a failing
/// random source panics instead of returning), and that a hash that comes back
/// starts with `$argon2id$v=19$`, parses, and is accepted for the same
/// password, which is what `verify_password` recomputes. The salt is random,
/// so which hash comes back is not stated.
#[verifier::external_body]
fn hash_with_fresh_salt(password: &str) -> (res: Result<String, argon2::password_hash::Error>)
    ensures
        res is Ok <==> within_hash_limit(password@),
        res matches Ok(h) ==> is_argon2id_hash_of(password@, h@),
{
    let salt = SaltString::generate(&mut rand_core::OsRng);
    argon2::Argon2::default().hash_password(password.as_bytes(), &salt).map(|h| h.to_string())
}

/// Parses `phc` with `PasswordHash::new` and checks `password` against it
/// with the default Argon2 instance's `verify_password`.
///
/// Trusted: the contract claims that parsing fails exactly when the string is
/// not a PHC hash (`phc_string_parses`), and that otherwise the answer is
/// `argon2_accepts`, a function of the two strings alone.
#[verifier::external_body]
fn check_against_phc(password: &str, phc: &str) -> (res: Result<bool, argon2::password_hash::Error>)
    ensures
        res is Ok <==> phc_string_parses(phc@),
        res matches Ok(b) ==> b == argon2_accepts(password@, phc@),
{
    match PasswordHash::new(phc) {
        Ok(parsed) => Ok(argon2::Argon2::default().verify_password(password.as_bytes(), &parsed).is_ok()),
        Err(e) => Err(e),
    }
}

/// Why a password operation failed.
#[derive(Debug, Clone, Copy, PartialEq, Eq)]
pub enum PasswordError {
    /// Hashing the password failed.
    HashFailed,
    /// The stored hash is not a PHC hash string.
    InvalidHash,
}

/// Hashes a password for storage, with a fresh random salt. Fails only for a
/// password longer than the hasher accepts.
pub fn argon2_hash(password: &str) -> (res: Result<String, PasswordError>)
    ensures
        res is Ok <==> within_hash_limit(password@),
        res matches Ok(h) ==> is_argon2id_hash_of(password@, h@),
        res matches Err(e) ==> e == PasswordError::HashFailed,
{
    match hash_with_fresh_salt(password) {
        Ok(h) => Ok(h),
        Err(_) => Err(PasswordError::HashFailed),
    }
}

/// Checks a password against a stored hash.
pub fn argon2_verify(password: &str, hash: &str) -> (res: Result<bool, PasswordError>)
    ensures
        phc_string_parses(hash@) ==> res == Ok::<bool, PasswordError>(argon2_accepts(password@, hash@)),
        !phc_string_parses(hash@) ==> res == Err::<bool, PasswordError>(PasswordError::InvalidHash),
{
    match check_against_phc(password, hash) {
        Ok(b) => Ok(b),
        Err(_) => Err(PasswordError::InvalidHash),
    }
}

} // verus!
