use argon2::password_hash::rand_core::OsRng;
use argon2::password_hash::SaltString;
use argon2::{Argon2, PasswordHash, PasswordHasher, PasswordVerifier};
use vstd::prelude::*;

verus! {

/// `password_hash::Error`, what the hasher complains of. Nothing reads it.
#[verifier::external_type_specification]
#[verifier::external_body]
pub struct ExPhcError(argon2::password_hash::Error);

/// Whether `hash` is a well-formed PHC string, that is, whether
/// `PasswordHash::new` accepts it.
pub uninterp spec fn phc_parses(hash: Seq<char>) -> bool;

/// Whether Argon2 with the default settings, run on `password` with the
/// algorithm, version, parameters and salt that the PHC string `hash` names,
/// arrives at the output that `hash` holds.
pub uninterp spec fn argon2_accepts(password: Seq<char>, hash: Seq<char>) -> bool;

/// Whether `password` is sure to fit the hasher: a character takes at most
/// four bytes, and the hasher takes at most 0xFFFFFFFF bytes.
pub open spec fn hashable(password: Seq<char>) -> bool {
    password.len() <= 0x3FFF_FFFF
}

/// `SaltString::generate` on the operating system's random source, then
/// `Argon2::default().hash_password` with that salt, the hash written out
/// as a PHC string. The contract claims three things. A hash that comes
/// back is well formed, and the password it was made from is accepted
/// against it. It is not empty: a PHC string begins with `$`. And a hash
/// does come back for every password that fits the hasher, whatever salt
/// was drawn: the hasher refuses nothing but a password or a salt of a
/// length out of its range, and the salt drawn always has 16 bytes.
#[verifier::external_body]
pub(crate) fn argon2_hash(password: &str) -> (hashed: Result<String, argon2::password_hash::Error>)
    ensures
        hashed matches Ok(hash) ==> phc_parses(hash@) && argon2_accepts(password@, hash@),
        hashed matches Ok(hash) ==> hash@.len() > 0,
        hashable(password@) ==> hashed is Ok,
{
    let salt = SaltString::generate(&mut OsRng);
    Argon2::default().hash_password(password.as_bytes(), &salt).map(|hash| hash.to_string())
}

/// `PasswordHash::new` on `hash`, then `Argon2::default().verify_password`.
/// The outer result is that of the parse, the inner one that of the
/// verification.
#[verifier::external_body]
pub(crate) fn argon2_verify(password: &str, hash: &str) -> (checked: Result<
    Result<(), argon2::password_hash::Error>,
    argon2::password_hash::Error,
>)
    ensures
        checked.is_ok() == phc_parses(hash@),
        checked matches Ok(verdict) ==> verdict.is_ok() == argon2_accepts(password@, hash@),
{
    let parsed = PasswordHash::new(hash)?;
    Ok(Argon2::default().verify_password(password.as_bytes(), &parsed))
}

} // verus!
