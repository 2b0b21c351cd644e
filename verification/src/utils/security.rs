//! The credential store: one-way hashing of secrets and their verification.

use vstd::prelude::*;
use argon2::{PasswordHasher, PasswordVerifier};

verus! {

/// The digest that Argon2 gives to a secret under a salt, in PHC string
/// form, or `None` where the salt is not valid or hashing fails.
pub uninterp spec fn argon2_digest(secret: Seq<char>, salt: Seq<char>) -> Option<Seq<char>>;

/// Whether a text parses as a PHC hash string.
pub uninterp spec fn phc_well_formed(digest: Seq<char>) -> bool;

/// Whether Argon2 accepts a secret for a digest.
pub uninterp spec fn argon2_accepts(secret: Seq<char>, digest: Seq<char>) -> bool;

/// The text reported when hashing fails.
pub const HASH_FAILURE: &'static str = "Error al encriptar contraseña";

/// Calls `SaltString::generate` on the operating system's random source and
/// gives the salt's text. Nothing is promised of a random value.
#[verifier::external_body]
fn random_salt() -> (r: String) {
    argon2::password_hash::SaltString::generate(&mut argon2::password_hash::rand_core::OsRng)
        .as_str()
        .to_string()
}

/// Calls `Argon2::hash_password` with the default parameters on the secret
/// and the salt parsed by `SaltString::from_b64`: the result is the digest
/// of the two, in PHC string form.
#[verifier::external_body]
fn argon2_hash(secret: &str, salt: &str) -> (r: Option<String>)
    ensures
        match r {
            Some(digest) => argon2_digest(secret@, salt@) == Some(digest@),
            None => argon2_digest(secret@, salt@) is None,
        },
{
    let salt = argon2::password_hash::SaltString::from_b64(salt).ok()?;
    argon2::Argon2::default().hash_password(secret.as_bytes(), &salt).ok().map(|h| h.to_string())
}

/// Calls `PasswordHash::new` and says whether the text parsed.
#[verifier::external_body]
fn phc_parses(digest: &str) -> (r: bool)
    ensures
        r == phc_well_formed(digest@),
{
    argon2::PasswordHash::new(digest).is_ok()
}

/// Calls `Argon2::verify_password` with the default parameters on the
/// secret and the parsed digest, and says whether it accepted.
#[verifier::external_body]
fn argon2_verify(secret: &str, digest: &str) -> (r: bool)
    requires
        phc_well_formed(digest@),
    ensures
        r == argon2_accepts(secret@, digest@),
{
    argon2::PasswordHash::new(digest).is_ok_and(
        |h| argon2::Argon2::default().verify_password(secret.as_bytes(), &h).is_ok(),
    )
}

/// Hashes a secret under a given salt. Failure is reported, never replaced
/// by the secret itself.
pub fn hash_with_salt(password: &str, salt: &str) -> (r: Result<String, String>)
    ensures
        match r {
            Ok(digest) => argon2_digest(password@, salt@) == Some(digest@),
            Err(reason) => argon2_digest(password@, salt@) is None && reason@ == HASH_FAILURE@,
        },
{
    match argon2_hash(password, salt) {
        Some(digest) => Ok(digest),
        None => Err(String::from_str(HASH_FAILURE)),
    }
}

/// Hashes a secret under a fresh random salt: the digest is the one of the
/// secret under some salt, or hashing failed and says so.
pub fn hash_password(password: &str) -> (r: Result<String, String>)
    ensures
        match r {
            Ok(digest) => exists|salt: Seq<char>|
                #[trigger] argon2_digest(password@, salt) == Some(digest@),
            Err(reason) => reason@ == HASH_FAILURE@,
        },
{
    let salt = random_salt();
    hash_with_salt(password, salt.as_str())
}

/// Whether the secret is the one that was hashed into the digest. A text
/// that is no digest accepts nothing.
pub fn verify_password(password: &str, password_hash: &str) -> (r: bool)
    ensures
        r == (phc_well_formed(password_hash@) && argon2_accepts(password@, password_hash@)),
{
    if !phc_parses(password_hash) {
        return false;
    }
    argon2_verify(password, password_hash)
}

} // verus!
