use crate::errors::AuthServiceError;
use vstd::prelude::*;

verus! {

#[verifier::external_type_specification]
#[verifier::external_body]
pub struct ExBcryptError(bcrypt::BcryptError);

/// What bcrypt's `verify` gives for a password and a stored hash: `None`
/// where it fails (a malformed hash), else whether they match.
pub uninterp spec fn bcrypt_verify_of(password: Seq<char>, hash: Seq<char>) -> Option<bool>;

/// Relies on `bcrypt::verify`: it parses cost and salt out of the hash,
/// rehashes the password with them and compares; the outcome depends on the
/// two strings alone.
#[verifier::external_body]
fn bcrypt_verify(password: &str, hash: &str) -> (r: Result<bool, bcrypt::BcryptError>)
    ensures
        r matches Ok(b) ==> bcrypt_verify_of(password@, hash@) == Some(b),
        r is Err ==> bcrypt_verify_of(password@, hash@) is None,
{
    bcrypt::verify(password, hash)
}

/// Relies on `bcrypt::hash`: a hash with a fresh random salt, written in the
/// form that `bcrypt::verify` parses, so that the same password verifies
/// against it.
#[verifier::external_body]
fn bcrypt_hash(password: &str, cost: u32) -> (r: Result<String, bcrypt::BcryptError>)
    ensures
        r matches Ok(h) ==> bcrypt_verify_of(password@, h@) == Some(true),
{
    bcrypt::hash(password, cost)
}

/// The outcome of checking `password` against `hash`: a hash that the
/// hashing primitive cannot read is a hashing failure.
pub open spec fn password_check(password: Seq<char>, hash: Seq<char>) -> Result<bool, AuthServiceError> {
    match bcrypt_verify_of(password, hash) {
        Some(b) => Ok(b),
        None => Err(AuthServiceError::PasswordHashingError),
    }
}

/// Checks a password against a stored hash.
pub fn verify_hash_password(password: &str, hash: &str) -> (r: Result<bool, AuthServiceError>)
    ensures
        r == password_check(password@, hash@),
{
    match bcrypt_verify(password, hash) {
        Ok(b) => Ok(b),
        Err(_) => Err(AuthServiceError::PasswordHashingError),
    }
}

/// Derives a salted hash of a password at the given work factor.
pub fn hash_password(password: &str, cost: u32) -> (r: Result<String, AuthServiceError>)
    ensures
        r matches Ok(h) ==> bcrypt_verify_of(password@, h@) == Some(true),
        r matches Err(e) ==> e == AuthServiceError::PasswordHashingError,
{
    match bcrypt_hash(password, cost) {
        Ok(h) => Ok(h),
        Err(_) => Err(AuthServiceError::PasswordHashingError),
    }
}

/// A password verifies against every hash that `hash_password` derived from
/// it.
pub proof fn lemma_hashed_password_verifies(password: Seq<char>, hash: Seq<char>)
    requires
        bcrypt_verify_of(password, hash) == Some(true),
    ensures
        password_check(password, hash) == Ok::<bool, AuthServiceError>(true),
{
}

} // verus!
