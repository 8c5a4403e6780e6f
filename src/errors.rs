use vstd::prelude::*;

verus! {

/// The kind of record a storage error is about.
#[derive(Clone, Copy, Debug, PartialEq, Eq, Structural)]
pub enum Entity {
    User,
    Credential,
    Session,
    OtpCode,
}

/// Errors of the in-memory stores.
#[derive(Clone, Copy, Debug, PartialEq, Eq, Structural)]
pub enum RepositoryError {
    Connection,
    NotFound(Entity),
    UniqueViolation(Entity),
    DataFormat,
    Transaction,
}

/// The outward error taxonomy of the authentication use cases.
#[derive(Clone, Copy, Debug, PartialEq, Eq, Structural)]
pub enum AuthServiceError {
    TransactionError,
    CreateUser(RepositoryError),
    CreateCredential(RepositoryError),
    InvalidCredentials,
    PasswordHashingError,
    UserNotFound,
    RefreshTokenNotFound,
    CreateAuthRefreshTokenError,
    RevokeRefreshTokenError,
}

/// Why an email-verification token was refused.
#[derive(Clone, Copy, Debug, PartialEq, Eq, Structural)]
pub enum TokenError {
    InvalidSignature,
    Expired,
}

} // verus!
