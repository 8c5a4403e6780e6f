//! Authentication core: password credentials, refresh sessions, one-time
//! codes and signed email-verification tokens.

pub mod auth_service;
pub mod credentials;
pub mod digest;
pub mod errors;
pub mod otp;
pub mod password;
pub mod request;
pub mod sessions;
pub mod signed_token;
pub mod users;

pub use auth_service::{AuthService, SessionTokens, TokenConfig};
pub use credentials::{Credential, CredentialStore};
pub use digest::{digest_eq, Digest};
pub use errors::{AuthServiceError, Entity, RepositoryError, TokenError};
pub use otp::{OtpCode, OtpPurpose, OtpStore};
pub use password::{hash_password, verify_hash_password};
pub use request::ValidatedJson;
pub use sessions::{Session, SessionStore};
pub use signed_token::{
    issue_token, payload_bytes, verify_token, EmailVerificationsService, SignedToken,
};
pub use users::{User, UserStore};
