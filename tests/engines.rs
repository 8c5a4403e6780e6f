use auth::{
    digest_eq, hash_password, issue_token, payload_bytes, verify_hash_password, verify_token,
    AuthServiceError, EmailVerificationsService, Entity, OtpPurpose, OtpStore, RepositoryError,
    SessionStore, TokenError,
};
use hmac::{Hmac, KeyInit, Mac};

const FAST_COST: u32 = 4;

fn digest_of(tag: u8) -> [u8; 32] {
    let mut d = [0u8; 32];
    d[0] = tag;
    d[31] = tag.wrapping_mul(7);
    d
}

#[test]
fn otp_stores_sha256_of_code() {
    let mut otp = OtpStore::new(300);
    let c = otp.issue(1, OtpPurpose::Login, b"abc", 0).unwrap();
    assert_eq!(c.code_hash[0], 0xba);
    assert_eq!(c.code_hash[1], 0x78);
    assert_eq!(c.code_hash[31], 0xad);
}

#[test]
fn email_token_signature_is_hmac_sha256() {
    let t = issue_token(b"key", 1, 2, 3);
    let u = issue_token(b"key", 1, 2, 3);
    assert_eq!(t.signature, u.signature);
    assert_ne!(t.signature, [0u8; 32]);
    assert_ne!(issue_token(b"key2", 1, 2, 3).signature, t.signature);

    let mut mac = <Hmac<sha2::Sha256> as KeyInit>::new_from_slice(b"key").unwrap();
    mac.update(&payload_bytes(1, 2, 5));
    let expected = mac.finalize().into_bytes();
    assert_eq!(&t.signature[..], expected.as_slice());
}

#[test]
fn digest_eq_compares_every_byte() {
    let a = digest_of(1);
    let mut b = a;
    assert!(digest_eq(&a, &b));
    b[31] ^= 1;
    assert!(!digest_eq(&a, &b));
    b = a;
    b[0] ^= 0x80;
    assert!(!digest_eq(&a, &b));
}

#[test]
fn hashed_password_verifies_and_a_mutated_one_does_not() {
    let h = hash_password("Secret123!", FAST_COST).unwrap();
    assert_ne!(h, "Secret123!");
    assert_eq!(verify_hash_password("Secret123!", &h), Ok(true));
    assert_eq!(verify_hash_password("Secret123?", &h), Ok(false));
    assert_eq!(verify_hash_password("secret123!", &h), Ok(false));
    assert_eq!(verify_hash_password("", &h), Ok(false));
}

#[test]
fn malformed_hash_is_a_hashing_failure() {
    assert_eq!(
        verify_hash_password("pw", "not a bcrypt hash"),
        Err(AuthServiceError::PasswordHashingError)
    );
}

#[test]
fn cost_out_of_range_is_a_hashing_failure() {
    assert_eq!(hash_password("pw", 2), Err(AuthServiceError::PasswordHashingError));
}

#[test]
fn payload_is_big_endian_fields() {
    let p = payload_bytes(0x0102030405060708, 1, 0xff00);
    assert_eq!(
        p,
        vec![1, 2, 3, 4, 5, 6, 7, 8, 0, 0, 0, 0, 0, 0, 0, 1, 0, 0, 0, 0, 0, 0, 0xff, 0]
    );
}

#[test]
fn email_token_valid_until_expiry() {
    let key = b"server secret";
    let t = issue_token(key, 42, 1_000, 86_400);
    assert_eq!(t.subject, 42);
    assert_eq!(t.issued_at, 1_000);
    assert_eq!(t.expires_at, 87_400);
    assert_eq!(verify_token(key, &t, 1_000), Ok(42));
    assert_eq!(verify_token(key, &t, 87_399), Ok(42));
    // stateless: verifying again still succeeds
    assert_eq!(verify_token(key, &t, 87_399), Ok(42));
    assert_eq!(verify_token(key, &t, 87_400), Err(TokenError::Expired));
    assert_eq!(verify_token(key, &t, 200_000), Err(TokenError::Expired));
}

#[test]
fn email_token_altered_is_invalid_signature() {
    let key = b"server secret";
    let t = issue_token(key, 42, 1_000, 86_400);
    let mut a = t;
    a.subject = 43;
    assert_eq!(verify_token(key, &a, 1_000), Err(TokenError::InvalidSignature));
    let mut b = t;
    b.expires_at += 1;
    assert_eq!(verify_token(key, &b, 1_000), Err(TokenError::InvalidSignature));
    for i in 0..32 {
        let mut c = t;
        c.signature[i] ^= 1;
        assert_eq!(verify_token(key, &c, 1_000), Err(TokenError::InvalidSignature));
    }
    assert_eq!(verify_token(b"other key", &t, 1_000), Err(TokenError::InvalidSignature));
    // an expired and altered token reports the signature first
    assert_eq!(verify_token(key, &a, 900_000), Err(TokenError::InvalidSignature));
}

#[test]
fn email_verification_service_round_trip() {
    let svc = EmailVerificationsService::new(b"hmac secret".to_vec(), 86_400);
    let t = svc.issue(3, 50);
    assert_eq!(t.expires_at, 86_450);
    assert_eq!(svc.verify(&t, 86_449), Ok(3));
    assert_eq!(svc.verify(&t, 86_450), Err(TokenError::Expired));
    let other = EmailVerificationsService::new(b"another".to_vec(), 86_400);
    assert_eq!(other.verify(&t, 60), Err(TokenError::InvalidSignature));
}

#[test]
fn session_create_and_find() {
    let mut store = SessionStore::new();
    let h = digest_of(2);
    let s = store.create_session(7, &h, 100, 50).unwrap();
    assert_eq!(s.id, 0);
    assert_eq!(s.user_id, 7);
    assert_eq!(s.issued_at, 100);
    assert_eq!(s.expires_at, 150);
    assert!(!s.revoked);
    let found = store.find_session_by_hash(&h).unwrap();
    assert_eq!(found.id, 0);
    assert!(store.find_session_by_hash(&digest_of(3)).is_none());
    assert_eq!(
        store.create_session(8, &h, 100, 50).unwrap_err(),
        RepositoryError::UniqueViolation(Entity::Session)
    );
}

#[test]
fn rotated_secret_never_found_again() {
    let mut store = SessionStore::new();
    let old = digest_of(4);
    let new = digest_of(5);
    store.create_session(1, &old, 100, 50).unwrap();
    let s = store.update_session(&old, &new, 120, 50).unwrap();
    assert_eq!(s.id, 0);
    assert_eq!(s.issued_at, 120);
    assert_eq!(s.expires_at, 170);
    assert!(store.find_session_by_hash(&old).is_none());
    assert!(store.find_session_by_hash(&new).is_some());
    // the retired digest cannot be handed out again either
    assert_eq!(
        store.create_session(2, &old, 130, 50).unwrap_err(),
        RepositoryError::UniqueViolation(Entity::Session)
    );
    assert!(store.find_session_by_hash(&old).is_none());
}

#[test]
fn second_rotation_with_same_secret_fails() {
    let mut store = SessionStore::new();
    let old = digest_of(4);
    store.create_session(1, &old, 100, 50).unwrap();
    assert!(store.update_session(&old, &digest_of(6), 110, 50).is_ok());
    assert_eq!(
        store.update_session(&old, &digest_of(7), 110, 50).unwrap_err(),
        RepositoryError::NotFound(Entity::Session)
    );
}

#[test]
fn expired_session_is_not_rotated() {
    let mut store = SessionStore::new();
    let old = digest_of(4);
    store.create_session(1, &old, 100, 50).unwrap();
    // exactly at the expiry counts as expired
    assert_eq!(
        store.update_session(&old, &digest_of(8), 150, 50).unwrap_err(),
        RepositoryError::NotFound(Entity::Session)
    );
    assert_eq!(store.find_session_by_hash(&old).unwrap().expires_at, 150);
}

#[test]
fn revoke_is_idempotent() {
    let mut store = SessionStore::new();
    let h = digest_of(9);
    let s = store.create_session(1, &h, 100, 50).unwrap();
    assert_eq!(store.revoke_session_by_hash(s.id), Ok(()));
    assert!(store.find_session_by_hash(&h).is_none());
    assert_eq!(store.revoke_session_by_hash(s.id), Ok(()));
    assert_eq!(
        store.revoke_session_by_hash(99),
        Err(RepositoryError::NotFound(Entity::Session))
    );
    assert!(store.update_session(&h, &digest_of(10), 110, 50).is_err());
}

#[test]
fn otp_accepted_exactly_once() {
    let mut otp = OtpStore::new(300);
    let c = otp.issue(5, OtpPurpose::Login, b"123456", 1_000).unwrap();
    assert_eq!(c.expires_at, 1_300);
    assert!(!c.consumed);
    assert_ne!(c.code_hash, [0u8; 32]);
    assert!(otp.verify_and_consume(5, OtpPurpose::Login, b"123456", 1_010));
    assert!(!otp.verify_and_consume(5, OtpPurpose::Login, b"123456", 1_020));
    assert!(!otp.verify_and_consume(5, OtpPurpose::Login, b"123456", 1_030));
}

#[test]
fn otp_wrong_code_owner_or_purpose_is_refused() {
    let mut otp = OtpStore::new(300);
    otp.issue(5, OtpPurpose::PasswordReset, b"111111", 0).unwrap();
    assert!(!otp.verify_and_consume(5, OtpPurpose::PasswordReset, b"222222", 10));
    assert!(!otp.verify_and_consume(6, OtpPurpose::PasswordReset, b"111111", 10));
    assert!(!otp.verify_and_consume(5, OtpPurpose::Login, b"111111", 10));
    assert!(otp.verify_and_consume(5, OtpPurpose::PasswordReset, b"111111", 10));
}

#[test]
fn otp_reset_code_past_ttl_is_refused() {
    let mut otp = OtpStore::new(300);
    otp.issue(9, OtpPurpose::PasswordReset, b"424242", 10_000).unwrap();
    assert!(!otp.verify_and_consume(9, OtpPurpose::PasswordReset, b"424242", 10_300));
    assert!(!otp.verify_and_consume(9, OtpPurpose::PasswordReset, b"424242", 10_301));
}

#[test]
fn otp_earlier_codes_stay_valid() {
    let mut otp = OtpStore::new(300);
    otp.issue(1, OtpPurpose::EmailVerification, b"aaaa", 0).unwrap();
    otp.issue(1, OtpPurpose::EmailVerification, b"bbbb", 0).unwrap();
    assert!(otp.verify_and_consume(1, OtpPurpose::EmailVerification, b"aaaa", 1));
    assert!(otp.verify_and_consume(1, OtpPurpose::EmailVerification, b"bbbb", 1));
}
