use auth::{
    verify_token, AuthService, AuthServiceError, CredentialStore, Entity, RepositoryError,
    SessionStore, TokenConfig, UserStore,
};

const DAY: u64 = 86_400;

fn service() -> AuthService {
    AuthService::new(
        UserStore::new(),
        CredentialStore::new(),
        SessionStore::new(),
        TokenConfig {
            secret: b"jwt secret".to_vec(),
            access_token_duration: DAY,
            refresh_token_duration: 7 * DAY,
        },
        4,
    )
}

#[test]
fn register_then_login_gives_session_and_day_long_access_token() {
    let mut svc = service();
    let now = 1_700_000_000;
    let user = svc.register_user_with_credentials("a@x.com", "Secret123!", now).unwrap();
    assert_eq!(user.email, "a@x.com");
    assert_eq!(user.id, 0);
    let t = svc.login_with_credentials(&user, "Secret123!", b"refresh-1", now).unwrap();
    assert!(!t.refresh_token.is_empty());
    assert_eq!(t.refresh_token, b"refresh-1".to_vec());
    assert_eq!(t.session.user_id, user.id);
    assert_eq!(t.session.expires_at, now + 7 * DAY);
    assert_eq!(t.access_token.expires_at, now + DAY);
    assert_eq!(verify_token(b"jwt secret", &t.access_token, now + 10), Ok(user.id));
}

#[test]
fn login_with_wrong_password_is_invalid_credentials() {
    let mut svc = service();
    let user = svc.register_user_with_credentials("a@x.com", "Secret123!", 0).unwrap();
    let r = svc.login_with_credentials(&user, "Secret123?", b"r", 0);
    assert_eq!(r.err(), Some(AuthServiceError::InvalidCredentials));
}

#[test]
fn login_without_credential_is_invalid_credentials() {
    let mut svc = service();
    let user = svc.register_user_with_credentials("a@x.com", "Secret123!", 0).unwrap();
    let mut stranger = user.copy();
    stranger.id = 77;
    let r = svc.login_with_credentials(&stranger, "Secret123!", b"r", 0);
    assert_eq!(r.err(), Some(AuthServiceError::InvalidCredentials));
}

#[test]
fn duplicate_email_is_refused() {
    let mut svc = service();
    svc.register_user_with_credentials("a@x.com", "one", 0).unwrap();
    let r = svc.register_user_with_credentials("a@x.com", "two", 0);
    assert_eq!(
        r.err(),
        Some(AuthServiceError::CreateUser(RepositoryError::UniqueViolation(Entity::User)))
    );
    assert_eq!(svc.users_service.users.len(), 1);
    assert_eq!(svc.credentials_service.credentials.len(), 1);
}

#[test]
fn refresh_rotates_and_old_secret_is_rejected() {
    let mut svc = service();
    let user = svc.register_user_with_credentials("a@x.com", "pw", 0).unwrap();
    svc.login_with_credentials(&user, "pw", b"r1", 0).unwrap();
    let t = svc.refresh_session_at(b"r1", b"r2", 100).unwrap();
    assert_eq!(t.refresh_token, b"r2".to_vec());
    assert_eq!(t.session.issued_at, 100);
    assert_eq!(t.session.expires_at, 100 + 7 * DAY);
    assert_eq!(t.access_token.expires_at, 100 + DAY);
    let replay = svc.refresh_session_at(b"r1", b"r3", 200);
    assert_eq!(replay.err(), Some(AuthServiceError::RefreshTokenNotFound));
    assert!(svc.refresh_session_at(b"r2", b"r3", 200).is_ok());
}

#[test]
fn concurrent_refresh_with_same_secret_only_one_wins() {
    let mut svc = service();
    let user = svc.register_user_with_credentials("a@x.com", "pw", 0).unwrap();
    svc.login_with_credentials(&user, "pw", b"r1", 0).unwrap();
    let first = svc.refresh_session_at(b"r1", b"a", 10);
    let second = svc.refresh_session_at(b"r1", b"b", 10);
    assert!(first.is_ok());
    assert_eq!(second.err(), Some(AuthServiceError::RefreshTokenNotFound));
}

#[test]
fn expired_refresh_token_is_not_found() {
    let mut svc = service();
    let user = svc.register_user_with_credentials("a@x.com", "pw", 0).unwrap();
    svc.login_with_credentials(&user, "pw", b"r1", 0).unwrap();
    let r = svc.refresh_session_at(b"r1", b"r2", 7 * DAY);
    assert_eq!(r.err(), Some(AuthServiceError::RefreshTokenNotFound));
    let r = svc.refresh_session_at(b"r1", b"r2", 7 * DAY + 1);
    assert_eq!(r.err(), Some(AuthServiceError::RefreshTokenNotFound));
}

#[test]
fn revoke_then_refresh_is_not_found() {
    let mut svc = service();
    let user = svc.register_user_with_credentials("a@x.com", "pw", 0).unwrap();
    svc.login_with_credentials(&user, "pw", b"r1", 0).unwrap();
    assert_eq!(svc.revoke_refresh_token(b"r1"), Ok(()));
    let r = svc.refresh_session_at(b"r1", b"r2", 10);
    assert_eq!(r.err(), Some(AuthServiceError::RefreshTokenNotFound));
    assert_eq!(svc.revoke_refresh_token(b"r1"), Err(AuthServiceError::RefreshTokenNotFound));
}

#[test]
fn unknown_refresh_token_is_not_found() {
    let mut svc = service();
    let r = svc.refresh_session_at(b"nope", b"x", 10);
    assert_eq!(r.err(), Some(AuthServiceError::RefreshTokenNotFound));
    assert_eq!(svc.revoke_refresh_token(b"nope"), Err(AuthServiceError::RefreshTokenNotFound));
}

#[test]
fn refresh_with_reused_new_secret_is_a_creation_error() {
    let mut svc = service();
    let user = svc.register_user_with_credentials("a@x.com", "pw", 0).unwrap();
    svc.login_with_credentials(&user, "pw", b"r1", 0).unwrap();
    let r = svc.refresh_session_at(b"r1", b"r1", 10);
    assert_eq!(r.err(), Some(AuthServiceError::CreateAuthRefreshTokenError));
    assert!(svc.refresh_session_at(b"r1", b"r2", 10).is_ok());
}

#[test]
fn refresh_at_current_time() {
    let mut svc = service();
    let user = svc.register_user_with_credentials("a@x.com", "pw", 0).unwrap();
    let now = std::time::SystemTime::now()
        .duration_since(std::time::UNIX_EPOCH)
        .unwrap()
        .as_secs();
    svc.login_with_credentials(&user, "pw", b"r1", now).unwrap();
    let t = svc.create_new_refresh_token(b"r1", b"r2").unwrap();
    assert!(t.session.issued_at >= now);
    assert_eq!(
        svc.create_new_refresh_token(b"r1", b"r3").err(),
        Some(AuthServiceError::RefreshTokenNotFound)
    );
}
