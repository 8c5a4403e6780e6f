use crate::credentials::{has_credential, CredentialStore};
use crate::digest::{sha256_digest, sha256_of};
use crate::errors::{AuthServiceError, Entity, RepositoryError};
use crate::password::{bcrypt_verify_of, hash_password, verify_hash_password};
use crate::sessions::{
    has_live_match, hash_in_use, is_live_match, is_retired, rotated_at, unexpired, Session,
    SessionStore,
};
use crate::signed_token::{expected_signature, issue_token, SignedToken};
use crate::users::{email_taken, User, UserStore};
use vstd::prelude::*;

verus! {

/// The signing key and the lifetimes of access and refresh tokens, in seconds.
pub struct TokenConfig {
    pub secret: Vec<u8>,
    pub access_token_duration: u64,
    pub refresh_token_duration: u64,
}

/// What a login or a refresh hands out once: the stored session, the raw
/// refresh secret (kept nowhere else) and a signed access token.
pub struct SessionTokens {
    pub session: Session,
    pub refresh_token: Vec<u8>,
    pub access_token: SignedToken,
}

/// The use cases of registration, login, refresh and logout over the user,
/// credential and session stores.
pub struct AuthService {
    pub users_service: UserStore,
    pub credentials_service: CredentialStore,
    pub auth_refresh_tokens_service: SessionStore,
    pub jwt_config: TokenConfig,
    pub password_cost: u32,
}

/// `t` is the access token that `key` signs for `user_id` at `now`.
pub open spec fn access_token_for(key: Seq<u8>, user_id: u64, now: u64, lifetime: u64, t: SignedToken) -> bool {
    &&& t.subject == user_id
    &&& t.issued_at == now
    &&& t.expires_at == now + lifetime
    &&& t.signature@ == expected_signature(key, t)
}

/// Relies on chrono's `Utc::now`: the current time in whole seconds since
/// the Unix epoch. Nothing is promised of its value.
#[verifier::external_body]
fn unix_now() -> (r: u64) {
    chrono::Utc::now().timestamp() as u64
}

fn copy_bytes(b: &[u8]) -> (r: Vec<u8>)
    ensures
        r@ == b@,
{
    let mut out: Vec<u8> = Vec::new();
    let mut i: usize = 0;
    while i < b.len()
        invariant
            i <= b@.len(),
            out@ == b@.subrange(0, i as int),
        decreases b@.len() - i,
    {
        out.push(b[i]);
        i = i + 1;
        assert(out@ =~= b@.subrange(0, i as int));
    }
    assert(out@ =~= b@);
    out
}

impl AuthService {
    /// The stores are well formed and every credential belongs to a user.
    pub open spec fn wf(&self) -> bool {
        &&& self.users_service.wf()
        &&& self.credentials_service.wf()
        &&& self.auth_refresh_tokens_service.wf()
        &&& forall|i: int|
            0 <= i < self.credentials_service.credentials@.len()
                ==> self.credentials_service.credentials@[i].user_id
                < self.users_service.users@.len()
    }

    /// Expiries computed at `now` fit in a `u64`.
    pub open spec fn fits(&self, now: u64) -> bool {
        &&& now + self.jwt_config.access_token_duration <= u64::MAX
        &&& now + self.jwt_config.refresh_token_duration <= u64::MAX
    }

    pub fn new(
        users_service: UserStore,
        credentials_service: CredentialStore,
        auth_refresh_tokens_service: SessionStore,
        jwt_config: TokenConfig,
        password_cost: u32,
    ) -> (r: AuthService)
        requires
            users_service.wf(),
            credentials_service.wf(),
            auth_refresh_tokens_service.wf(),
            forall|i: int|
                0 <= i < credentials_service.credentials@.len()
                    ==> credentials_service.credentials@[i].user_id < users_service.users@.len(),
        ensures
            r.wf(),
            r.users_service == users_service,
            r.credentials_service == credentials_service,
            r.auth_refresh_tokens_service == auth_refresh_tokens_service,
            r.jwt_config == jwt_config,
            r.password_cost == password_cost,
    {
        AuthService {
            users_service,
            credentials_service,
            auth_refresh_tokens_service,
            jwt_config,
            password_cost,
        }
    }
    /// Registration: creates the user and its credential together. The
    /// password is hashed before anything is written, so a hashing failure
    /// leaves no user behind.
    pub fn register_user_with_credentials(&mut self, email: &str, password: &str, now: u64) -> (r:
        Result<User, AuthServiceError>)
        requires
            old(self).wf(),
        ensures
            final(self).wf(),
            final(self).auth_refresh_tokens_service.sessions@
                == old(self).auth_refresh_tokens_service.sessions@,
            final(self).auth_refresh_tokens_service.retired@
                == old(self).auth_refresh_tokens_service.retired@,
            final(self).jwt_config == old(self).jwt_config,
            final(self).password_cost == old(self).password_cost,
            email_taken(old(self).users_service.users@, email@) ==> r == Err::<
                User,
                AuthServiceError,
            >(AuthServiceError::CreateUser(RepositoryError::UniqueViolation(Entity::User))),
            !email_taken(old(self).users_service.users@, email@)
                && old(self).users_service.users@.len() < u64::MAX ==> r is Ok || r == Err::<
                User,
                AuthServiceError,
            >(AuthServiceError::PasswordHashingError),
            r is Err ==> final(self).users_service.users@ == old(self).users_service.users@
                && final(self).credentials_service.credentials@
                == old(self).credentials_service.credentials@,
            r matches Ok(u) ==> {
                &&& u.id == old(self).users_service.users@.len()
                &&& u.email@ == email@
                &&& u.created_at == now
                &&& final(self).users_service.users@ == old(self).users_service.users@.push(u)
                &&& final(self).credentials_service.credentials@.len()
                    == old(self).credentials_service.credentials@.len() + 1
                &&& final(self).credentials_service.credentials@.drop_last()
                    == old(self).credentials_service.credentials@
                &&& final(self).credentials_service.credentials@.last().user_id == u.id
                &&& final(self).credentials_service.credentials@.last().updated_at == now
                &&& bcrypt_verify_of(
                    password@,
                    final(self).credentials_service.credentials@.last().password_hash@,
                ) == Some(true)
            },
    {
        if self.users_service.get_user_by_email(email).is_some() {
            return Err(AuthServiceError::CreateUser(RepositoryError::UniqueViolation(Entity::User)));
        }
        let hash = match hash_password(password, self.password_cost) {
            Ok(h) => h,
            Err(e) => {
                return Err(e);
            },
        };
        let ghost hash_v = hash@;
        let user = match self.users_service.create_user(email, now) {
            Ok(u) => u,
            Err(e) => {
                return Err(AuthServiceError::CreateUser(e));
            },
        };
        let ghost creds0 = self.credentials_service.credentials@;
        assert(!has_credential(creds0, user.id));
        match self.credentials_service.insert_credential(user.id, hash, now) {
            Ok(_) => {
                proof {
                    let creds1 = self.credentials_service.credentials@;
                    assert(creds1.drop_last() =~= creds0);
                    assert forall|i: int| 0 <= i < creds1.len() implies creds1[i].user_id
                        < self.users_service.users@.len() by {
                        if i < creds0.len() {
                            assert(creds1[i] == creds0[i]);
                        }
                    }
                }
                Ok(user)
            },
            Err(e) => Err(AuthServiceError::CreateCredential(e)),
        }
    }

    /// Login: the credential of `user` is checked against `password`; a
    /// missing credential and a wrong password give the same
    /// `InvalidCredentials`. On success a session is stored under the digest
    /// of `refresh_secret`, a freshly drawn secret, and an access token is
    /// signed.
    pub fn login_with_credentials(
        &mut self,
        user: &User,
        password: &str,
        refresh_secret: &[u8],
        now: u64,
    ) -> (r: Result<SessionTokens, AuthServiceError>)
        requires
            old(self).wf(),
            old(self).fits(now),
        ensures
            final(self).wf(),
            final(self).users_service.users@ == old(self).users_service.users@,
            final(self).credentials_service.credentials@
                == old(self).credentials_service.credentials@,
            final(self).jwt_config == old(self).jwt_config,
            final(self).password_cost == old(self).password_cost,
            final(self).auth_refresh_tokens_service.retired@
                == old(self).auth_refresh_tokens_service.retired@,
            !has_credential(old(self).credentials_service.credentials@, user.id) ==> r == Err::<
                SessionTokens,
                AuthServiceError,
            >(AuthServiceError::InvalidCredentials),
            forall|i: int|
                #![trigger old(self).credentials_service.credentials@[i]]
                0 <= i < old(self).credentials_service.credentials@.len()
                    && old(self).credentials_service.credentials@[i].user_id == user.id
                    ==> match bcrypt_verify_of(
                    password@,
                    old(self).credentials_service.credentials@[i].password_hash@,
                ) {
                    None => r == Err::<SessionTokens, AuthServiceError>(
                        AuthServiceError::PasswordHashingError,
                    ),
                    Some(false) => r == Err::<SessionTokens, AuthServiceError>(
                        AuthServiceError::InvalidCredentials,
                    ),
                    Some(true) => {
                        &&& hash_in_use(
                            old(self).auth_refresh_tokens_service.sessions@,
                            old(self).auth_refresh_tokens_service.retired@,
                            sha256_of(refresh_secret@),
                        ) ==> r == Err::<SessionTokens, AuthServiceError>(
                            AuthServiceError::CreateAuthRefreshTokenError,
                        )
                        &&& !hash_in_use(
                            old(self).auth_refresh_tokens_service.sessions@,
                            old(self).auth_refresh_tokens_service.retired@,
                            sha256_of(refresh_secret@),
                        ) && old(self).auth_refresh_tokens_service.sessions@.len() < u64::MAX
                            ==> r is Ok
                    },
                },
            r is Err ==> final(self).auth_refresh_tokens_service.sessions@
                == old(self).auth_refresh_tokens_service.sessions@,
            r matches Ok(t) ==> {
                &&& t.session.id == old(self).auth_refresh_tokens_service.sessions@.len()
                &&& t.session.user_id == user.id
                &&& t.session.secret_hash@ == sha256_of(refresh_secret@)
                &&& t.session.issued_at == now
                &&& t.session.expires_at == now + old(self).jwt_config.refresh_token_duration
                &&& !t.session.revoked
                &&& final(self).auth_refresh_tokens_service.sessions@
                    == old(self).auth_refresh_tokens_service.sessions@.push(t.session)
                &&& t.refresh_token@ == refresh_secret@
                &&& access_token_for(
                    old(self).jwt_config.secret@,
                    user.id,
                    now,
                    old(self).jwt_config.access_token_duration,
                    t.access_token,
                )
            },
    {
        let credential = match self.credentials_service.get_credential_by_user_id(user.id) {
            Some(c) => c,
            None => {
                return Err(AuthServiceError::InvalidCredentials);
            },
        };
        proof {
            let creds = self.credentials_service.credentials@;
            let k = choose|k: int| 0 <= k < creds.len() && credential == creds[k] && credential.user_id == user.id;
            assert forall|i: int| 0 <= i < creds.len() && creds[i].user_id == user.id implies creds[i]
                == credential by {
                if i != k {
                    assert(creds[i].user_id != creds[k].user_id);
                }
            }
        }
        let matched = match verify_hash_password(password, &credential.password_hash) {
            Ok(b) => b,
            Err(e) => {
                return Err(e);
            },
        };
        if !matched {
            return Err(AuthServiceError::InvalidCredentials);
        }
        let h = sha256_digest(refresh_secret);
        let session = match self.auth_refresh_tokens_service.create_session(
            user.id,
            &h,
            now,
            self.jwt_config.refresh_token_duration,
        ) {
            Ok(s) => s,
            Err(_) => {
                return Err(AuthServiceError::CreateAuthRefreshTokenError);
            },
        };
        let access_token = issue_token(
            self.jwt_config.secret.as_slice(),
            user.id,
            now,
            self.jwt_config.access_token_duration,
        );
        Ok(SessionTokens { session, refresh_token: copy_bytes(refresh_secret), access_token })
    }
    /// Refresh at time `now`: the session found under the digest of
    /// `refresh_token` is checked for expiry (a session at its expiry is
    /// expired) and then rotated to the digest of `new_secret`, a freshly
    /// drawn secret. Absent, revoked, rotated and expired tokens all give
    /// `RefreshTokenNotFound`.
    pub fn refresh_session_at(&mut self, refresh_token: &[u8], new_secret: &[u8], now: u64) -> (r:
        Result<SessionTokens, AuthServiceError>)
        requires
            old(self).wf(),
            old(self).fits(now),
        ensures
            final(self).wf(),
            final(self).users_service.users@ == old(self).users_service.users@,
            final(self).credentials_service.credentials@
                == old(self).credentials_service.credentials@,
            final(self).jwt_config == old(self).jwt_config,
            final(self).password_cost == old(self).password_cost,
            !has_live_match(old(self).auth_refresh_tokens_service.sessions@, sha256_of(refresh_token@))
                ==> r == Err::<SessionTokens, AuthServiceError>(
                AuthServiceError::RefreshTokenNotFound,
            ),
            forall|i: int|
                is_live_match(
                    old(self).auth_refresh_tokens_service.sessions@,
                    sha256_of(refresh_token@),
                    i,
                ) ==> {
                    &&& !unexpired(old(self).auth_refresh_tokens_service.sessions@[i], now) ==> r
                        == Err::<SessionTokens, AuthServiceError>(
                        AuthServiceError::RefreshTokenNotFound,
                    )
                    &&& unexpired(old(self).auth_refresh_tokens_service.sessions@[i], now) ==> (
                    hash_in_use(
                        old(self).auth_refresh_tokens_service.sessions@,
                        old(self).auth_refresh_tokens_service.retired@,
                        sha256_of(new_secret@),
                    ) <==> r == Err::<SessionTokens, AuthServiceError>(
                        AuthServiceError::CreateAuthRefreshTokenError,
                    ))
                    &&& unexpired(old(self).auth_refresh_tokens_service.sessions@[i], now)
                        && !hash_in_use(
                        old(self).auth_refresh_tokens_service.sessions@,
                        old(self).auth_refresh_tokens_service.retired@,
                        sha256_of(new_secret@),
                    ) ==> r is Ok
                },
            r is Err ==> final(self).auth_refresh_tokens_service.sessions@
                == old(self).auth_refresh_tokens_service.sessions@
                && final(self).auth_refresh_tokens_service.retired@
                == old(self).auth_refresh_tokens_service.retired@,
            r is Ok ==> !has_live_match(
                final(self).auth_refresh_tokens_service.sessions@,
                sha256_of(refresh_token@),
            ),
            r matches Ok(t) ==> {
                &&& rotated_at(
                    old(self).auth_refresh_tokens_service.sessions@,
                    old(self).auth_refresh_tokens_service.retired@,
                    final(self).auth_refresh_tokens_service.sessions@,
                    final(self).auth_refresh_tokens_service.retired@,
                    sha256_of(refresh_token@),
                    t.session.secret_hash,
                    now,
                    old(self).jwt_config.refresh_token_duration,
                    t.session,
                    t.session.id as int,
                )
                &&& t.session.secret_hash@ == sha256_of(new_secret@)
                &&& t.refresh_token@ == new_secret@
                &&& access_token_for(
                    old(self).jwt_config.secret@,
                    t.session.user_id,
                    now,
                    old(self).jwt_config.access_token_duration,
                    t.access_token,
                )
                &&& is_retired(
                    final(self).auth_refresh_tokens_service.retired@,
                    sha256_of(refresh_token@),
                )
            },
    {
        let h = sha256_digest(refresh_token);
        let stored = match self.auth_refresh_tokens_service.find_session_by_hash(&h) {
            Some(s) => s,
            None => {
                return Err(AuthServiceError::RefreshTokenNotFound);
            },
        };
        proof {
            let rows = self.auth_refresh_tokens_service.sessions@;
            let k = choose|k: int| is_live_match(rows, h@, k) && stored == rows[k];
            assert forall|i: int| is_live_match(rows, h@, i) implies rows[i] == stored by {
                if i != k {
                    assert(rows[i].secret_hash@ != rows[k].secret_hash@);
                }
            }
        }
        if !(now < stored.expires_at) {
            return Err(AuthServiceError::RefreshTokenNotFound);
        }
        let nh = sha256_digest(new_secret);
        let session = match self.auth_refresh_tokens_service.update_session(
            &h,
            &nh,
            now,
            self.jwt_config.refresh_token_duration,
        ) {
            Ok(s) => s,
            Err(_) => {
                return Err(AuthServiceError::CreateAuthRefreshTokenError);
            },
        };
        proof {
            let ret = self.auth_refresh_tokens_service.retired@;
            assert(ret[ret.len() - 1]@ == h@);
        }
        let access_token = issue_token(
            self.jwt_config.secret.as_slice(),
            session.user_id,
            now,
            self.jwt_config.access_token_duration,
        );
        Ok(SessionTokens { session, refresh_token: copy_bytes(new_secret), access_token })
    }

    /// Refresh at the current time; see `refresh_session_at`. A clock reading
    /// so large that an expiry would overflow is refused.
    pub fn create_new_refresh_token(&mut self, refresh_token: &[u8], new_secret: &[u8]) -> (r:
        Result<SessionTokens, AuthServiceError>)
        requires
            old(self).wf(),
        ensures
            final(self).wf(),
            final(self).users_service.users@ == old(self).users_service.users@,
            final(self).credentials_service.credentials@
                == old(self).credentials_service.credentials@,
            !has_live_match(old(self).auth_refresh_tokens_service.sessions@, sha256_of(refresh_token@))
                ==> r is Err,
            r is Err ==> final(self).auth_refresh_tokens_service.sessions@
                == old(self).auth_refresh_tokens_service.sessions@
                && final(self).auth_refresh_tokens_service.retired@
                == old(self).auth_refresh_tokens_service.retired@,
            r is Ok ==> !has_live_match(
                final(self).auth_refresh_tokens_service.sessions@,
                sha256_of(refresh_token@),
            ),
            r matches Ok(t) ==> t.refresh_token@ == new_secret@ && t.session.secret_hash@
                == sha256_of(new_secret@) && is_retired(
                final(self).auth_refresh_tokens_service.retired@,
                sha256_of(refresh_token@),
            ),
    {
        let now = unix_now();
        if now > u64::MAX - self.jwt_config.access_token_duration || now > u64::MAX
            - self.jwt_config.refresh_token_duration {
            return Err(AuthServiceError::CreateAuthRefreshTokenError);
        }
        self.refresh_session_at(refresh_token, new_secret, now)
    }

    /// Logout: revokes the session found under the digest of
    /// `refresh_token`, whose digest is then retired for good.
    pub fn revoke_refresh_token(&mut self, refresh_token: &[u8]) -> (r: Result<(), AuthServiceError>)
        requires
            old(self).wf(),
        ensures
            final(self).wf(),
            final(self).users_service.users@ == old(self).users_service.users@,
            final(self).credentials_service.credentials@
                == old(self).credentials_service.credentials@,
            final(self).jwt_config == old(self).jwt_config,
            final(self).password_cost == old(self).password_cost,
            !has_live_match(old(self).auth_refresh_tokens_service.sessions@, sha256_of(refresh_token@))
                <==> r == Err::<(), AuthServiceError>(AuthServiceError::RefreshTokenNotFound),
            has_live_match(old(self).auth_refresh_tokens_service.sessions@, sha256_of(refresh_token@))
                ==> r is Ok,
            r is Err ==> final(self).auth_refresh_tokens_service.sessions@
                == old(self).auth_refresh_tokens_service.sessions@
                && final(self).auth_refresh_tokens_service.retired@
                == old(self).auth_refresh_tokens_service.retired@,
            r is Ok ==> exists|i: int|
                is_live_match(
                    old(self).auth_refresh_tokens_service.sessions@,
                    sha256_of(refresh_token@),
                    i,
                ) && final(self).auth_refresh_tokens_service.sessions@
                    == old(self).auth_refresh_tokens_service.sessions@.update(
                    i,
                    Session { revoked: true, ..old(self).auth_refresh_tokens_service.sessions@[i] },
                ) && final(self).auth_refresh_tokens_service.retired@
                    == old(self).auth_refresh_tokens_service.retired@.push(
                    old(self).auth_refresh_tokens_service.sessions@[i].secret_hash,
                ),
            r is Ok ==> is_retired(
                final(self).auth_refresh_tokens_service.retired@,
                sha256_of(refresh_token@),
            ),
            r is Ok ==> !has_live_match(
                final(self).auth_refresh_tokens_service.sessions@,
                sha256_of(refresh_token@),
            ),
    {
        let h = sha256_digest(refresh_token);
        let stored = match self.auth_refresh_tokens_service.find_session_by_hash(&h) {
            Some(s) => s,
            None => {
                return Err(AuthServiceError::RefreshTokenNotFound);
            },
        };
        let ghost rows0 = self.auth_refresh_tokens_service.sessions@;
        let ghost k = choose|k: int| is_live_match(rows0, h@, k) && stored == rows0[k];
        match self.auth_refresh_tokens_service.revoke_session_by_hash(stored.id) {
            Ok(()) => {
                proof {
                    let ret = self.auth_refresh_tokens_service.retired@;
                    assert(ret[ret.len() - 1]@ == h@);
                    assert(is_live_match(rows0, h@, k));
                }
                Ok(())
            },
            Err(_) => Err(AuthServiceError::RevokeRefreshTokenError),
        }
    }
}

} // verus!
