use crate::errors::{AuthServiceError, Entity, RepositoryError};
use crate::password::{bcrypt_verify_of, hash_password};
use vstd::prelude::*;

verus! {

/// A user's password credential: the salted hash, never the password.
#[derive(Debug)]
pub struct Credential {
    pub user_id: u64,
    pub password_hash: String,
    pub updated_at: u64,
}

impl Credential {
    /// A field-by-field copy.
    pub fn copy(&self) -> (r: Credential)
        ensures
            r == *self,
    {
        Credential {
            user_id: self.user_id,
            password_hash: self.password_hash.clone(),
            updated_at: self.updated_at,
        }
    }
}

/// The credentials, at most one per user.
pub struct CredentialStore {
    pub credentials: Vec<Credential>,
}

pub open spec fn has_credential(creds: Seq<Credential>, user_id: u64) -> bool {
    exists|i: int| 0 <= i < creds.len() && creds[i].user_id == user_id
}

impl CredentialStore {
    pub open spec fn wf(&self) -> bool {
        forall|i: int, j: int|
            0 <= i < self.credentials@.len() && 0 <= j < self.credentials@.len() && i != j
                ==> self.credentials@[i].user_id != self.credentials@[j].user_id
    }

    pub fn new() -> (r: CredentialStore)
        ensures
            r.wf(),
            r.credentials@.len() == 0,
    {
        CredentialStore { credentials: Vec::new() }
    }

    /// The credential of `user_id`, if there is one; absence is no error.
    pub fn get_credential_by_user_id(&self, user_id: u64) -> (r: Option<Credential>)
        requires
            self.wf(),
        ensures
            r is None <==> !has_credential(self.credentials@, user_id),
            r matches Some(c) ==> exists|i: int|
                0 <= i < self.credentials@.len() && c == self.credentials@[i] && c.user_id
                    == user_id,
    {
        let mut i: usize = 0;
        while i < self.credentials.len()
            invariant
                i <= self.credentials@.len(),
                forall|k: int| 0 <= k < i ==> self.credentials@[k].user_id != user_id,
            decreases self.credentials@.len() - i,
        {
            if self.credentials[i].user_id == user_id {
                return Some(self.credentials[i].copy());
            }
            i = i + 1;
        }
        None
    }

    /// Stores an already derived hash for `user_id`; a second credential for
    /// the same user is refused.
    pub fn insert_credential(&mut self, user_id: u64, password_hash: String, now: u64) -> (r:
        Result<Credential, RepositoryError>)
        requires
            old(self).wf(),
        ensures
            final(self).wf(),
            has_credential(old(self).credentials@, user_id) <==> r == Err::<
                Credential,
                RepositoryError,
            >(RepositoryError::UniqueViolation(Entity::Credential)),
            !has_credential(old(self).credentials@, user_id) ==> r is Ok,
            r is Err ==> final(self).credentials@ == old(self).credentials@,
            r is Ok ==> r->Ok_0 == (Credential { user_id, password_hash, updated_at: now })
                && final(self).credentials@ == old(self).credentials@.push(r->Ok_0),
    {
        if self.get_credential_by_user_id(user_id).is_some() {
            return Err(RepositoryError::UniqueViolation(Entity::Credential));
        }
        let c = Credential { user_id, password_hash, updated_at: now };
        let r = c.copy();
        self.credentials.push(c);
        Ok(r)
    }

    /// Derives a salted hash of `password` at work factor `cost` and stores
    /// it as the credential of `user_id`.
    pub fn create_credential(&mut self, user_id: u64, password: &str, cost: u32, now: u64) -> (r:
        Result<Credential, AuthServiceError>)
        requires
            old(self).wf(),
        ensures
            final(self).wf(),
            has_credential(old(self).credentials@, user_id) ==> r == Err::<
                Credential,
                AuthServiceError,
            >(AuthServiceError::CreateCredential(RepositoryError::UniqueViolation(Entity::Credential))),
            !has_credential(old(self).credentials@, user_id) ==> r is Ok || r == Err::<
                Credential,
                AuthServiceError,
            >(AuthServiceError::PasswordHashingError),
            r is Err ==> final(self).credentials@ == old(self).credentials@,
            r matches Ok(c) ==> {
                &&& c.user_id == user_id
                &&& c.updated_at == now
                &&& bcrypt_verify_of(password@, c.password_hash@) == Some(true)
                &&& final(self).credentials@ == old(self).credentials@.push(c)
            },
    {
        if self.get_credential_by_user_id(user_id).is_some() {
            return Err(
                AuthServiceError::CreateCredential(RepositoryError::UniqueViolation(Entity::Credential)),
            );
        }
        let hash = match hash_password(password, cost) {
            Ok(h) => h,
            Err(e) => {
                return Err(e);
            },
        };
        match self.insert_credential(user_id, hash, now) {
            Ok(c) => Ok(c),
            Err(e) => Err(AuthServiceError::CreateCredential(e)),
        }
    }
}

} // verus!
