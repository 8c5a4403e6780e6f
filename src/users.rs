use crate::errors::{Entity, RepositoryError};
use vstd::prelude::*;

verus! {

/// An identity record.
#[derive(Debug)]
pub struct User {
    pub id: u64,
    pub email: String,
    pub created_at: u64,
}

impl User {
    /// A field-by-field copy.
    pub fn copy(&self) -> (r: User)
        ensures
            r == *self,
    {
        User { id: self.id, email: self.email.clone(), created_at: self.created_at }
    }
}

/// The identity records, indexed by id, with unique emails.
pub struct UserStore {
    pub users: Vec<User>,
}

pub open spec fn email_taken(users: Seq<User>, email: Seq<char>) -> bool {
    exists|i: int| 0 <= i < users.len() && users[i].email@ == email
}

impl UserStore {
    pub open spec fn wf(&self) -> bool {
        &&& forall|i: int| 0 <= i < self.users@.len() ==> self.users@[i].id == i
        &&& self.users@.len() <= u64::MAX
        &&& forall|i: int, j: int|
            0 <= i < self.users@.len() && 0 <= j < self.users@.len() && i != j
                ==> self.users@[i].email@ != self.users@[j].email@
    }

    pub fn new() -> (r: UserStore)
        ensures
            r.wf(),
            r.users@.len() == 0,
    {
        UserStore { users: Vec::new() }
    }

    /// Looks a user up by email.
    pub fn get_user_by_email(&self, email: &str) -> (r: Option<User>)
        requires
            self.wf(),
        ensures
            r is None <==> !email_taken(self.users@, email@),
            r matches Some(u) ==> exists|i: int|
                0 <= i < self.users@.len() && u == self.users@[i] && u.email@ == email@,
    {
        let wanted = String::from_str(email);
        let mut i: usize = 0;
        while i < self.users.len()
            invariant
                i <= self.users@.len(),
                wanted@ == email@,
                forall|k: int| 0 <= k < i ==> self.users@[k].email@ != email@,
            decreases self.users@.len() - i,
        {
            if self.users[i].email == wanted {
                return Some(self.users[i].copy());
            }
            i = i + 1;
        }
        None
    }

    /// Creates a user; an email that is already registered is refused.
    pub fn create_user(&mut self, email: &str, now: u64) -> (r: Result<User, RepositoryError>)
        requires
            old(self).wf(),
        ensures
            final(self).wf(),
            email_taken(old(self).users@, email@) ==> r == Err::<User, RepositoryError>(
                RepositoryError::UniqueViolation(Entity::User),
            ),
            !email_taken(old(self).users@, email@) && old(self).users@.len() < u64::MAX ==> r is Ok,
            r is Err ==> final(self).users@ == old(self).users@,
            r matches Ok(u) ==> {
                &&& u.id == old(self).users@.len()
                &&& u.email@ == email@
                &&& u.created_at == now
                &&& final(self).users@ == old(self).users@.push(u)
            },
    {
        if self.get_user_by_email(email).is_some() {
            return Err(RepositoryError::UniqueViolation(Entity::User));
        }
        let n = self.users.len();
        if n as u64 == u64::MAX {
            return Err(RepositoryError::Transaction);
        }
        let u = User { id: n as u64, email: String::from_str(email), created_at: now };
        let r = u.copy();
        self.users.push(u);
        Ok(r)
    }
}

} // verus!
