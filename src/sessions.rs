use crate::digest::{digest_eq, Digest};
use crate::errors::{Entity, RepositoryError};
use vstd::prelude::*;

verus! {

/// A refresh session: it stores the digest of its secret, never the secret.
#[derive(Clone, Copy, Debug)]
pub struct Session {
    pub id: u64,
    pub user_id: u64,
    pub secret_hash: Digest,
    pub issued_at: u64,
    pub expires_at: u64,
    pub revoked: bool,
}

/// The session records, indexed by id, and every secret digest that has been
/// rotated away or revoked.
pub struct SessionStore {
    pub sessions: Vec<Session>,
    pub retired: Vec<Digest>,
}

/// Row `i` is a non-revoked session whose secret digest is `h`.
pub open spec fn is_live_match(rows: Seq<Session>, h: Seq<u8>, i: int) -> bool {
    0 <= i < rows.len() && !rows[i].revoked && rows[i].secret_hash@ == h
}

/// Some non-revoked session carries the digest `h`.
pub open spec fn has_live_match(rows: Seq<Session>, h: Seq<u8>) -> bool {
    exists|i: int| is_live_match(rows, h, i)
}

/// The digest `h` is among the retired ones.
pub open spec fn is_retired(retired: Seq<Digest>, h: Seq<u8>) -> bool {
    exists|k: int| 0 <= k < retired.len() && retired[k]@ == h
}

/// The digest `h` is held by a session or has been retired: it cannot be
/// handed out again.
pub open spec fn hash_in_use(rows: Seq<Session>, retired: Seq<Digest>, h: Seq<u8>) -> bool {
    (exists|i: int| 0 <= i < rows.len() && rows[i].secret_hash@ == h) || is_retired(retired, h)
}

/// A session is still valid strictly before its expiry.
pub open spec fn unexpired(s: Session, now: u64) -> bool {
    now < s.expires_at
}

/// Rotation as a relation between two states of the store: in `rows1`,
/// `retired1` the live, unexpired session `i` of `rows0` found under
/// `old_hash` has become `s`, carrying `new_hash` and a fresh expiry, and
/// `old_hash` has been appended to `retired0`.
pub open spec fn rotated_at(
    rows0: Seq<Session>,
    retired0: Seq<Digest>,
    rows1: Seq<Session>,
    retired1: Seq<Digest>,
    old_hash: Seq<u8>,
    new_hash: Digest,
    now: u64,
    lifetime: u64,
    s: Session,
    i: int,
) -> bool {
    &&& is_live_match(rows0, old_hash, i)
    &&& unexpired(rows0[i], now)
    &&& s == (Session {
        secret_hash: new_hash,
        issued_at: now,
        expires_at: (now + lifetime) as u64,
        ..rows0[i]
    })
    &&& rows1 == rows0.update(i, s)
    &&& retired1.len() == retired0.len() + 1
    &&& retired1.drop_last() == retired0
    &&& retired1.last()@ == old_hash
}

impl SessionStore {
    /// Ids are positions; no two sessions share a digest; no live session
    /// holds a retired digest.
    pub open spec fn wf(&self) -> bool {
        &&& forall|i: int| 0 <= i < self.sessions@.len() ==> self.sessions@[i].id == i
        &&& self.sessions@.len() <= u64::MAX
        &&& forall|i: int, j: int|
            0 <= i < self.sessions@.len() && 0 <= j < self.sessions@.len() && i != j
                ==> self.sessions@[i].secret_hash@ != self.sessions@[j].secret_hash@
        &&& forall|i: int, k: int|
            0 <= i < self.sessions@.len() && 0 <= k < self.retired@.len()
                && !self.sessions@[i].revoked ==> self.sessions@[i].secret_hash@
                != self.retired@[k]@
    }

    pub fn new() -> (r: SessionStore)
        ensures
            r.wf(),
            r.sessions@.len() == 0,
            r.retired@.len() == 0,
    {
        SessionStore { sessions: Vec::new(), retired: Vec::new() }
    }

    fn find_live_index(&self, h: &Digest) -> (r: Option<usize>)
        requires
            self.wf(),
        ensures
            r matches Some(i) ==> is_live_match(self.sessions@, h@, i as int),
            r is None ==> !has_live_match(self.sessions@, h@),
    {
        let mut i: usize = 0;
        while i < self.sessions.len()
            invariant
                i <= self.sessions@.len(),
                forall|k: int| 0 <= k < i ==> !is_live_match(self.sessions@, h@, k),
            decreases self.sessions@.len() - i,
        {
            let row = self.sessions[i];
            if !row.revoked && digest_eq(&row.secret_hash, h) {
                return Some(i);
            }
            i = i + 1;
        }
        None
    }

    fn hash_taken(&self, h: &Digest) -> (r: bool)
        ensures
            r == hash_in_use(self.sessions@, self.retired@, h@),
    {
        let mut i: usize = 0;
        while i < self.sessions.len()
            invariant
                i <= self.sessions@.len(),
                forall|k: int| 0 <= k < i ==> self.sessions@[k].secret_hash@ != h@,
            decreases self.sessions@.len() - i,
        {
            if digest_eq(&self.sessions[i].secret_hash, h) {
                return true;
            }
            i = i + 1;
        }
        let mut k: usize = 0;
        while k < self.retired.len()
            invariant
                k <= self.retired@.len(),
                forall|j: int| 0 <= j < self.sessions@.len() ==> self.sessions@[j].secret_hash@ != h@,
                forall|j: int| 0 <= j < k ==> self.retired@[j]@ != h@,
            decreases self.retired@.len() - k,
        {
            if digest_eq(&self.retired[k], h) {
                return true;
            }
            k = k + 1;
        }
        false
    }

    /// Looks a session up by the digest of its secret. A revoked or rotated
    /// secret finds nothing, exactly as one that never existed.
    pub fn find_session_by_hash(&self, h: &Digest) -> (r: Option<Session>)
        requires
            self.wf(),
        ensures
            r matches Some(s) ==> exists|i: int|
                is_live_match(self.sessions@, h@, i) && s == self.sessions@[i],
            r is None <==> !has_live_match(self.sessions@, h@),
    {
        match self.find_live_index(h) {
            Some(i) => Some(self.sessions[i]),
            None => None,
        }
    }

    /// Stores a new session for `user_id` under the digest of a fresh secret,
    /// valid for `lifetime` seconds from `now`. A digest that is or was ever in
    /// use is refused.
    pub fn create_session(&mut self, user_id: u64, h: &Digest, now: u64, lifetime: u64) -> (r:
        Result<Session, RepositoryError>)
        requires
            old(self).wf(),
            now + lifetime <= u64::MAX,
        ensures
            final(self).wf(),
            old(self).retired@ == final(self).retired@,
            hash_in_use(old(self).sessions@, old(self).retired@, h@) ==> r == Err::<
                Session,
                RepositoryError,
            >(RepositoryError::UniqueViolation(Entity::Session)),
            !hash_in_use(old(self).sessions@, old(self).retired@, h@) && old(self).sessions@.len()
                < u64::MAX ==> r is Ok,
            r is Err ==> final(self).sessions@ == old(self).sessions@,
            r matches Ok(s) ==> {
                &&& s.id == old(self).sessions@.len()
                &&& s.user_id == user_id
                &&& s.secret_hash@ == h@
                &&& s.issued_at == now
                &&& s.expires_at == now + lifetime
                &&& !s.revoked
                &&& final(self).sessions@ == old(self).sessions@.push(s)
            },
    {
        if self.hash_taken(h) {
            return Err(RepositoryError::UniqueViolation(Entity::Session));
        }
        let n = self.sessions.len();
        if n as u64 == u64::MAX {
            return Err(RepositoryError::Transaction);
        }
        let s = Session {
            id: n as u64,
            user_id,
            secret_hash: *h,
            issued_at: now,
            expires_at: now + lifetime,
            revoked: false,
        };
        self.sessions.push(s);
        proof {
            assert forall|i: int, j: int|
                0 <= i < self.sessions@.len() && 0 <= j < self.sessions@.len() && i != j
                    implies self.sessions@[i].secret_hash@ != self.sessions@[j].secret_hash@ by {
                if i < n && j < n {
                    assert(old(self).sessions@[i] == self.sessions@[i]);
                    assert(old(self).sessions@[j] == self.sessions@[j]);
                }
            }
        }
        Ok(s)
    }

    /// Rotation: replaces the secret digest of the live, unexpired session
    /// found under `old_hash` with `new_hash` and extends its expiry. The old
    /// digest is retired in the same step, so it can never validate again.
    pub fn update_session(
        &mut self,
        old_hash: &Digest,
        new_hash: &Digest,
        now: u64,
        lifetime: u64,
    ) -> (r: Result<Session, RepositoryError>)
        requires
            old(self).wf(),
            now + lifetime <= u64::MAX,
        ensures
            final(self).wf(),
            r is Err ==> final(self).sessions@ == old(self).sessions@ && final(self).retired@
                == old(self).retired@,
            (forall|i: int|
                is_live_match(old(self).sessions@, old_hash@, i) ==> !unexpired(
                    old(self).sessions@[i],
                    now,
                )) ==> r == Err::<Session, RepositoryError>(
                RepositoryError::NotFound(Entity::Session),
            ),
            (exists|i: int|
                is_live_match(old(self).sessions@, old_hash@, i) && unexpired(
                    old(self).sessions@[i],
                    now,
                )) ==> (hash_in_use(old(self).sessions@, old(self).retired@, new_hash@) <==> r
                is Err),
            r is Ok ==> !has_live_match(final(self).sessions@, old_hash@),
            r is Ok ==> rotated_at(
                old(self).sessions@,
                old(self).retired@,
                final(self).sessions@,
                final(self).retired@,
                old_hash@,
                *new_hash,
                now,
                lifetime,
                r->Ok_0,
                r->Ok_0.id as int,
            ),
    {
        let i = match self.find_live_index(old_hash) {
            Some(i) => i,
            None => {
                return Err(RepositoryError::NotFound(Entity::Session));
            },
        };
        let row = self.sessions[i];
        if !(now < row.expires_at) {
            proof {
                assert forall|j: int| is_live_match(self.sessions@, old_hash@, j) implies j == i by {
                    if j != i {
                        assert(self.sessions@[j].secret_hash@ != self.sessions@[i as int].secret_hash@);
                    }
                }
            }
            return Err(RepositoryError::NotFound(Entity::Session));
        }
        if self.hash_taken(new_hash) {
            return Err(RepositoryError::UniqueViolation(Entity::Session));
        }
        let s = Session {
            secret_hash: *new_hash,
            issued_at: now,
            expires_at: now + lifetime,
            ..row
        };
        let ghost rows0 = self.sessions@;
        let ghost ret0 = self.retired@;
        self.sessions.set(i, s);
        self.retired.push(*old_hash);
        proof {
            assert forall|a: int, b: int|
                0 <= a < self.sessions@.len() && 0 <= b < self.sessions@.len() && a != b
                    implies self.sessions@[a].secret_hash@ != self.sessions@[b].secret_hash@ by {
                if a != i && b != i {
                    assert(rows0[a] == self.sessions@[a]);
                    assert(rows0[b] == self.sessions@[b]);
                } else if a == i {
                    assert(rows0[b] == self.sessions@[b]);
                } else {
                    assert(rows0[a] == self.sessions@[a]);
                }
            }
            assert forall|a: int, k: int|
                0 <= a < self.sessions@.len() && 0 <= k < self.retired@.len()
                    && !self.sessions@[a].revoked implies self.sessions@[a].secret_hash@
                != self.retired@[k]@ by {
                if k < ret0.len() {
                    assert(self.retired@[k] == ret0[k]);
                    if a != i {
                        assert(rows0[a] == self.sessions@[a]);
                    }
                } else {
                    assert(self.retired@[k] == *old_hash);
                    if a != i {
                        assert(rows0[a] == self.sessions@[a]);
                        assert(rows0[a].secret_hash@ != rows0[i as int].secret_hash@);
                    }
                }
            }
            assert(self.retired@.drop_last() =~= ret0);
            lemma_rotation_invalidates_old_secret(
                rows0,
                ret0,
                *self,
                old_hash@,
                *new_hash,
                now,
                lifetime,
                s,
                i as int,
            );
        }
        Ok(s)
    }

    /// Marks session `id` revoked and retires its digest. Revoking a revoked
    /// session again is no error and changes nothing.
    pub fn revoke_session_by_hash(&mut self, id: u64) -> (r: Result<(), RepositoryError>)
        requires
            old(self).wf(),
        ensures
            final(self).wf(),
            id >= old(self).sessions@.len() <==> r == Err::<(), RepositoryError>(
                RepositoryError::NotFound(Entity::Session),
            ),
            id >= old(self).sessions@.len() || old(self).sessions@[id as int].revoked
                ==> final(self).sessions@ == old(self).sessions@ && final(self).retired@
                == old(self).retired@,
            id < old(self).sessions@.len() ==> r is Ok && final(self).sessions@[id as int].revoked,
            id < old(self).sessions@.len() ==> !has_live_match(
                final(self).sessions@,
                old(self).sessions@[id as int].secret_hash@,
            ),
            id < old(self).sessions@.len() && !old(self).sessions@[id as int].revoked ==> {
                &&& final(self).sessions@ == old(self).sessions@.update(
                    id as int,
                    Session { revoked: true, ..old(self).sessions@[id as int] },
                )
                &&& final(self).retired@ == old(self).retired@.push(
                    old(self).sessions@[id as int].secret_hash,
                )
            },
    {
        if id as usize >= self.sessions.len() || id >= self.sessions.len() as u64 {
            return Err(RepositoryError::NotFound(Entity::Session));
        }
        let i = id as usize;
        let row = self.sessions[i];
        if row.revoked {
            return Ok(());
        }
        let ghost rows0 = self.sessions@;
        let ghost ret0 = self.retired@;
        self.sessions.set(i, Session { revoked: true, ..row });
        self.retired.push(row.secret_hash);
        proof {
            assert forall|a: int, b: int|
                0 <= a < self.sessions@.len() && 0 <= b < self.sessions@.len() && a != b
                    implies self.sessions@[a].secret_hash@ != self.sessions@[b].secret_hash@ by {
                assert(rows0[a].secret_hash == self.sessions@[a].secret_hash);
                assert(rows0[b].secret_hash == self.sessions@[b].secret_hash);
            }
            assert forall|a: int, k: int|
                0 <= a < self.sessions@.len() && 0 <= k < self.retired@.len()
                    && !self.sessions@[a].revoked implies self.sessions@[a].secret_hash@
                != self.retired@[k]@ by {
                assert(a != i);
                assert(rows0[a] == self.sessions@[a]);
                if k < ret0.len() {
                    assert(self.retired@[k] == ret0[k]);
                } else {
                    assert(rows0[a].secret_hash@ != rows0[i as int].secret_hash@);
                }
            }
        }
        Ok(())
    }
}

/// Replay prevention: a digest that was rotated away or revoked matches no
/// live session of a well-formed store, so a lookup by it finds nothing.
pub proof fn lemma_retired_secret_never_found(store: SessionStore, h: Seq<u8>)
    requires
        store.wf(),
        is_retired(store.retired@, h),
    ensures
        !has_live_match(store.sessions@, h),
{
    assert forall|i: int| !is_live_match(store.sessions@, h, i) by {
        if is_live_match(store.sessions@, h, i) {
            let k = choose|k: int| 0 <= k < store.retired@.len() && store.retired@[k]@ == h;
            assert(store.sessions@[i].secret_hash@ != store.retired@[k]@);
        }
    }
}

/// Rotation invalidates the presented secret: right after a rotation away
/// from `old_hash`, no live session carries it, so a second rotation or a
/// lookup presenting the same secret finds nothing.
pub proof fn lemma_rotation_invalidates_old_secret(
    rows0: Seq<Session>,
    retired0: Seq<Digest>,
    after: SessionStore,
    old_hash: Seq<u8>,
    new_hash: Digest,
    now: u64,
    lifetime: u64,
    s: Session,
    i: int,
)
    requires
        after.wf(),
        rotated_at(rows0, retired0, after.sessions@, after.retired@, old_hash, new_hash, now, lifetime, s, i),
    ensures
        !has_live_match(after.sessions@, old_hash),
{
    let k = after.retired@.len() - 1;
    assert(after.retired@[k]@ == old_hash);
    lemma_retired_secret_never_found(after, old_hash);
}

} // verus!
