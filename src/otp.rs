use crate::digest::{digest_eq, sha256_digest, sha256_of, Digest};
use crate::errors::RepositoryError;
use vstd::prelude::*;

verus! {

/// What a one-time code is for.
#[derive(Clone, Copy, Debug, PartialEq, Eq, Structural)]
pub enum OtpPurpose {
    EmailVerification,
    PasswordReset,
    Login,
}

/// A stored one-time code: only the digest of the code is kept.
#[derive(Clone, Copy, Debug)]
pub struct OtpCode {
    pub id: u64,
    pub owner: u64,
    pub purpose: OtpPurpose,
    pub code_hash: Digest,
    pub expires_at: u64,
    pub consumed: bool,
}

/// The issued codes, indexed by id, and how long a new code stays valid, in
/// seconds.
pub struct OtpStore {
    pub codes: Vec<OtpCode>,
    pub ttl: u64,
}

/// Row `c` belongs to `owner` and `purpose` and carries the digest `h`.
pub open spec fn same_code(c: OtpCode, owner: u64, purpose: OtpPurpose, h: Seq<u8>) -> bool {
    c.owner == owner && c.purpose == purpose && c.code_hash@ == h
}

/// Row `c` would be accepted at time `now`: same code, not consumed, and
/// strictly before its expiry.
pub open spec fn redeemable(c: OtpCode, owner: u64, purpose: OtpPurpose, h: Seq<u8>, now: u64) -> bool {
    same_code(c, owner, purpose, h) && !c.consumed && now < c.expires_at
}

pub open spec fn any_redeemable(
    rows: Seq<OtpCode>,
    owner: u64,
    purpose: OtpPurpose,
    h: Seq<u8>,
    now: u64,
) -> bool {
    exists|i: int| 0 <= i < rows.len() && redeemable(rows[i], owner, purpose, h, now)
}

impl OtpStore {
    pub open spec fn wf(&self) -> bool {
        &&& forall|i: int| 0 <= i < self.codes@.len() ==> self.codes@[i].id == i
        &&& self.codes@.len() <= u64::MAX
    }

    pub fn new(ttl: u64) -> (r: OtpStore)
        ensures
            r.wf(),
            r.codes@.len() == 0,
            r.ttl == ttl,
    {
        OtpStore { codes: Vec::new(), ttl }
    }

    /// Stores the digest of a freshly drawn code, valid for the store's
    /// `ttl` from `now`. Earlier codes for the same owner and purpose stay
    /// valid.
    pub fn issue(&mut self, owner: u64, purpose: OtpPurpose, code: &[u8], now: u64) -> (r:
        Result<OtpCode, RepositoryError>)
        requires
            old(self).wf(),
            now + old(self).ttl <= u64::MAX,
        ensures
            final(self).wf(),
            final(self).ttl == old(self).ttl,
            old(self).codes@.len() < u64::MAX <==> r is Ok,
            r is Err ==> r == Err::<OtpCode, RepositoryError>(RepositoryError::Transaction)
                && final(self).codes@ == old(self).codes@,
            r matches Ok(c) ==> {
                &&& c.id == old(self).codes@.len()
                &&& c.owner == owner
                &&& c.purpose == purpose
                &&& c.code_hash@ == sha256_of(code@)
                &&& c.expires_at == now + old(self).ttl
                &&& !c.consumed
                &&& final(self).codes@ == old(self).codes@.push(c)
            },
    {
        let n = self.codes.len();
        if n as u64 == u64::MAX {
            return Err(RepositoryError::Transaction);
        }
        let c = OtpCode {
            id: n as u64,
            owner,
            purpose,
            code_hash: sha256_digest(code),
            expires_at: now + self.ttl,
            consumed: false,
        };
        self.codes.push(c);
        Ok(c)
    }

    /// Checks a presented code and marks the first row that accepts it
    /// consumed, in one step. Returns false alike for a wrong, expired or
    /// already consumed code.
    pub fn verify_and_consume(&mut self, owner: u64, purpose: OtpPurpose, code: &[u8], now: u64) -> (r:
        bool)
        requires
            old(self).wf(),
        ensures
            final(self).wf(),
            final(self).ttl == old(self).ttl,
            r == any_redeemable(old(self).codes@, owner, purpose, sha256_of(code@), now),
            !r ==> final(self).codes@ == old(self).codes@,
            r ==> exists|i: int|
                0 <= i < old(self).codes@.len() && (forall|j: int|
                    0 <= j < i ==> !redeemable(
                        #[trigger] old(self).codes@[j],
                        owner,
                        purpose,
                        sha256_of(code@),
                        now,
                    )) && redeemable(
                    old(self).codes@[i],
                    owner,
                    purpose,
                    sha256_of(code@),
                    now,
                ) && final(self).codes@ == old(self).codes@.update(
                    i,
                    OtpCode { consumed: true, ..old(self).codes@[i] },
                ),
    {
        let h = sha256_digest(code);
        let mut i: usize = 0;
        while i < self.codes.len()
            invariant
                i <= self.codes@.len(),
                self.codes@ == old(self).codes@,
                self.ttl == old(self).ttl,
                self.wf(),
                h@ == sha256_of(code@),
                forall|k: int| 0 <= k < i ==> !redeemable(self.codes@[k], owner, purpose, h@, now),
            decreases self.codes@.len() - i,
        {
            let c = self.codes[i];
            if c.owner == owner && c.purpose == purpose && !c.consumed && now < c.expires_at
                && digest_eq(&c.code_hash, &h) {
                let ghost rows0 = self.codes@;
                self.codes.set(i, OtpCode { consumed: true, ..c });
                assert(redeemable(rows0[i as int], owner, purpose, h@, now));
                assert(forall|k: int| 0 <= k < self.codes@.len() && k != i ==> self.codes@[k] == rows0[k]);
                return true;
            }
            i = i + 1;
        }
        false
    }
}

/// Single use: where only one stored row carries a given code for an owner
/// and purpose, once that row has been consumed no later presentation of the
/// code is accepted, at any time.
pub proof fn lemma_code_accepted_once(
    rows: Seq<OtpCode>,
    i: int,
    owner: u64,
    purpose: OtpPurpose,
    h: Seq<u8>,
    later: u64,
)
    requires
        0 <= i < rows.len(),
        same_code(rows[i], owner, purpose, h),
        forall|j: int| 0 <= j < rows.len() && same_code(rows[j], owner, purpose, h) ==> j == i,
    ensures
        !any_redeemable(
            rows.update(i, OtpCode { consumed: true, ..rows[i] }),
            owner,
            purpose,
            h,
            later,
        ),
{
    let after = rows.update(i, OtpCode { consumed: true, ..rows[i] });
    assert forall|j: int| 0 <= j < after.len() implies !redeemable(after[j], owner, purpose, h, later) by {
        if j != i {
            assert(after[j] == rows[j]);
        }
    }
}

} // verus!
