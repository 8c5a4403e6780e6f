use crate::digest::{digest_eq, hmac_sha256, hmac_sha256_of, Digest};
use crate::errors::TokenError;
use vstd::prelude::*;

verus! {

/// A self-contained signed envelope: who it speaks for, when it was issued,
/// when it stops being valid, and an HMAC-SHA256 tag over those three.
/// Email-verification tokens and access tokens both take this form.
#[derive(Clone, Copy, Debug)]
pub struct SignedToken {
    pub subject: u64,
    pub issued_at: u64,
    pub expires_at: u64,
    pub signature: Digest,
}

/// The eight big-endian bytes of `x`.
pub open spec fn be_bytes(x: u64) -> Seq<u8> {
    seq![
        ((x / 0x100_0000_0000_0000) % 256) as u8,
        ((x / 0x1_0000_0000_0000) % 256) as u8,
        ((x / 0x100_0000_0000) % 256) as u8,
        ((x / 0x1_0000_0000) % 256) as u8,
        ((x / 0x100_0000) % 256) as u8,
        ((x / 0x1_0000) % 256) as u8,
        ((x / 0x100) % 256) as u8,
        (x % 256) as u8,
    ]
}

/// The signed bytes: subject, issue time and expiry, each big-endian.
pub open spec fn payload_of(subject: u64, issued_at: u64, expires_at: u64) -> Seq<u8> {
    be_bytes(subject) + be_bytes(issued_at) + be_bytes(expires_at)
}

/// The signature that `key` gives the envelope's fields.
pub open spec fn expected_signature(key: Seq<u8>, t: SignedToken) -> Seq<u8> {
    hmac_sha256_of(key, payload_of(t.subject, t.issued_at, t.expires_at))
}

/// The outcome of checking `t` with `key` at time `now`: the signature first,
/// then the expiry, which is exclusive.
pub open spec fn verify_outcome(key: Seq<u8>, t: SignedToken, now: u64) -> Result<u64, TokenError> {
    if t.signature@ != expected_signature(key, t) {
        Err(TokenError::InvalidSignature)
    } else if !(now < t.expires_at) {
        Err(TokenError::Expired)
    } else {
        Ok(t.subject)
    }
}

fn push_be_bytes(out: &mut Vec<u8>, x: u64)
    ensures
        final(out)@ == old(out)@ + be_bytes(x),
{
    out.push((x / 0x100_0000_0000_0000 % 256) as u8);
    out.push((x / 0x1_0000_0000_0000 % 256) as u8);
    out.push((x / 0x100_0000_0000 % 256) as u8);
    out.push((x / 0x1_0000_0000 % 256) as u8);
    out.push((x / 0x100_0000 % 256) as u8);
    out.push((x / 0x1_0000 % 256) as u8);
    out.push((x / 0x100 % 256) as u8);
    out.push((x % 256) as u8);
    assert(final(out)@ =~= old(out)@ + be_bytes(x));
}

/// The bytes that the signature covers.
pub fn payload_bytes(subject: u64, issued_at: u64, expires_at: u64) -> (r: Vec<u8>)
    ensures
        r@ == payload_of(subject, issued_at, expires_at),
{
    let mut out: Vec<u8> = Vec::new();
    push_be_bytes(&mut out, subject);
    push_be_bytes(&mut out, issued_at);
    push_be_bytes(&mut out, expires_at);
    assert(out@ =~= payload_of(subject, issued_at, expires_at));
    out
}

/// Issues a token for `subject`, valid for `ttl` seconds from `now`. Nothing
/// is stored: the token certifies itself.
pub fn issue_token(key: &[u8], subject: u64, now: u64, ttl: u64) -> (r: SignedToken)
    requires
        now + ttl <= u64::MAX,
    ensures
        r.subject == subject,
        r.issued_at == now,
        r.expires_at == now + ttl,
        r.signature@ == expected_signature(key@, r),
{
    let expires_at = now + ttl;
    let payload = payload_bytes(subject, now, expires_at);
    let signature = hmac_sha256(key, payload.as_slice());
    SignedToken { subject, issued_at: now, expires_at, signature }
}

/// Checks a token's signature (without an early exit on the first differing
/// byte) and then its expiry, and gives its subject.
pub fn verify_token(key: &[u8], t: &SignedToken, now: u64) -> (r: Result<u64, TokenError>)
    ensures
        r == verify_outcome(key@, *t, now),
{
    let payload = payload_bytes(t.subject, t.issued_at, t.expires_at);
    let expected = hmac_sha256(key, payload.as_slice());
    if !digest_eq(&expected, &t.signature) {
        return Err(TokenError::InvalidSignature);
    }
    if !(now < t.expires_at) {
        return Err(TokenError::Expired);
    }
    Ok(t.subject)
}

/// Issues and checks email-verification tokens with a server-held key; a
/// token stays valid for `token_duration` seconds after issue.
pub struct EmailVerificationsService {
    pub secret: Vec<u8>,
    pub token_duration: u64,
}

impl EmailVerificationsService {
    pub fn new(secret: Vec<u8>, token_duration: u64) -> (r: EmailVerificationsService)
        ensures
            r.secret@ == secret@,
            r.token_duration == token_duration,
    {
        EmailVerificationsService { secret, token_duration }
    }

    /// A token that certifies `subject` until `now + token_duration`.
    pub fn issue(&self, subject: u64, now: u64) -> (r: SignedToken)
        requires
            now + self.token_duration <= u64::MAX,
        ensures
            r.subject == subject,
            r.issued_at == now,
            r.expires_at == now + self.token_duration,
            r.signature@ == expected_signature(self.secret@, r),
    {
        issue_token(self.secret.as_slice(), subject, now, self.token_duration)
    }

    /// The subject of `t`, if its signature holds and it has not expired at
    /// `now`. No state is kept, so a token may be verified many times.
    pub fn verify(&self, t: &SignedToken, now: u64) -> (r: Result<u64, TokenError>)
        ensures
            r == verify_outcome(self.secret@, *t, now),
    {
        verify_token(self.secret.as_slice(), t, now)
    }
}

/// A token as issued verifies, giving its subject, at every time before its
/// expiry, and fails with `Expired` from the expiry on. Verification keeps no
/// state, so it may be repeated.
pub proof fn lemma_issued_token_verifies_until_expiry(key: Seq<u8>, t: SignedToken, later: u64)
    requires
        t.signature@ == expected_signature(key, t),
    ensures
        later < t.expires_at ==> verify_outcome(key, t, later) == Ok::<u64, TokenError>(t.subject),
        later >= t.expires_at ==> verify_outcome(key, t, later) == Err::<u64, TokenError>(
            TokenError::Expired,
        ),
{
}

/// A token whose signature is not what the key gives its fields (a field or
/// a byte of the tag altered after issue) is refused as `InvalidSignature`,
/// whatever the time.
pub proof fn lemma_tampered_token_rejected(key: Seq<u8>, t: SignedToken, now: u64)
    requires
        t.signature@ != expected_signature(key, t),
    ensures
        verify_outcome(key, t, now) == Err::<u64, TokenError>(TokenError::InvalidSignature),
{
}

} // verus!
