use hmac::{Hmac, KeyInit, Mac};
use sha2::{Digest as Sha2Digest, Sha256};
use vstd::prelude::*;

verus! {

/// A SHA-256 output: what the stores keep in place of a secret.
pub type Digest = [u8; 32];

/// What SHA-256 gives for a message.
pub uninterp spec fn sha256_of(data: Seq<u8>) -> Seq<u8>;

/// What HMAC-SHA256 gives for a key and a message.
pub uninterp spec fn hmac_sha256_of(key: Seq<u8>, data: Seq<u8>) -> Seq<u8>;

/// Relies on sha2's `Sha256::digest`: a 32-byte output that depends on the
/// message alone.
#[verifier::external_body]
pub(crate) fn sha256_digest(data: &[u8]) -> (r: Digest)
    ensures
        r@ == sha256_of(data@),
{
    let d = Sha256::digest(data);
    let mut out = [0u8; 32];
    out.copy_from_slice(d.as_slice());
    out
}

/// Relies on hmac's `Hmac<Sha256>` (`new_from_slice`, `update`, `finalize`):
/// a 32-byte tag that depends on the key and the message alone; a key of any
/// length is accepted.
#[verifier::external_body]
pub(crate) fn hmac_sha256(key: &[u8], data: &[u8]) -> (r: Digest)
    ensures
        r@ == hmac_sha256_of(key@, data@),
{
    let mut mac = <Hmac<Sha256> as KeyInit>::new_from_slice(key).expect("any key length");
    mac.update(data);
    let tag = mac.finalize().into_bytes();
    let mut out = [0u8; 32];
    out.copy_from_slice(tag.as_slice());
    out
}

/// Compares two digests without stopping at the first difference, so that
/// the time taken does not depend on where they differ.
pub fn digest_eq(a: &Digest, b: &Digest) -> (r: bool)
    ensures
        r == (a@ == b@),
{
    let mut same = true;
    let mut i: usize = 0;
    while i < 32
        invariant
            i <= 32,
            a@.len() == 32,
            b@.len() == 32,
            same == (forall|k: int| 0 <= k < i ==> a@[k] == b@[k]),
        decreases 32 - i,
    {
        let differs = a[i] != b[i];
        same = same && !differs;
        i = i + 1;
    }
    if !same {
        assert(a@ != b@) by {
            let k = choose|k: int| 0 <= k < 32 && a@[k] != b@[k];
            assert(a@[k] != b@[k]);
        }
    } else {
        assert(a@ =~= b@);
    }
    same
}

} // verus!
