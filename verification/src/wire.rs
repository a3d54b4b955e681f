//! The wire format: a nonce, followed at once by the ciphertext that was
//! sealed under it.
//!
//! ```text
//! byte[0..24)   nonce
//! byte[24..end) ciphertext, tag included
//! ```

use crate::error::Error;
use crate::keys::{Nonce, NONCE_BYTES};
use vstd::prelude::*;
use vstd::slice::slice_subrange;

verus! {

/// The blob that carries `ct` together with the nonce it was sealed under.
pub open spec fn with_nonce(nonce: Seq<u8>, ct: Seq<u8>) -> Seq<u8> {
    nonce + ct
}

/// The nonce at the head of a blob.
pub open spec fn nonce_part(blob: Seq<u8>) -> Seq<u8>
    recommends
        blob.len() >= NONCE_BYTES,
{
    blob.subrange(0, NONCE_BYTES as int)
}

/// The ciphertext that follows the nonce in a blob.
pub open spec fn sealed_part(blob: Seq<u8>) -> Seq<u8>
    recommends
        blob.len() >= NONCE_BYTES,
{
    blob.subrange(NONCE_BYTES as int, blob.len() as int)
}

/// Writes `nonce` and then `ct` into one blob.
pub fn prepend_nonce(nonce: &Nonce, ct: &[u8]) -> (blob: Vec<u8>)
    requires
        NONCE_BYTES + ct@.len() <= isize::MAX,
    ensures
        blob@ == with_nonce(nonce@, ct@),
{
    let mut blob: Vec<u8> = Vec::with_capacity(NONCE_BYTES + ct.len());
    blob.extend_from_slice(nonce.0.as_slice());
    blob.extend_from_slice(ct);
    blob
}

/// Takes a blob apart into its nonce and its ciphertext. A blob too short to
/// hold a nonce is refused, and no other is.
pub fn strip_nonce(blob: &[u8]) -> (parts: Result<(Nonce, &[u8]), Error>)
    ensures
        match parts {
            Ok((nonce, ct)) => {
                &&& blob@.len() >= NONCE_BYTES
                &&& nonce@ == nonce_part(blob@)
                &&& ct@ == sealed_part(blob@)
            },
            Err(e) => blob@.len() < NONCE_BYTES && e == Error::MalformedInput,
        },
{
    if blob.len() < NONCE_BYTES {
        return Err(Error::MalformedInput);
    }
    match Nonce::from_slice(slice_subrange(blob, 0, NONCE_BYTES)) {
        Some(nonce) => Ok((nonce, slice_subrange(blob, NONCE_BYTES, blob.len()))),
        None => Err(Error::MalformedInput),
    }
}

/// Taking apart what `prepend_nonce` put together gives back the nonce and
/// the ciphertext.
pub proof fn lemma_strip_inverts_prepend(nonce: Seq<u8>, ct: Seq<u8>)
    requires
        nonce.len() == NONCE_BYTES,
    ensures
        with_nonce(nonce, ct).len() == NONCE_BYTES + ct.len(),
        nonce_part(with_nonce(nonce, ct)) == nonce,
        sealed_part(with_nonce(nonce, ct)) == ct,
{
}

/// A blob that holds a nonce is the one that `prepend_nonce` makes of its two
/// parts.
pub proof fn lemma_prepend_inverts_strip(blob: Seq<u8>)
    requires
        blob.len() >= NONCE_BYTES,
    ensures
        with_nonce(nonce_part(blob), sealed_part(blob)) == blob,
{
}

} // verus!
