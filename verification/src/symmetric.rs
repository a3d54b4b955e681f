//! Shared-key authenticated encryption: one secret key, agreed on out of
//! band, seals and opens.

use crate::error::{authenticated, plain, Error};
use crate::keys::{Nonce, SymmetricKey, KEY_BYTES, NONCE_BYTES, TAG_BYTES};
use crate::sodium::{
    secretbox_gen_key, secretbox_gen_nonce, secretbox_open, secretbox_opened, secretbox_seal,
    secretbox_sealed,
};
use crate::wire::{
    lemma_strip_inverts_prepend, nonce_part, prepend_nonce, sealed_part, strip_nonce,
};
use vstd::prelude::*;

verus! {

/// The operations of the shared-key box. It holds no state.
pub struct Symmetric {}

impl Symmetric {
    /// `ct` is what sealing `msg` gives: the one ciphertext that the
    /// primitive computes from the three values. It is longer than the
    /// message by the tag and opens to `msg` under the same nonce and key.
    pub open spec fn sealing(msg: Seq<u8>, nonce: Seq<u8>, key: Seq<u8>, ct: Seq<u8>) -> bool {
        &&& ct == secretbox_sealed(msg, nonce, key)
        &&& ct.len() == msg.len() + TAG_BYTES
        &&& secretbox_opened(ct, nonce, key) == Some(msg)
    }

    /// What opening `ct` gives: the plaintext that the primitive hands out,
    /// or `AuthenticationFailure` where it refuses.
    pub open spec fn opening(ct: Seq<u8>, nonce: Seq<u8>, key: Seq<u8>) -> Result<Seq<u8>, Error> {
        match secretbox_opened(ct, nonce, key) {
            Some(msg) => Ok(msg),
            None => Err(Error::AuthenticationFailure),
        }
    }

    /// `blob` is what encrypting `msg` gives: a nonce, followed by the
    /// sealing of `msg` under that nonce.
    pub open spec fn encryption(msg: Seq<u8>, key: Seq<u8>, blob: Seq<u8>) -> bool {
        &&& blob.len() == NONCE_BYTES + msg.len() + TAG_BYTES
        &&& Self::sealing(msg, nonce_part(blob), key, sealed_part(blob))
    }

    /// What decrypting `blob` gives: `MalformedInput` where it cannot hold a
    /// nonce, else the opening of what follows the nonce, under that nonce.
    pub open spec fn decryption(blob: Seq<u8>, key: Seq<u8>) -> Result<Seq<u8>, Error> {
        if blob.len() < NONCE_BYTES {
            Err(Error::MalformedInput)
        } else {
            Self::opening(sealed_part(blob), nonce_part(blob), key)
        }
    }

    /// A fresh random key.
    pub fn secret() -> (key: SymmetricKey)
        ensures
            key@.len() == KEY_BYTES,
    {
        secretbox_gen_key()
    }

    /// A fresh random nonce. It must not be used twice with the same key.
    pub fn generate_nonce() -> (nonce: Nonce)
        ensures
            nonce@.len() == NONCE_BYTES,
    {
        secretbox_gen_nonce()
    }

    /// Encrypts and authenticates `msg` under `key` and `nonce`.
    pub fn seal(msg: &[u8], nonce: &Nonce, key: &SymmetricKey) -> (ct: Vec<u8>)
        requires
            msg@.len() + TAG_BYTES <= isize::MAX,
        ensures
            Self::sealing(msg@, nonce@, key@, ct@),
    {
        secretbox_seal(msg, nonce, key)
    }

    /// Verifies and decrypts `ct`, which was sealed under `key` and `nonce`.
    /// Either the whole plaintext comes out, or `AuthenticationFailure`.
    pub fn open(ct: &[u8], nonce: &Nonce, key: &SymmetricKey) -> (outcome: Result<Vec<u8>, Error>)
        ensures
            plain(outcome) == Self::opening(ct@, nonce@, key@),
            ct@.len() < TAG_BYTES ==> outcome == Err::<Vec<u8>, Error>(
                Error::AuthenticationFailure,
            ),
            outcome matches Ok(msg) ==> msg@.len() + TAG_BYTES == ct@.len(),
    {
        authenticated(secretbox_open(ct, nonce, key))
    }

    /// Seals `msg` under `nonce` and returns the nonce followed by the
    /// ciphertext.
    pub fn encrypt_with_nonce(msg: &[u8], nonce: &Nonce, key: &SymmetricKey) -> (blob: Vec<u8>)
        requires
            NONCE_BYTES + msg@.len() + TAG_BYTES <= isize::MAX,
        ensures
            nonce_part(blob@) == nonce@,
            Self::encryption(msg@, key@, blob@),
    {
        let ct = Self::seal(msg, nonce, key);
        let blob = prepend_nonce(nonce, ct.as_slice());
        proof {
            lemma_strip_inverts_prepend(nonce@, ct@);
        }
        blob
    }

    /// Seals `msg` under a fresh random nonce and returns the nonce followed
    /// by the ciphertext.
    pub fn encrypt(msg: &[u8], key: &SymmetricKey) -> (blob: Vec<u8>)
        requires
            NONCE_BYTES + msg@.len() + TAG_BYTES <= isize::MAX,
        ensures
            Self::encryption(msg@, key@, blob@),
    {
        let nonce = Self::generate_nonce();
        Self::encrypt_with_nonce(msg, &nonce, key)
    }

    /// Opens a blob made by `encrypt`: takes the nonce from its head and
    /// opens the rest under it. A blob too short to hold a nonce is
    /// `MalformedInput`, and nothing is decrypted.
    pub fn decrypt(blob: &[u8], key: &SymmetricKey) -> (outcome: Result<Vec<u8>, Error>)
        ensures
            plain(outcome) == Self::decryption(blob@, key@),
            blob@.len() < NONCE_BYTES ==> outcome == Err::<Vec<u8>, Error>(Error::MalformedInput),
            NONCE_BYTES <= blob@.len() < NONCE_BYTES + TAG_BYTES ==> outcome == Err::<
                Vec<u8>,
                Error,
            >(Error::AuthenticationFailure),
            outcome matches Ok(msg) ==> NONCE_BYTES + msg@.len() + TAG_BYTES == blob@.len(),
    {
        match strip_nonce(blob) {
            Ok((nonce, ct)) => Self::open(ct, &nonce, key),
            Err(e) => Err(e),
        }
    }

    /// Sealing is a function of its arguments: two ciphertexts that `seal`
    /// may return for the same message, nonce and key are the same bytes.
    pub proof fn lemma_seal_is_deterministic(
        msg: Seq<u8>,
        nonce: Seq<u8>,
        key: Seq<u8>,
        first: Seq<u8>,
        second: Seq<u8>,
    )
        requires
            Self::sealing(msg, nonce, key, first),
            Self::sealing(msg, nonce, key, second),
        ensures
            first == second,
    {
    }

    /// Opening inverts sealing: what was sealed under a key and a nonce
    /// opens, under the same key and nonce, to the message.
    pub proof fn lemma_open_inverts_seal(msg: Seq<u8>, nonce: Seq<u8>, key: Seq<u8>, ct: Seq<u8>)
        requires
            Self::sealing(msg, nonce, key, ct),
        ensures
            Self::opening(ct, nonce, key) == Ok::<Seq<u8>, Error>(msg),
    {
    }

    /// Decrypting inverts encrypting: a blob made under a key decrypts, under
    /// the same key, to the message.
    pub proof fn lemma_decrypt_inverts_encrypt(msg: Seq<u8>, key: Seq<u8>, blob: Seq<u8>)
        requires
            Self::encryption(msg, key, blob),
        ensures
            Self::decryption(blob, key) == Ok::<Seq<u8>, Error>(msg),
    {
    }
}

} // verus!
