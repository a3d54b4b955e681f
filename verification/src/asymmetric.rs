//! Public-key authenticated encryption: a message sealed with the sender's
//! secret key and the recipient's public key can be opened, and its origin
//! verified, only with the recipient's secret key and the sender's public key.

use crate::error::{authenticated, plain, Error};
use crate::keys::{Nonce, PublicKey, SecretKey, KEY_BYTES, NONCE_BYTES, TAG_BYTES};
use crate::sodium::{
    box_gen_keypair, box_gen_nonce, box_key_pair, box_open, box_opened, box_public_key,
    box_public_key_of, box_seal, box_sealed, is_box_public_key,
};
use crate::wire::{
    lemma_strip_inverts_prepend, nonce_part, prepend_nonce, sealed_part, strip_nonce,
};
use vstd::prelude::*;

verus! {

/// The operations of the public-key box. It holds no state.
pub struct Asymmetric {}

impl Asymmetric {
    /// `ct` is what sealing `msg` gives: a ciphertext longer than the message
    /// by the tag, and, where `pk` is the public key of some secret key, the
    /// one ciphertext that the primitive computes from the four values, which
    /// opens to `msg` under that secret key and the sender's public key.
    ///
    /// For a `pk` that belongs to no secret key the primitive has no shared
    /// key to seal under, and only the length is known.
    pub open spec fn sealing(
        msg: Seq<u8>,
        nonce: Seq<u8>,
        pk: Seq<u8>,
        sk: Seq<u8>,
        ct: Seq<u8>,
    ) -> bool {
        &&& ct.len() == msg.len() + TAG_BYTES
        &&& is_box_public_key(pk) ==> ct == box_sealed(msg, nonce, pk, sk)
        &&& forall|recipient_sk: Seq<u8>| #[trigger]
            box_key_pair(pk, recipient_sk) ==> box_opened(
                ct,
                nonce,
                box_public_key_of(sk),
                recipient_sk,
            ) == Some(msg)
    }

    /// What opening `ct` gives: the plaintext that the primitive hands out,
    /// or `AuthenticationFailure` where it refuses.
    pub open spec fn opening(ct: Seq<u8>, nonce: Seq<u8>, pk: Seq<u8>, sk: Seq<u8>) -> Result<
        Seq<u8>,
        Error,
    > {
        match box_opened(ct, nonce, pk, sk) {
            Some(msg) => Ok(msg),
            None => Err(Error::AuthenticationFailure),
        }
    }

    /// `blob` is what encrypting `msg` gives: a nonce, followed by a sealing
    /// of `msg` under that nonce.
    pub open spec fn encryption(msg: Seq<u8>, pk: Seq<u8>, sk: Seq<u8>, blob: Seq<u8>) -> bool {
        &&& blob.len() == NONCE_BYTES + msg.len() + TAG_BYTES
        &&& Self::sealing(msg, nonce_part(blob), pk, sk, sealed_part(blob))
    }

    /// What decrypting `blob` gives: `MalformedInput` where it cannot hold a
    /// nonce, else the opening of what follows the nonce, under that nonce.
    pub open spec fn decryption(blob: Seq<u8>, pk: Seq<u8>, sk: Seq<u8>) -> Result<Seq<u8>, Error> {
        if blob.len() < NONCE_BYTES {
            Err(Error::MalformedInput)
        } else {
            Self::opening(sealed_part(blob), nonce_part(blob), pk, sk)
        }
    }

    /// A fresh random key pair.
    pub fn key_pair() -> (pair: (PublicKey, SecretKey))
        ensures
            box_key_pair(pair.0@, pair.1@),
    {
        box_gen_keypair()
    }

    /// The public key that belongs to `sk`. The same secret key always gives
    /// the same public key.
    pub fn public(sk: &SecretKey) -> (pk: PublicKey)
        ensures
            pk@ == box_public_key_of(sk@),
            box_key_pair(pk@, sk@),
    {
        box_public_key(sk)
    }

    /// A fresh random nonce. It must not be used twice with the same pair of
    /// sender and recipient.
    pub fn generate_nonce() -> (nonce: Nonce)
        ensures
            nonce@.len() == NONCE_BYTES,
    {
        box_gen_nonce()
    }

    /// Encrypts and authenticates `msg` from the holder of `sk` to the holder
    /// of the secret key of `pk`, under `nonce`.
    pub fn seal(msg: &[u8], nonce: &Nonce, pk: &PublicKey, sk: &SecretKey) -> (ct: Vec<u8>)
        requires
            msg@.len() + TAG_BYTES <= isize::MAX,
        ensures
            Self::sealing(msg@, nonce@, pk@, sk@, ct@),
    {
        box_seal(msg, nonce, pk, sk)
    }

    /// Verifies and decrypts `ct`, which the holder of the secret key of `pk`
    /// sealed under `nonce` for the holder of `sk`. Either the whole plaintext
    /// comes out, or `AuthenticationFailure`.
    pub fn open(
        ct: &[u8],
        nonce: &Nonce,
        pk: &PublicKey,
        sk: &SecretKey,
    ) -> (outcome: Result<Vec<u8>, Error>)
        ensures
            plain(outcome) == Self::opening(ct@, nonce@, pk@, sk@),
            ct@.len() < TAG_BYTES ==> outcome == Err::<Vec<u8>, Error>(
                Error::AuthenticationFailure,
            ),
            outcome matches Ok(msg) ==> msg@.len() + TAG_BYTES == ct@.len(),
    {
        authenticated(box_open(ct, nonce, pk, sk))
    }

    /// Seals `msg` under `nonce` and returns the nonce followed by the
    /// ciphertext.
    pub fn encrypt_with_nonce(
        msg: &[u8],
        nonce: &Nonce,
        pk: &PublicKey,
        sk: &SecretKey,
    ) -> (blob: Vec<u8>)
        requires
            NONCE_BYTES + msg@.len() + TAG_BYTES <= isize::MAX,
        ensures
            nonce_part(blob@) == nonce@,
            Self::encryption(msg@, pk@, sk@, blob@),
    {
        let ct = Self::seal(msg, nonce, pk, sk);
        let blob = prepend_nonce(nonce, ct.as_slice());
        proof {
            lemma_strip_inverts_prepend(nonce@, ct@);
        }
        blob
    }

    /// Seals `msg` under a fresh random nonce and returns the nonce followed
    /// by the ciphertext.
    pub fn encrypt(msg: &[u8], pk: &PublicKey, sk: &SecretKey) -> (blob: Vec<u8>)
        requires
            NONCE_BYTES + msg@.len() + TAG_BYTES <= isize::MAX,
        ensures
            Self::encryption(msg@, pk@, sk@, blob@),
    {
        let nonce = Self::generate_nonce();
        Self::encrypt_with_nonce(msg, &nonce, pk, sk)
    }

    /// Opens a blob made by `encrypt`: takes the nonce from its head and
    /// opens the rest under it. A blob too short to hold a nonce is
    /// `MalformedInput`, and nothing is decrypted.
    pub fn decrypt(blob: &[u8], pk: &PublicKey, sk: &SecretKey) -> (outcome: Result<Vec<u8>, Error>)
        ensures
            plain(outcome) == Self::decryption(blob@, pk@, sk@),
            blob@.len() < NONCE_BYTES ==> outcome == Err::<Vec<u8>, Error>(Error::MalformedInput),
            NONCE_BYTES <= blob@.len() < NONCE_BYTES + TAG_BYTES ==> outcome == Err::<
                Vec<u8>,
                Error,
            >(Error::AuthenticationFailure),
            outcome matches Ok(msg) ==> NONCE_BYTES + msg@.len() + TAG_BYTES == blob@.len(),
    {
        match strip_nonce(blob) {
            Ok((nonce, ct)) => Self::open(ct, &nonce, pk, sk),
            Err(e) => Err(e),
        }
    }

    /// Sealing is a function of its arguments: two ciphertexts that `seal`
    /// may return for the same message, nonce and keys are the same bytes,
    /// where the recipient's key is the public key of a secret key.
    pub proof fn lemma_seal_is_deterministic(
        msg: Seq<u8>,
        nonce: Seq<u8>,
        recipient_sk: Seq<u8>,
        sender_sk: Seq<u8>,
        first: Seq<u8>,
        second: Seq<u8>,
    )
        requires
            recipient_sk.len() == KEY_BYTES,
            Self::sealing(msg, nonce, box_public_key_of(recipient_sk), sender_sk, first),
            Self::sealing(msg, nonce, box_public_key_of(recipient_sk), sender_sk, second),
        ensures
            first == second,
    {
        assert(box_key_pair(box_public_key_of(recipient_sk), recipient_sk));
    }

    /// Opening inverts sealing: what the sender sealed for the recipient's
    /// public key opens, under the same nonce, the sender's public key and
    /// the recipient's secret key, to the message.
    pub proof fn lemma_open_inverts_seal(
        msg: Seq<u8>,
        nonce: Seq<u8>,
        recipient_sk: Seq<u8>,
        sender_sk: Seq<u8>,
        ct: Seq<u8>,
    )
        requires
            recipient_sk.len() == KEY_BYTES,
            Self::sealing(msg, nonce, box_public_key_of(recipient_sk), sender_sk, ct),
        ensures
            Self::opening(ct, nonce, box_public_key_of(sender_sk), recipient_sk) == Ok::<
                Seq<u8>,
                Error,
            >(msg),
    {
        assert(box_key_pair(box_public_key_of(recipient_sk), recipient_sk));
    }

    /// Decrypting inverts encrypting: the blob that the sender made for the
    /// recipient's public key decrypts, under the sender's public key and the
    /// recipient's secret key, to the message.
    pub proof fn lemma_decrypt_inverts_encrypt(
        msg: Seq<u8>,
        recipient_sk: Seq<u8>,
        sender_sk: Seq<u8>,
        blob: Seq<u8>,
    )
        requires
            recipient_sk.len() == KEY_BYTES,
            Self::encryption(msg, box_public_key_of(recipient_sk), sender_sk, blob),
        ensures
            Self::decryption(blob, box_public_key_of(sender_sk), recipient_sk) == Ok::<
                Seq<u8>,
                Error,
            >(msg),
    {
        Self::lemma_open_inverts_seal(
            msg,
            nonce_part(blob),
            recipient_sk,
            sender_sk,
            sealed_part(blob),
        );
    }
}

} // verus!
