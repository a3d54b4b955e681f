//! The calls into sodiumoxide, and the names under which the contracts of
//! this library speak of what those calls compute.
//!
//! Nothing in this file is proved. Each contract repeats what the
//! documentation and the source of the function it names show, and every
//! proof elsewhere in the library rests on them.

use crate::keys::{Nonce, PublicKey, SecretKey, SymmetricKey, KEY_BYTES, TAG_BYTES};
use sodiumoxide::crypto::box_;
use sodiumoxide::crypto::secretbox;
use vstd::prelude::*;

verus! {

/// The public key that `box_::SecretKey::public_key` computes for the secret
/// key `sk`.
pub uninterp spec fn box_public_key_of(sk: Seq<u8>) -> Seq<u8>;

/// The ciphertext that `box_::seal` computes.
pub uninterp spec fn box_sealed(msg: Seq<u8>, nonce: Seq<u8>, pk: Seq<u8>, sk: Seq<u8>) -> Seq<u8>;

/// The plaintext that `box_::open` gives back, `None` where it refuses the
/// ciphertext.
pub uninterp spec fn box_opened(ct: Seq<u8>, nonce: Seq<u8>, pk: Seq<u8>, sk: Seq<u8>) -> Option<
    Seq<u8>,
>;

/// The ciphertext that `secretbox::seal` computes.
pub uninterp spec fn secretbox_sealed(msg: Seq<u8>, nonce: Seq<u8>, key: Seq<u8>) -> Seq<u8>;

/// The plaintext that `secretbox::open` gives back, `None` where it refuses
/// the ciphertext.
pub uninterp spec fn secretbox_opened(ct: Seq<u8>, nonce: Seq<u8>, key: Seq<u8>) -> Option<
    Seq<u8>,
>;

/// `sk` is a secret key, and `pk` is the public key that belongs to it.
pub open spec fn box_key_pair(pk: Seq<u8>, sk: Seq<u8>) -> bool {
    sk.len() == KEY_BYTES && pk == box_public_key_of(sk)
}

/// `pk` is the public key of some secret key.
pub open spec fn is_box_public_key(pk: Seq<u8>) -> bool {
    exists|sk: Seq<u8>| box_key_pair(pk, sk)
}

/// `sodiumoxide::init`: prepares the primitives and makes the random
/// generators safe to call from several threads. It may be called any number
/// of times. Nothing is claimed of its result, which depends on the machine.
#[verifier::external_body]
pub(crate) fn init() -> (outcome: Result<(), ()>) {
    sodiumoxide::init()
}

/// `sodiumoxide::utils::memzero`: overwrites every byte of the buffer with
/// zero, in a way that an optimising compiler does not remove. It does not
/// unwind.
#[verifier::external_body]
pub(crate) fn memzero(bytes: &mut [u8; KEY_BYTES])
    ensures
        final(bytes)@ == Seq::new(KEY_BYTES as nat, |i: int| 0u8),
    opens_invariants none
    no_unwind
{
    sodiumoxide::utils::memzero(bytes)
}

/// `box_::gen_keypair`: a random secret key together with "a corresponding
/// public key", the one that `public_key` computes for it. Which pair comes
/// out is left open.
#[verifier::external_body]
pub(crate) fn box_gen_keypair() -> (pair: (PublicKey, SecretKey))
    ensures
        pair.0@ == box_public_key_of(pair.1@),
{
    let (pk, sk) = box_::gen_keypair();
    (PublicKey(pk.0), SecretKey(sk.0))
}

/// `box_::SecretKey::public_key`: the public key of a secret key, a function
/// of the secret key alone.
#[verifier::external_body]
pub(crate) fn box_public_key(sk: &SecretKey) -> (pk: PublicKey)
    ensures
        pk@ == box_public_key_of(sk@),
{
    PublicKey(box_::SecretKey(sk.0).public_key().0)
}

/// `box_::gen_nonce`: a random nonce. Nothing is claimed of its bytes.
#[verifier::external_body]
pub(crate) fn box_gen_nonce() -> (nonce: Nonce) {
    Nonce(box_::gen_nonce().0)
}

/// `box_::seal`: encrypts and authenticates `msg` from the holder of `sk` to
/// the holder of the secret key of `pk`.
///
/// The ciphertext is `TAG_BYTES` longer than the message. The other two
/// claims are made only where `pk` is the public key of some secret key: the
/// call writes the ciphertext only where the key exchange behind it
/// succeeds, which it does for every such `pk`, and leaves the buffer as it
/// was allocated where it fails. For such a `pk` the ciphertext depends on
/// the four arguments alone, and `open` with the same nonce, the sender's
/// public key and the recipient's secret key gives the message back: the
/// documentation of the module shows the two calls paired in this way.
///
/// The call allocates the ciphertext, so its length has to be one that a
/// vector can have.
#[verifier::external_body]
pub(crate) fn box_seal(msg: &[u8], nonce: &Nonce, pk: &PublicKey, sk: &SecretKey) -> (ct: Vec<u8>)
    requires
        msg@.len() + TAG_BYTES <= isize::MAX,
    ensures
        ct@.len() == msg@.len() + TAG_BYTES,
        is_box_public_key(pk@) ==> ct@ == box_sealed(msg@, nonce@, pk@, sk@),
        forall|recipient_sk: Seq<u8>| #[trigger]
            box_key_pair(pk@, recipient_sk) ==> box_opened(
                ct@,
                nonce@,
                box_public_key_of(sk@),
                recipient_sk,
            ) == Some(msg@),
{
    box_::seal(msg, &box_::Nonce(nonce.0), &box_::PublicKey(pk.0), &box_::SecretKey(sk.0))
}

/// `box_::open`: verifies and decrypts `ct`. The outcome depends on the four
/// arguments alone. A ciphertext shorter than a tag is refused, and a
/// plaintext that comes out is `TAG_BYTES` shorter than the ciphertext.
#[verifier::external_body]
pub(crate) fn box_open(
    ct: &[u8],
    nonce: &Nonce,
    pk: &PublicKey,
    sk: &SecretKey,
) -> (opened: Result<Vec<u8>, ()>)
    ensures
        match opened {
            Ok(msg) => box_opened(ct@, nonce@, pk@, sk@) == Some(msg@),
            Err(_) => box_opened(ct@, nonce@, pk@, sk@) is None,
        },
        ct@.len() < TAG_BYTES ==> opened is Err,
        opened matches Ok(msg) ==> msg@.len() + TAG_BYTES == ct@.len(),
{
    box_::open(ct, &box_::Nonce(nonce.0), &box_::PublicKey(pk.0), &box_::SecretKey(sk.0))
}

/// `secretbox::gen_key`: a random key. Nothing is claimed of its bytes.
#[verifier::external_body]
pub(crate) fn secretbox_gen_key() -> (key: SymmetricKey) {
    SymmetricKey(secretbox::gen_key().0)
}

/// `secretbox::gen_nonce`: a random nonce. Nothing is claimed of its bytes.
#[verifier::external_body]
pub(crate) fn secretbox_gen_nonce() -> (nonce: Nonce) {
    Nonce(secretbox::gen_nonce().0)
}

/// `secretbox::seal`: encrypts and authenticates `msg` under `key`.
///
/// The ciphertext is `TAG_BYTES` longer than the message and depends on the
/// three arguments alone, and `open` with the same nonce and key gives the
/// message back: the documentation of the module shows the two calls paired
/// in this way.
///
/// The call allocates the ciphertext, so its length has to be one that a
/// vector can have.
#[verifier::external_body]
pub(crate) fn secretbox_seal(msg: &[u8], nonce: &Nonce, key: &SymmetricKey) -> (ct: Vec<u8>)
    requires
        msg@.len() + TAG_BYTES <= isize::MAX,
    ensures
        ct@.len() == msg@.len() + TAG_BYTES,
        ct@ == secretbox_sealed(msg@, nonce@, key@),
        secretbox_opened(ct@, nonce@, key@) == Some(msg@),
{
    secretbox::seal(msg, &secretbox::Nonce(nonce.0), &secretbox::Key(key.0))
}

/// `secretbox::open`: verifies and decrypts `ct`. The outcome depends on the
/// three arguments alone. A ciphertext shorter than a tag is refused, and a
/// plaintext that comes out is `TAG_BYTES` shorter than the ciphertext.
#[verifier::external_body]
pub(crate) fn secretbox_open(
    ct: &[u8],
    nonce: &Nonce,
    key: &SymmetricKey,
) -> (opened: Result<Vec<u8>, ()>)
    ensures
        match opened {
            Ok(msg) => secretbox_opened(ct@, nonce@, key@) == Some(msg@),
            Err(_) => secretbox_opened(ct@, nonce@, key@) is None,
        },
        ct@.len() < TAG_BYTES ==> opened is Err,
        opened matches Ok(msg) ==> msg@.len() + TAG_BYTES == ct@.len(),
{
    secretbox::open(ct, &secretbox::Nonce(nonce.0), &secretbox::Key(key.0))
}

} // verus!
