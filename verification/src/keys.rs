//! Keys and nonces: byte strings of fixed size, one nominal type for each
//! role, so that a key of one kind cannot be handed in where another is due.

use crate::sodium::memzero;
use vstd::prelude::*;

verus! {

/// Number of bytes in a public key, a secret key and a symmetric key.
pub const KEY_BYTES: usize = 32;

/// Number of bytes in a nonce.
pub const NONCE_BYTES: usize = 24;

/// Number of bytes by which a ciphertext is longer than its plaintext.
pub const TAG_BYTES: usize = 16;

/// The public half of a key pair.
#[derive(Clone, Copy, Debug, PartialEq, Eq)]
pub struct PublicKey(pub [u8; KEY_BYTES]);

/// The secret half of a key pair. Its bytes are overwritten with zeros when
/// the value goes out of scope.
pub struct SecretKey(pub [u8; KEY_BYTES]);

/// A key shared by every party of a symmetric box. Its bytes are overwritten
/// with zeros when the value goes out of scope.
pub struct SymmetricKey(pub [u8; KEY_BYTES]);

/// A value that makes each sealing under a key unique. It is not secret, and
/// it must not be used twice with the same key.
#[derive(Clone, Copy, Debug, PartialEq, Eq)]
pub struct Nonce(pub [u8; NONCE_BYTES]);

impl View for PublicKey {
    type V = Seq<u8>;

    open spec fn view(&self) -> Seq<u8> {
        self.0@
    }
}

impl View for SecretKey {
    type V = Seq<u8>;

    open spec fn view(&self) -> Seq<u8> {
        self.0@
    }
}

impl View for SymmetricKey {
    type V = Seq<u8>;

    open spec fn view(&self) -> Seq<u8> {
        self.0@
    }
}

impl View for Nonce {
    type V = Seq<u8>;

    open spec fn view(&self) -> Seq<u8> {
        self.0@
    }
}

/// `n` bytes, all zero.
pub open spec fn zeros(n: nat) -> Seq<u8> {
    Seq::new(n, |i: int| 0u8)
}

impl Nonce {
    /// The nonce that `bytes` holds, if there are `NONCE_BYTES` of them.
    pub fn from_slice(bytes: &[u8]) -> (nonce: Option<Nonce>)
        ensures
            bytes@.len() == NONCE_BYTES ==> nonce is Some && nonce->0@ == bytes@,
            bytes@.len() != NONCE_BYTES ==> nonce is None,
    {
        if bytes.len() != NONCE_BYTES {
            return None;
        }
        let mut array: [u8; NONCE_BYTES] = [0u8; NONCE_BYTES];
        let mut i: usize = 0;
        while i < NONCE_BYTES
            invariant
                bytes@.len() == NONCE_BYTES,
                i <= NONCE_BYTES,
                forall|j: int| 0 <= j < i ==> array@[j] == bytes@[j],
            decreases NONCE_BYTES - i,
        {
            array[i] = bytes[i];
            i = i + 1;
        }
        Some(Nonce(array))
    }
}

impl SecretKey {
    /// Overwrites the key with zeros.
    pub fn erase(&mut self)
        ensures
            final(self)@ == zeros(KEY_BYTES as nat),
        opens_invariants none
        no_unwind
    {
        memzero(&mut self.0);
    }
}

impl Drop for SecretKey {
    fn drop(&mut self)
        ensures
            final(self)@ == zeros(KEY_BYTES as nat),
        opens_invariants none
        no_unwind
    {
        self.erase();
    }
}

impl SymmetricKey {
    /// Overwrites the key with zeros.
    pub fn erase(&mut self)
        ensures
            final(self)@ == zeros(KEY_BYTES as nat),
        opens_invariants none
        no_unwind
    {
        memzero(&mut self.0);
    }
}

impl Drop for SymmetricKey {
    fn drop(&mut self)
        ensures
            final(self)@ == zeros(KEY_BYTES as nat),
        opens_invariants none
        no_unwind
    {
        self.erase();
    }
}

} // verus!
