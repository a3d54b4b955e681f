//! Authenticated encryption in two kinds: with a pair of public and secret
//! keys (`Asymmetric`), and with one shared key (`Symmetric`).
//!
//! The cipher and the authenticator are those of libsodium, reached through
//! sodiumoxide. What this crate adds, and proves, is the discipline around
//! them: keys and nonces as types of their own, the wire format that carries
//! a nonce in front of its ciphertext, and the outcome of opening on every
//! input.

use vstd::prelude::*;

pub mod asymmetric;
pub mod error;
pub mod keys;
pub mod sodium;
pub mod symmetric;
pub mod wire;

pub use crate::asymmetric::Asymmetric;
pub use crate::error::Error;
pub use crate::keys::{Nonce, PublicKey, SecretKey, SymmetricKey, KEY_BYTES, NONCE_BYTES, TAG_BYTES};
pub use crate::symmetric::Symmetric;

verus! {

/// Prepares the primitives for use. Call it once before anything else where
/// keys or nonces are generated on more than one thread; further calls do no
/// harm. Returns whether the primitives are ready.
pub fn init() -> (ready: bool) {
    is_ready(crate::sodium::init())
}

/// Whether the outcome of preparing the primitives means that they are
/// ready: they are, unless preparing them failed.
pub fn is_ready(outcome: Result<(), ()>) -> (ready: bool)
    ensures
        ready == (outcome is Ok),
{
    match outcome {
        Ok(_) => true,
        Err(_) => false,
    }
}

} // verus!
