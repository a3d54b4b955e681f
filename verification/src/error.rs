//! Why opening a ciphertext was refused.

use vstd::prelude::*;

verus! {

/// The two ways in which opening fails. Neither hands out any plaintext.
#[derive(Clone, Copy, Debug, PartialEq, Eq, Structural)]
pub enum Error {
    /// The tag did not verify: the ciphertext was altered, or a key or the
    /// nonce is not the one it was sealed under.
    AuthenticationFailure,
    /// The input is too short to hold a nonce.
    MalformedInput,
}

/// The outcome of opening, with the plaintext as a sequence of bytes.
pub open spec fn plain(outcome: Result<Vec<u8>, Error>) -> Result<Seq<u8>, Error> {
    match outcome {
        Ok(msg) => Ok(msg@),
        Err(e) => Err(e),
    }
}

/// The outcome of opening, given what the primitive made of the ciphertext:
/// its plaintext where it accepted, `AuthenticationFailure` where it refused.
pub fn authenticated(opened: Result<Vec<u8>, ()>) -> (outcome: Result<Vec<u8>, Error>)
    ensures
        match opened {
            Ok(msg) => outcome == Ok::<Vec<u8>, Error>(msg),
            Err(_) => outcome == Err::<Vec<u8>, Error>(Error::AuthenticationFailure),
        },
{
    match opened {
        Ok(msg) => Ok(msg),
        Err(_) => Err(Error::AuthenticationFailure),
    }
}

} // verus!
