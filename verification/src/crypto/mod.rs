//! Key material: the DEK, the KDF, the wrap, and the file that holds them.
//!
//! ```text
//! keyfile = [version byte] ++ DPAPI( json{ kdf params, wrapped_dek, attempts } )
//!                                     └─ wrapped_dek =
//!                                        XChaCha20-Poly1305(Argon2id(PIN, salt), DEK)
//! ```
//!
//! The PIN is a gate, not the entropy: the store's key is a random 256-bit
//! DEK, and Argon2id is applied to the PIN only to make the wrap expensive to
//! attack offline.

pub mod dek;
pub mod kdf;
pub mod keyfile;
pub mod pin;
pub mod wrap;

use vstd::prelude::*;

use chacha20poly1305::aead::rand_core::RngCore;
use subtle::ConstantTimeEq;

pub use dek::Dek;
pub use pin::Pin;

use crate::error::{ClipError, ErrorView};

verus! {

/// Fill a buffer from the operating system's CSPRNG
/// (`chacha20poly1305::aead::OsRng`, `RngCore::try_fill_bytes`).
///
/// What the bytes are is chance, so nothing is claimed of them: only that the
/// buffer keeps its length, and that a failure of the generator is `storage`.
/// A failure never degrades to a weaker key.
#[verifier::external_body]
pub fn fill_random(buffer: &mut [u8]) -> (r: Result<(), ClipError>)
    ensures
        final(buffer)@.len() == old(buffer)@.len(),
        r matches Err(e) ==> e@ == ErrorView::Storage,
{
    match chacha20poly1305::aead::OsRng.try_fill_bytes(buffer) {
        Ok(()) => Ok(()),
        Err(_) => Err(ClipError::Storage),
    }
}

/// Constant-time equality of two byte strings (`subtle::ConstantTimeEq` for
/// slices): true exactly when both have the same length and the same bytes.
#[verifier::external_body]
pub(crate) fn bytes_equal(a: &[u8], b: &[u8]) -> (r: bool)
    ensures
        r == (a@ == b@),
{
    a.ct_eq(b).into()
}

/// Overwrite a byte buffer with zeroes and clear it (`zeroize::Zeroize` for
/// `Vec<u8>`).
#[verifier::external_body]
pub(crate) fn wipe_bytes(bytes: &mut Vec<u8>)
    ensures
        final(bytes)@.len() == 0,
{
    zeroize::Zeroize::zeroize(bytes)
}

/// Overwrite a text's bytes with zeroes and clear it (`zeroize::Zeroize` for
/// `String`).
#[verifier::external_body]
pub(crate) fn wipe_text(text: &mut String)
    ensures
        final(text)@.len() == 0,
{
    zeroize::Zeroize::zeroize(text)
}

/// Thirty-two zero bytes: what a wiped 256-bit key holds.
pub open spec fn zero_key() -> Seq<u8> {
    Seq::new(32, |_i: int| 0u8)
}

/// Overwrite a 256-bit key with zeroes (`zeroize::Zeroize` for `[u8; 32]`:
/// a volatile write of 0 to every byte, which the compiler cannot remove).
#[verifier::external_body]
pub(crate) fn wipe_key_bytes(bytes: &mut [u8; 32])
    ensures
        final(bytes)@ == zero_key(),
{
    zeroize::Zeroize::zeroize(bytes)
}

} // verus!
