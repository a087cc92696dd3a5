//! Wrapping the DEK under the PIN-derived key:
//! `XChaCha20-Poly1305(key = Argon2id(PIN, salt), nonce, DEK)`.
//!
//! The AEAD tag is what makes "was the PIN wrong?" an authenticated yes-or-no
//! question rather than a guess about whether decrypted bytes look like a key.

use vstd::prelude::*;

use chacha20poly1305::aead::{Aead, KeyInit, Payload};
use chacha20poly1305::{Key, XChaCha20Poly1305, XNonce};

use crate::crypto::dek::{Dek, DEK_LEN};
use crate::crypto::fill_random;
use crate::crypto::kdf::{WrapKey, WRAP_KEY_LEN};
use crate::error::{ClipError, CryptoReason, ErrorView};

verus! {

/// XChaCha20's nonce length.
pub const NONCE_LEN: usize = 24;

/// Bound into the AEAD as associated data: it authenticates what this
/// ciphertext is for, so a blob wrapped for another purpose under the same key
/// cannot be substituted for the DEK.
pub const CONTEXT: &'static str = "fastclip.keyfile.v1.wrapped_dek";

/// The associated data, as bytes.
pub open spec fn context_bytes() -> Seq<u8> {
    vstd::utf8::encode_utf8(CONTEXT@)
}

/// The wrapped DEK and the nonce it was wrapped under.
#[derive(Clone, PartialEq, Eq)]
pub struct WrappedDek {
    pub nonce: [u8; NONCE_LEN],
    pub ciphertext: Vec<u8>,
}

impl WrappedDek {
    /// How the wrap reads in a log line: a fixed string.
    pub fn describe(&self) -> (r: String)
        ensures
            r@ == "WrappedDek(<redacted>)"@,
    {
        String::from_str("WrappedDek(<redacted>)")
    }
}

/// What XChaCha20-Poly1305 encryption produces for a key, a nonce, associated
/// data and a message (ciphertext followed by tag), or `None` where the crate
/// refuses.
pub uninterp spec fn xchacha_sealed(key: Seq<u8>, nonce: Seq<u8>, aad: Seq<u8>, msg: Seq<u8>) -> Option<Seq<u8>>;

/// What XChaCha20-Poly1305 decryption yields for a key, a nonce, associated
/// data and a ciphertext: the message, or `None` where the tag does not verify.
pub uninterp spec fn xchacha_opened(key: Seq<u8>, nonce: Seq<u8>, aad: Seq<u8>, ct: Seq<u8>) -> Option<Seq<u8>>;

/// Encrypt (`XChaCha20Poly1305::encrypt` with a `Payload`). The result is
/// `xchacha_sealed` of the arguments.
#[verifier::external_body]
fn seal(key: &[u8; WRAP_KEY_LEN], nonce: &[u8; NONCE_LEN], aad: &[u8], msg: &[u8]) -> (r: Option<Vec<u8>>)
    ensures
        r is Some == xchacha_sealed(key@, nonce@, aad@, msg@) is Some,
        r matches Some(c) ==> xchacha_sealed(key@, nonce@, aad@, msg@) == Some(c@),
{
    let cipher = XChaCha20Poly1305::new(Key::from_slice(key));
    cipher.encrypt(XNonce::from_slice(nonce), Payload { msg, aad }).ok()
}

/// Decrypt (`XChaCha20Poly1305::decrypt` with a `Payload`). The result is
/// `xchacha_opened` of the arguments; and, as for any AEAD, a ciphertext that
/// encryption produced under the same key, nonce and associated data decrypts
/// to the message it was made from.
#[verifier::external_body]
fn open(key: &[u8; WRAP_KEY_LEN], nonce: &[u8; NONCE_LEN], aad: &[u8], ct: &[u8]) -> (r: Option<Vec<u8>>)
    ensures
        r is Some == xchacha_opened(key@, nonce@, aad@, ct@) is Some,
        r matches Some(m) ==> xchacha_opened(key@, nonce@, aad@, ct@) == Some(m@),
        r matches Some(p) ==> forall|m: Seq<u8>|
            #[trigger] xchacha_sealed(key@, nonce@, aad@, m) == Some(ct@) ==> p@ == m,
        r is None ==> forall|m: Seq<u8>| #[trigger] xchacha_sealed(key@, nonce@, aad@, m) != Some(ct@),
{
    let cipher = XChaCha20Poly1305::new(Key::from_slice(key));
    cipher.decrypt(XNonce::from_slice(nonce), Payload { msg: ct, aad }).ok()
}

/// Whether a wrap is the DEK sealed under this key with the key material
/// context.
pub open spec fn wraps(key: Seq<u8>, wrapped: WrappedDek, dek: Seq<u8>) -> bool {
    xchacha_sealed(key, wrapped.nonce@, context_bytes(), dek) == Some(wrapped.ciphertext@)
}

/// Wrap a DEK under a PIN-derived key, with a fresh random nonce every time.
pub fn wrap(key: &WrapKey, dek: &Dek) -> (r: Result<WrappedDek, ClipError>)
    ensures
        r matches Ok(w) ==> wraps(key@, w, dek@),
        r matches Err(e) ==> e@ == ErrorView::Storage || e@ == (ErrorView::Crypto {
            reason: CryptoReason::BadKeyMaterial,
        }),
{
    let mut nonce = [0u8; NONCE_LEN];
    fill_random(&mut nonce)?;
    match seal(key.expose(), &nonce, CONTEXT.as_bytes(), dek.expose().as_slice()) {
        Some(ciphertext) => Ok(WrappedDek { nonce, ciphertext }),
        None => Err(ClipError::Crypto { reason: CryptoReason::BadKeyMaterial }),
    }
}

/// What unwrapping yields: `Ok(None)` is a wrong PIN, `Err` a broken file.
pub open spec fn unwrap_outcome(key: Seq<u8>, wrapped: WrappedDek) -> Result<Option<Seq<u8>>, ErrorView> {
    match xchacha_opened(key, wrapped.nonce@, context_bytes(), wrapped.ciphertext@) {
        None => Ok(None),
        Some(plain) => if plain.len() == DEK_LEN {
            Ok(Some(plain))
        } else {
            Err(ErrorView::Crypto { reason: CryptoReason::BadKeyMaterial })
        },
    }
}

/// Unwrap a DEK, or report that this key does not open it.
///
/// `Ok(None)` is a wrong PIN; `Err` is a broken file. A tag that verifies over
/// a plaintext that is not 256 bits long is a file this build did not write.
pub fn unwrap(key: &WrapKey, wrapped: &WrappedDek) -> (r: Result<Option<Dek>, ClipError>)
    ensures
        match unwrap_outcome(key@, *wrapped) {
            Ok(None) => r matches Ok(None),
            Ok(Some(bytes)) => r matches Ok(Some(d)) && d@ == bytes,
            Err(e) => r matches Err(got) && got@ == e,
        },
        // The right key recovers exactly the key that was wrapped: whatever
        // `wrap` produced under this key unwraps to the same DEK.
        forall|dek: Seq<u8>|
            #[trigger] wraps(key@, *wrapped, dek) && dek.len() == DEK_LEN ==> (r matches Ok(Some(d)) && d@ == dek),
{
    let plaintext = match open(key.expose(), &wrapped.nonce, CONTEXT.as_bytes(), wrapped.ciphertext.as_slice()) {
        Some(plaintext) => plaintext,
        None => return Ok(None),
    };
    if plaintext.len() != DEK_LEN {
        let mut plaintext = plaintext;
        crate::crypto::wipe_bytes(&mut plaintext);
        return Err(ClipError::Crypto { reason: CryptoReason::BadKeyMaterial });
    }
    let mut bytes = [0u8; DEK_LEN];
    let mut i: usize = 0;
    while i < DEK_LEN
        invariant
            plaintext@.len() == DEK_LEN,
            i <= DEK_LEN,
            forall|j: int| 0 <= j < i ==> bytes@[j] == plaintext@[j],
        decreases DEK_LEN - i,
    {
        bytes[i] = plaintext[i];
        i = i + 1;
    }
    assert(bytes@ =~= plaintext@);
    let mut plaintext = plaintext;
    crate::crypto::wipe_bytes(&mut plaintext);
    let dek = Dek::from_bytes(bytes);
    crate::crypto::wipe_key_bytes(&mut bytes);
    Ok(Some(dek))
}

} // verus!
