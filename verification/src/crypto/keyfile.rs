//! `~/.fast-clip/keyfile`: the only copy of the wrapped DEK, and the unlock
//! attempt counter that lives beside it.
//!
//! ```text
//! byte 0     : format version
//! bytes 1..  : DPAPI( serde_json( KeyMaterial ) )
//! ```
//!
//! The version byte is outside the protected blob, so an unrecognised format
//! is `unsupported_version { key_material }` before anything is decrypted.

use vstd::prelude::*;

use std::time::{SystemTime, UNIX_EPOCH};

use crate::crypto::dek::Dek;
use crate::crypto::kdf::{self, derived_key, KdfParams};
use crate::crypto::pin::Pin;
use crate::crypto::wrap::{self, wraps, WrappedDek};
use crate::error::{ClipError, CryptoReason, ErrorView, VersionComponent};

verus! {

/// The format this build writes. 1, and never 0: a leading zero byte is what
/// an empty or zero-filled file looks like.
pub const KEYFILE_VERSION: u8 = 1;

/// Attempts before a wait engages.
pub const MAX_ATTEMPTS: u32 = 5;

/// The wait, flat, from the fifth failure onwards. No doubling, no ceiling.
pub const BACKOFF_MS: u64 = 30000;

/// What the protected blob holds.
#[derive(Clone, PartialEq, Eq)]
pub struct KeyMaterial {
    pub kdf: KdfParams,
    pub wrapped_dek: WrappedDek,
    pub failed_attempts: u32,
    pub locked_until_unix_ms: Option<u64>,
}

/// `a + b`, saturating at the type's maximum.
pub open spec fn sat_add_u32(a: u32, b: u32) -> u32 {
    if a + b > u32::MAX { u32::MAX } else { (a + b) as u32 }
}

/// `a + b`, saturating at the type's maximum.
pub open spec fn sat_add_u64(a: u64, b: u64) -> u64 {
    if a + b > u64::MAX { u64::MAX } else { (a + b) as u64 }
}

/// Attempts left before a wait engages. Never negative.
pub open spec fn attempts_left(failed: u32) -> u32 {
    if failed >= MAX_ATTEMPTS { 0 } else { (MAX_ATTEMPTS - failed) as u32 }
}

/// The wait still to run at `now_ms`, or `None`.
pub open spec fn backoff_left(locked_until: Option<u64>, now_ms: u64) -> Option<u64> {
    match locked_until {
        Some(deadline) => if deadline > now_ms { Some((deadline - now_ms) as u64) } else { None },
        None => None,
    }
}

/// The material after one more wrong PIN at `now_ms`. The fifth failure and
/// every one after it arms the same wait; the count saturates rather than
/// wrapping.
pub open spec fn after_failure(m: KeyMaterial, now_ms: u64) -> KeyMaterial {
    let failed = sat_add_u32(m.failed_attempts, 1);
    KeyMaterial {
        failed_attempts: failed,
        locked_until_unix_ms: if failed >= MAX_ATTEMPTS {
            Some(sat_add_u64(now_ms, BACKOFF_MS))
        } else {
            m.locked_until_unix_ms
        },
        ..m
    }
}

/// The material after a successful unlock: counter and wait cleared.
pub open spec fn after_success(m: KeyMaterial) -> KeyMaterial {
    KeyMaterial { failed_attempts: 0, locked_until_unix_ms: None, ..m }
}

/// Whether `m` holds `dek` wrapped under the key `pin` derives: what
/// [`KeyMaterial::create`] makes, and what unlocking with that PIN recovers.
pub open spec fn sealed_for(pin: Seq<char>, m: KeyMaterial, dek: Seq<u8>) -> bool {
    &&& dek.len() == crate::crypto::dek::DEK_LEN
    &&& match derived_key(pin, m.kdf) {
        Some(k) => wraps(k, m.wrapped_dek, dek),
        None => false,
    }
}

impl KeyMaterial {
    /// A fresh file's contents: a new salt, the DEK wrapped under this PIN, and
    /// a clean counter.
    pub fn create(pin: &Pin, dek: &Dek) -> (r: Result<KeyMaterial, ClipError>)
        ensures
            r matches Ok(m) ==> {
                &&& m.failed_attempts == 0
                &&& m.locked_until_unix_ms is None
                &&& m.kdf.m_cost_kib == kdf::DEFAULT_M_COST_KIB
                &&& m.kdf.t_cost == kdf::DEFAULT_T_COST
                &&& m.kdf.p_cost == kdf::P_COST
                &&& sealed_for(pin@, m, dek@)
            },
            r matches Err(e) ==> e@ == ErrorView::Storage || e@ == (ErrorView::Crypto {
                reason: CryptoReason::BadKeyMaterial,
            }),
    {
        let kdf = KdfParams::generate()?;
        let mut key = kdf::derive(pin, &kdf)?;
        let wrapped = wrap::wrap(&key, dek);
        key.wipe();
        let wrapped_dek = wrapped?;
        let m = KeyMaterial { kdf, wrapped_dek, failed_attempts: 0, locked_until_unix_ms: None };
        proof { crate::crypto::dek::lemma_dek_len(*dek); }
        Ok(m)
    }

    /// Attempts left before a wait engages. Never negative.
    pub fn attempts_remaining(&self) -> (r: u32)
        ensures
            r == attempts_left(self.failed_attempts),
    {
        if self.failed_attempts >= MAX_ATTEMPTS { 0 } else { MAX_ATTEMPTS - self.failed_attempts }
    }

    /// The wait still to run at `now_ms`, or `None`. The clock is a parameter
    /// so the arithmetic is testable without waiting.
    pub fn backoff_remaining_ms(&self, now_ms: u64) -> (r: Option<u64>)
        ensures
            r == backoff_left(self.locked_until_unix_ms, now_ms),
    {
        match self.locked_until_unix_ms {
            Some(deadline) => if deadline > now_ms { Some(deadline - now_ms) } else { None },
            None => None,
        }
    }

    /// Record a wrong PIN at `now_ms`.
    pub fn record_failure(&mut self, now_ms: u64)
        ensures
            *final(self) == after_failure(*old(self), now_ms),
    {
        self.failed_attempts = self.failed_attempts.saturating_add(1);
        if self.failed_attempts >= MAX_ATTEMPTS {
            self.locked_until_unix_ms = Some(now_ms.saturating_add(BACKOFF_MS));
        }
    }

    /// Record a successful unlock: the counter and any wait are cleared.
    pub fn record_success(&mut self)
        ensures
            *final(self) == after_success(*old(self)),
    {
        self.failed_attempts = 0;
        self.locked_until_unix_ms = None;
    }
}

/// Milliseconds since the Unix epoch by the system clock
/// (`SystemTime::now().duration_since(UNIX_EPOCH)`), `None` for a clock set
/// before the epoch. The clock is the machine's, so nothing is claimed of it.
#[verifier::external_body]
fn clock_millis() -> Option<u128> {
    SystemTime::now().duration_since(UNIX_EPOCH).ok().map(|elapsed| elapsed.as_millis())
}

/// Wall-clock milliseconds since the Unix epoch, from a clock reading: a clock
/// before the epoch reads as 0, which expires any pending wait, and a reading
/// past `u64::MAX` saturates.
pub fn millis_from_reading(reading: Option<u128>) -> (r: u64)
    ensures
        r == match reading {
            Some(ms) => if ms > u64::MAX { u64::MAX } else { ms as u64 },
            None => 0u64,
        },
{
    match reading {
        Some(ms) => if ms > u64::MAX as u128 { u64::MAX } else { ms as u64 },
        None => 0,
    }
}

/// Wall-clock milliseconds since the Unix epoch.
pub fn now_unix_ms() -> u64 {
    millis_from_reading(clock_millis())
}

/// What a `keyfile`'s bytes say before anything is decrypted: the protected
/// blob after the version byte, or the error the version byte calls for.
pub open spec fn framed_blob(bytes: Seq<u8>) -> Result<Seq<u8>, ErrorView> {
    if bytes.len() == 0 {
        Err(ErrorView::Crypto { reason: CryptoReason::BadKeyMaterial })
    } else if bytes[0] == 0 {
        Err(ErrorView::Crypto { reason: CryptoReason::BadKeyMaterial })
    } else if bytes[0] > KEYFILE_VERSION {
        Err(ErrorView::UnsupportedVersion {
            component: VersionComponent::KeyMaterial,
            found: bytes[0] as i64,
            supported: KEYFILE_VERSION as i64,
        })
    } else {
        Ok(bytes.subrange(1, bytes.len() as int))
    }
}

/// Judge a `keyfile`'s version byte and hand back the protected blob.
///
/// | Bytes | Result |
/// | ----- | ------ |
/// | Empty | `crypto { bad_key_material }` |
/// | Leading byte 0 | `crypto { bad_key_material }`: no build wrote this file |
/// | Leading byte above this build's | `unsupported_version { key_material }` |
/// | Otherwise | the bytes after the version byte |
pub fn unframe(bytes: &[u8]) -> (r: Result<Vec<u8>, ClipError>)
    ensures
        match framed_blob(bytes@) {
            Ok(blob) => r matches Ok(v) && v@ == blob,
            Err(e) => r matches Err(got) && got@ == e,
        },
{
    if bytes.len() == 0 {
        return Err(ClipError::Crypto { reason: CryptoReason::BadKeyMaterial });
    }
    let version = bytes[0];
    if version == 0 {
        return Err(ClipError::Crypto { reason: CryptoReason::BadKeyMaterial });
    }
    if version > KEYFILE_VERSION {
        return Err(ClipError::UnsupportedVersion {
            component: VersionComponent::KeyMaterial,
            found: version as i64,
            supported: KEYFILE_VERSION as i64,
        });
    }
    let mut blob: Vec<u8> = Vec::new();
    let mut i: usize = 1;
    while i < bytes.len()
        invariant
            1 <= i <= bytes@.len(),
            blob@ == bytes@.subrange(1, i as int),
        decreases bytes@.len() - i,
    {
        blob.push(bytes[i]);
        i = i + 1;
    }
    Ok(blob)
}

/// The key material an unprotected blob gives, once parsed: `None` is a blob
/// that is not the expected JSON, which is `crypto { bad_key_material }`; so
/// are parameters this build will not run. The parameters are checked here,
/// so every reader gets the check and no caller has to remember it.
pub fn accept_parsed(parsed: Option<KeyMaterial>) -> (r: Result<KeyMaterial, ClipError>)
    ensures
        match parsed {
            Some(m) => if kdf::params_acceptable(m.kdf.m_cost_kib, m.kdf.t_cost, m.kdf.p_cost) {
                r == Ok::<KeyMaterial, ClipError>(m)
            } else {
                r matches Err(e) && e@ == (ErrorView::Crypto { reason: CryptoReason::BadKeyMaterial })
            },
            None => r matches Err(e) && e@ == (ErrorView::Crypto { reason: CryptoReason::BadKeyMaterial }),
        },
{
    match parsed {
        Some(material) => {
            material.kdf.validate()?;
            Ok(material)
        },
        None => Err(ClipError::Crypto { reason: CryptoReason::BadKeyMaterial }),
    }
}

/// The bytes a `keyfile` holds for a protected blob: this build's version
/// byte, then the blob.
pub fn frame(protected: &[u8]) -> (r: Vec<u8>)
    ensures
        r@ == seq![KEYFILE_VERSION].add(protected@),
{
    let mut file: Vec<u8> = Vec::new();
    file.push(KEYFILE_VERSION);
    let mut i: usize = 0;
    while i < protected.len()
        invariant
            i <= protected@.len(),
            file@ == seq![KEYFILE_VERSION].add(protected@.subrange(0, i as int)),
        decreases protected@.len() - i,
    {
        file.push(protected[i]);
        i = i + 1;
    }
    assert(protected@.subrange(0, protected@.len() as int) =~= protected@);
    file
}

/// **What `frame` writes, `unframe` reads back.**
pub proof fn lemma_unframe_inverts_frame(protected: Seq<u8>)
    ensures
        framed_blob(seq![KEYFILE_VERSION].add(protected)) == Ok::<Seq<u8>, ErrorView>(protected),
{
    let bytes = seq![KEYFILE_VERSION].add(protected);
    assert(bytes.subrange(1, bytes.len() as int) =~= protected);
}

/// `crypto { bad_key_material }`.
pub fn bad_key_material() -> (e: ClipError)
    ensures
        e@ == (ErrorView::Crypto { reason: CryptoReason::BadKeyMaterial }),
{
    ClipError::Crypto { reason: CryptoReason::BadKeyMaterial }
}

// ---- the backoff, as laws ----

/// A clean counter has five attempts and no wait.
pub proof fn lemma_clean_counter(m: KeyMaterial, now_ms: u64)
    requires
        m.failed_attempts == 0,
        m.locked_until_unix_ms is None,
    ensures
        attempts_left(m.failed_attempts) == MAX_ATTEMPTS,
        backoff_left(m.locked_until_unix_ms, now_ms) is None,
{
}

/// The first four failures count down and arm nothing.
pub proof fn lemma_early_failures_count_down(m: KeyMaterial, now_ms: u64)
    requires
        m.failed_attempts < MAX_ATTEMPTS - 1,
        m.locked_until_unix_ms is None,
    ensures
        attempts_left(after_failure(m, now_ms).failed_attempts) == attempts_left(m.failed_attempts) - 1,
        after_failure(m, now_ms).locked_until_unix_ms is None,
{
}

/// **The fifth failure and every one after it arm exactly the same wait**,
/// measured from the moment of the failure. No doubling, no ceiling, and the
/// allowance reads zero.
pub proof fn lemma_flat_wait(m: KeyMaterial, now_ms: u64)
    requires
        m.failed_attempts >= MAX_ATTEMPTS - 1,
        now_ms + BACKOFF_MS <= u64::MAX,
    ensures
        attempts_left(after_failure(m, now_ms).failed_attempts) == 0,
        backoff_left(after_failure(m, now_ms).locked_until_unix_ms, now_ms) == Some(BACKOFF_MS),
        backoff_left(after_failure(m, now_ms).locked_until_unix_ms, (now_ms + BACKOFF_MS) as u64) is None,
{
}

/// A wait counts down with the clock and then expires.
pub proof fn lemma_wait_counts_down(deadline: u64, now_ms: u64)
    ensures
        now_ms < deadline ==> backoff_left(Some(deadline), now_ms) == Some((deadline - now_ms) as u64),
        now_ms >= deadline ==> backoff_left(Some(deadline), now_ms) is None,
{
}

/// A success clears both the counter and the wait, whatever came before.
pub proof fn lemma_success_clears(m: KeyMaterial, now_ms: u64)
    ensures
        attempts_left(after_success(m).failed_attempts) == MAX_ATTEMPTS,
        backoff_left(after_success(m).locked_until_unix_ms, now_ms) is None,
        after_success(m).kdf == m.kdf,
        after_success(m).wrapped_dek == m.wrapped_dek,
{
}

/// A failure never changes the wrapped key or the KDF parameters: twenty wrong
/// PINs leave the wrapped DEK byte for byte what it was. And a counter at its
/// ceiling stays there rather than wrapping to a fresh allowance.
pub proof fn lemma_failure_keeps_the_key(m: KeyMaterial, now_ms: u64)
    ensures
        after_failure(m, now_ms).kdf == m.kdf,
        after_failure(m, now_ms).wrapped_dek == m.wrapped_dek,
        after_failure(m, now_ms).failed_attempts >= m.failed_attempts,
        m.failed_attempts == u32::MAX ==> after_failure(m, now_ms).failed_attempts == u32::MAX,
{
}

} // verus!
