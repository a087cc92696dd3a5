//! Lock state, and the decisions behind `get_lock_state`, `unlock` and `lock`.
//!
//! `unlock` is the launch path, and the only one: read `keyfile`, check the
//! wait, derive and unwrap, open, count. The order is fixed, and the wait is
//! checked **before** the PIN is evaluated, so that a correct PIN entered
//! early neither succeeds nor resets the wait. Nothing is ever wiped: a wrong
//! PIN costs an attempt and nothing else.

use vstd::prelude::*;

use crate::commands::wire::LockState;
use crate::crypto::dek::{Dek, DEK_LEN};
use crate::crypto::kdf::{self, derived_key};
use crate::crypto::keyfile::{after_failure, attempts_left, backoff_left, sealed_for, KeyMaterial, BACKOFF_MS, MAX_ATTEMPTS};
use crate::crypto::wrap::{self, unwrap_outcome, wraps};
use crate::crypto::Pin;
use crate::error::{ClipError, CryptoReason, ErrorView, RequiredState};
use crate::storage::classify::Classification;
use crate::storage::status::{locked, Status, StatusView};

verus! {

/// What a PIN gives against key material: `Ok(Some(dek))` when it unwraps
/// the key, `Ok(None)` when it does not, `Err` when the material is broken.
/// The AEAD tag decides, so the answer is exact rather than a guess about
/// whether the output looks like a key.
pub open spec fn pin_verdict(pin: Seq<char>, m: KeyMaterial) -> Result<Option<Seq<u8>>, ErrorView> {
    match derived_key(pin, m.kdf) {
        None => Err(ErrorView::Crypto { reason: CryptoReason::BadKeyMaterial }),
        Some(k) => unwrap_outcome(k, m.wrapped_dek),
    }
}

/// Derive the wrapping key from a PIN and unwrap the DEK with it.
pub fn try_pin(pin: &Pin, material: &KeyMaterial) -> (r: Result<Option<Dek>, ClipError>)
    ensures
        match pin_verdict(pin@, *material) {
            Ok(None) => r matches Ok(None),
            Ok(Some(bytes)) => r matches Ok(Some(d)) && d@ == bytes,
            Err(e) => r matches Err(got) && got@ == e,
        },
        // The PIN the material was made with recovers exactly its key.
        forall|dek: Seq<u8>| #[trigger] sealed_for(pin@, *material, dek) ==> (r matches Ok(Some(d)) && d@ == dek),
{
    let mut wrapping = kdf::derive(pin, &material.kdf)?;
    let r = wrap::unwrap(&wrapping, &material.wrapped_dek);
    let ghost derived = wrapping@;
    assert forall|dek: Seq<u8>| #[trigger] sealed_for(pin@, *material, dek) implies (r matches Ok(Some(d)) && d@ == dek) by {
        assert(wraps(derived, material.wrapped_dek, dek) && dek.len() == DEK_LEN);
    }
    wrapping.wipe();
    r
}

/// Step 2 of `unlock`: there must be something to unlock. Not a silent
/// success over an unlocked store, because that would accept a wrong PIN.
pub fn check_unlockable(status: &Status) -> (r: Result<(), ClipError>)
    ensures
        status@.classification != Classification::Encrypted ==> (r matches Err(e)
            && e@ == (ErrorView::WrongState { required: RequiredState::Encrypted })),
        status@.classification == Classification::Encrypted && !locked(status@) ==> (r matches Err(e)
            && e@ == (ErrorView::WrongState { required: RequiredState::Locked })),
        r is Ok <==> locked(status@),
{
    if !status.encryption_enabled() {
        return Err(ClipError::WrongState { required: RequiredState::Encrypted });
    }
    if !status.is_locked() {
        return Err(ClipError::WrongState { required: RequiredState::Locked });
    }
    Ok(())
}

/// Steps 4 and 5 of `unlock`: a wait already running is `backoff` and the
/// PIN is **not evaluated**; otherwise the PIN is tried.
pub fn attempt(pin: &Pin, material: &KeyMaterial, now_ms: u64) -> (r: Result<Option<Dek>, ClipError>)
    ensures
        match backoff_left(material.locked_until_unix_ms, now_ms) {
            Some(wait) => r matches Err(e) && e@ == (ErrorView::Backoff { retry_after_ms: wait }),
            None => match pin_verdict(pin@, *material) {
                Ok(None) => r matches Ok(None),
                Ok(Some(bytes)) => r matches Ok(Some(d)) && d@ == bytes,
                Err(e) => r matches Err(got) && got@ == e,
            },
        },
        backoff_left(material.locked_until_unix_ms, now_ms) is None ==> forall|dek: Seq<u8>|
            #[trigger] sealed_for(pin@, *material, dek) ==> (r matches Ok(Some(d)) && d@ == dek),
{
    if let Some(remaining) = material.backoff_remaining_ms(now_ms) {
        return Err(ClipError::Backoff { retry_after_ms: remaining });
    }
    try_pin(pin, material)
}

/// The `bad_pin` a wrong PIN answers with, given whether the counted attempt
/// reached the disk. **The number reported is the one on disk**: if the write
/// failed the increment did not persist, and reporting it anyway would put
/// the frontend and the file into disagreement about the value the wait is
/// derived from. The attempt that exhausts the allowance reports the wait it
/// just armed.
pub open spec fn wrong_pin_view(m: KeyMaterial, now_ms: u64, persisted: bool) -> ErrorView {
    let on_disk = if persisted { after_failure(m, now_ms) } else { m };
    let left = attempts_left(on_disk.failed_attempts);
    ErrorView::BadPin {
        attempts_remaining: Some(left),
        retry_after_ms: if left == 0 { Some(BACKOFF_MS) } else { None },
    }
}

/// **A wrong PIN reports the count on disk, and a wait only once the
/// attempts are spent.** The attempts left are five less the failures on
/// disk (the one just counted included, when it reached the disk), never
/// below zero; a thirty-second wait is reported exactly when none are left.
/// So the first four wrong PINs of a clean counter report no wait.
pub proof fn lemma_wrong_pin_reports_the_count_on_disk(m: KeyMaterial, now_ms: u64, persisted: bool)
    ensures
        wrong_pin_view(m, now_ms, persisted) matches ErrorView::BadPin { attempts_remaining: Some(left), retry_after_ms: retry }
            && ({
                let failed: int = if persisted { if m.failed_attempts as int + 1 > u32::MAX { u32::MAX as int } else { m.failed_attempts + 1 } }
                    else { m.failed_attempts as int };
                left == (if failed >= 5 { 0 } else { 5 - failed })
            })
            && (retry is Some <==> left == 0)
            && (retry matches Some(w) ==> w == 30000),
        persisted && m.failed_attempts < 4 ==> (wrong_pin_view(m, now_ms, persisted) matches ErrorView::BadPin {
            attempts_remaining: Some(left),
            retry_after_ms: None,
        } && left == 4 - m.failed_attempts),
{
}

/// Build the answer to a wrong PIN.
pub fn wrong_pin(material: &KeyMaterial, now_ms: u64, persisted: bool) -> (e: ClipError)
    ensures
        e@ == wrong_pin_view(*material, now_ms, persisted),
        e matches ClipError::BadPin { attempts_remaining: Some(left), retry_after_ms: retry }
            && (retry is Some <==> left == 0),
{
    let failed = if persisted { material.failed_attempts.saturating_add(1) } else { material.failed_attempts };
    let left = if failed >= MAX_ATTEMPTS { 0 } else { MAX_ATTEMPTS - failed };
    ClipError::BadPin {
        attempts_remaining: Some(left),
        retry_after_ms: if left == 0 { Some(BACKOFF_MS) } else { None },
    }
}

/// Whether a successful unlock has a counter to clear. A clean counter is
/// not rewritten.
pub fn needs_reset(material: &KeyMaterial) -> (r: bool)
    ensures
        r == (material.failed_attempts != 0 || material.locked_until_unix_ms is Some),
{
    material.failed_attempts != 0 || material.locked_until_unix_ms.is_some()
}

/// The lock state a store reports. `keyfile` is read only when the store is
/// locked: `attempts_remaining` is `None` whenever `locked` is false, so
/// there is nothing to read it for, and an unlocked session must not fail
/// over key material it does not need.
pub open spec fn lock_state_view(
    status_locked: bool,
    encrypted: bool,
    material: Option<Result<KeyMaterial, ClipError>>,
    now_ms: u64,
) -> Result<LockState, ErrorView> {
    if !encrypted {
        Ok(LockState { encryption_enabled: false, locked: false, attempts_remaining: None, retry_after_ms: None })
    } else if !status_locked {
        Ok(LockState { encryption_enabled: true, locked: false, attempts_remaining: None, retry_after_ms: None })
    } else {
        match material {
            Some(Ok(m)) => Ok(LockState {
                encryption_enabled: true,
                locked: true,
                attempts_remaining: Some(attempts_left(m.failed_attempts)),
                retry_after_ms: backoff_left(m.locked_until_unix_ms, now_ms),
            }),
            Some(Err(e)) => Err(e@),
            None => Err(ErrorView::Internal),
        }
    }
}

/// **The lock state says what the store is.** Whatever the status, key
/// material and clock, a lock state that is reported says PIN protection is
/// on exactly when the store is encrypted, and locked exactly when it is
/// encrypted and not unlocked; a store that is not locked always has one to
/// report, with no attempt count and no wait.
pub proof fn lemma_lock_state_reports_the_status(
    s: StatusView,
    material: Option<Result<KeyMaterial, ClipError>>,
    now_ms: u64,
)
    ensures
        lock_state_view(locked(s), s.classification == Classification::Encrypted, material, now_ms) matches Ok(st)
            ==> st.encryption_enabled == (s.classification == Classification::Encrypted)
                && st.locked == (s.classification == Classification::Encrypted && !s.unlocked),
        !locked(s) ==> (lock_state_view(locked(s), s.classification == Classification::Encrypted, material, now_ms)
            matches Ok(st) && st.attempts_remaining is None && st.retry_after_ms is None),
{
}

/// Whether deriving the lock state needs `keyfile` read.
pub fn reads_key_material(status: &Status) -> (r: bool)
    ensures
        r == locked(status@),
{
    status.is_locked()
}

/// **The lock state, derived from the store. One function, one spelling**:
/// what `get_lock_state` answers and every `lock_state` emission carries.
/// `material` is what reading `keyfile` gave, read exactly when
/// [`reads_key_material`] says so; a read that fails while locked is
/// reported, because then the counter is the answer.
pub fn lock_state(status: &Status, material: Option<Result<KeyMaterial, ClipError>>, now_ms: u64) -> (r: Result<LockState, ClipError>)
    requires
        locked(status@) ==> material is Some,
    ensures
        match lock_state_view(locked(status@), status@.classification == Classification::Encrypted, material, now_ms) {
            Ok(s) => r == Ok::<LockState, ClipError>(s),
            Err(e) => r matches Err(got) && got@ == e,
        },
        r matches Ok(s) ==> s.encryption_enabled == (status@.classification == Classification::Encrypted)
            && s.locked == locked(status@),
        !locked(status@) ==> r is Ok,
{
    if !status.encryption_enabled() {
        return Ok(LockState::unencrypted());
    }
    if !status.is_locked() {
        return Ok(LockState::unlocked());
    }
    match material {
        Some(Ok(m)) => Ok(LockState {
            encryption_enabled: true,
            locked: true,
            attempts_remaining: Some(m.attempts_remaining()),
            retry_after_ms: m.backoff_remaining_ms(now_ms),
        }),
        Some(Err(error)) => Err(error),
        None => Err(ClipError::Internal),
    }
}

/// `get_lock_state`: the recorded fault, relayed verbatim, or the lock state.
pub fn get_lock_state(status: &Status, material: Option<Result<KeyMaterial, ClipError>>, now_ms: u64) -> (r: Result<LockState, ClipError>)
    requires
        status@.fault is None && locked(status@) ==> material is Some,
    ensures
        match status@.fault {
            Some(f) => r matches Err(got) && got@ == f,
            None => match lock_state_view(locked(status@), status@.classification == Classification::Encrypted, material, now_ms) {
                Ok(s) => r == Ok::<LockState, ClipError>(s),
                Err(e) => r matches Err(got) && got@ == e,
            },
        },
{
    match status.startup_fault() {
        Some(fault) => Err(fault),
        None => lock_state(status, material, now_ms),
    }
}

/// **A wrong PIN is counted, and the fifth and every later one reports the
/// wait it arms**: once a persisted failure brings the count to the limit,
/// the answer has no attempts left and a thirty-second wait.
pub proof fn lemma_exhausting_attempt_reports_the_wait(m: KeyMaterial, now_ms: u64)
    requires
        m.failed_attempts >= 4,
    ensures
        wrong_pin_view(m, now_ms, true) == (ErrorView::BadPin {
            attempts_remaining: Some(0),
            retry_after_ms: Some(BACKOFF_MS),
        }),
{
}

/// **A failed write reports the count that is on disk**: the attempts left
/// are the ones before the unrecorded failure.
pub proof fn lemma_unpersisted_failure_is_not_reported(m: KeyMaterial, now_ms: u64)
    ensures
        wrong_pin_view(m, now_ms, false) matches ErrorView::BadPin { attempts_remaining, .. }
            && attempts_remaining == Some(attempts_left(m.failed_attempts)),
{
}

} // verus!
