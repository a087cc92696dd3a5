//! The decisions behind `enable_encryption`, `disable_encryption` and
//! `change_pin`: the state each requires, the PIN checks, and the proof that
//! new key material opens before it replaces anything.
//!
//! **Key material that cannot be unwrapped is discovered while nothing has
//! been lost**: before a conversion's commit point, and before the old file is
//! replaced. An encrypted store whose only key does not open it is
//! unrecoverable by design: there is no reset and no backdoor.

use vstd::prelude::*;

use crate::commands::lock::{pin_verdict, try_pin};
use crate::crypto::keyfile::{sealed_for, KeyMaterial};
use crate::crypto::{Dek, Pin};
use crate::error::{ClipError, CryptoReason, ErrorView, RequiredState};
use crate::storage::classify::Classification;
use crate::storage::status::{locked, Status};

verus! {

/// `crypto { bad_key_material }`.
pub open spec fn bad_key_material_view() -> ErrorView {
    ErrorView::Crypto { reason: CryptoReason::BadKeyMaterial }
}

/// `enable_encryption`'s state checks: a store this process can read, and
/// one that is not already encrypted. A recorded fault is relayed rather
/// than converted over.
pub fn check_enable(status: &Status) -> (r: Result<(), ClipError>)
    ensures
        match status@.fault {
            Some(f) => r matches Err(e) && e@ == f,
            None => if status@.classification == Classification::Encrypted {
                r matches Err(e) && e@ == (ErrorView::WrongState { required: RequiredState::Unencrypted })
            } else {
                r is Ok
            },
        },
{
    if let Some(fault) = status.startup_fault() {
        return Err(fault);
    }
    if status.encryption_enabled() {
        return Err(ClipError::WrongState { required: RequiredState::Unencrypted });
    }
    Ok(())
}

/// `disable_encryption`'s state checks: encrypted, unlocked, and no fault.
pub fn check_disable(status: &Status) -> (r: Result<(), ClipError>)
    ensures
        status@.classification != Classification::Encrypted ==> (r matches Err(e)
            && e@ == (ErrorView::WrongState { required: RequiredState::Encrypted })),
        status@.classification == Classification::Encrypted && locked(status@) ==> (r matches Err(e)
            && e@ == ErrorView::Locked),
        status@.classification == Classification::Encrypted && !locked(status@) ==> match status@.fault {
            Some(f) => r matches Err(e) && e@ == f,
            None => r is Ok,
        },
{
    if !status.encryption_enabled() {
        return Err(ClipError::WrongState { required: RequiredState::Encrypted });
    }
    if status.is_locked() {
        return Err(ClipError::Locked);
    }
    if let Some(fault) = status.startup_fault() {
        return Err(fault);
    }
    Ok(())
}

/// `change_pin`'s state checks: encrypted and unlocked.
pub fn check_change_pin(status: &Status) -> (r: Result<(), ClipError>)
    ensures
        status@.classification != Classification::Encrypted ==> (r matches Err(e)
            && e@ == (ErrorView::WrongState { required: RequiredState::Encrypted })),
        status@.classification == Classification::Encrypted && locked(status@) ==> (r matches Err(e)
            && e@ == ErrorView::Locked),
        r is Ok <==> (status@.classification == Classification::Encrypted && !locked(status@)),
{
    if !status.encryption_enabled() {
        return Err(ClipError::WrongState { required: RequiredState::Encrypted });
    }
    if status.is_locked() {
        return Err(ClipError::Locked);
    }
    Ok(())
}

/// Check a PIN against the stored key material: the same authenticated
/// check `unlock` makes. `bad_pin` here carries `None` for both fields: these
/// commands are not subject to the wait and do not touch the counter, because
/// the caller is already unlocked.
pub fn check_pin(pin: &Pin, material: &KeyMaterial) -> (r: Result<Dek, ClipError>)
    ensures
        match pin_verdict(pin@, *material) {
            Ok(Some(bytes)) => r matches Ok(d) && d@ == bytes,
            Ok(None) => r matches Err(e) && e@ == (ErrorView::BadPin { attempts_remaining: None, retry_after_ms: None }),
            Err(e) => r matches Err(got) && got@ == e,
        },
        forall|dek: Seq<u8>| #[trigger] sealed_for(pin@, *material, dek) ==> (r matches Ok(d) && d@ == dek),
{
    match try_pin(pin, material)? {
        Some(dek) => Ok(dek),
        None => Err(ClipError::BadPin { attempts_remaining: None, retry_after_ms: None }),
    }
}

/// Assert that key material unwraps to `dek` under `pin`: not merely that it
/// parses, but that the key it recovers is this one.
pub fn prove_in_memory(material: &KeyMaterial, pin: &Pin, dek: &Dek) -> (r: Result<(), ClipError>)
    ensures
        match pin_verdict(pin@, *material) {
            Ok(Some(bytes)) => if bytes == dek@ { r is Ok } else { r matches Err(e) && e@ == bad_key_material_view() },
            Ok(None) => r matches Err(e) && e@ == bad_key_material_view(),
            Err(e) => r matches Err(got) && got@ == e,
        },
        sealed_for(pin@, *material, dek@) ==> r is Ok,
{
    match try_pin(pin, material)? {
        Some(recovered) => if recovered.same_key(dek) {
            Ok(())
        } else {
            Err(ClipError::Crypto { reason: CryptoReason::BadKeyMaterial })
        },
        None => Err(ClipError::Crypto { reason: CryptoReason::BadKeyMaterial }),
    }
}

/// `change_pin`'s re-wrap, proved in memory before the file is touched: the
/// current PIN is checked against the stored material, the same DEK is
/// wrapped under the new PIN with a **fresh salt** (two PINs for one store
/// must not share a derivation), and the new wrap is shown to open. The
/// database is not re-encrypted.
pub fn rewrap(current_pin: &Pin, new_pin: &Pin, material: &KeyMaterial) -> (r: Result<(Dek, KeyMaterial), ClipError>)
    ensures
        match pin_verdict(current_pin@, *material) {
            // Stored material that cannot be read is reported as what it is,
            // never as a wrong PIN.
            Err(x) => r matches Err(e) && e@ == x,
            Ok(None) => r matches Err(e) && e@ == (ErrorView::BadPin { attempts_remaining: None, retry_after_ms: None }),
            // The current PIN opened the material: the result is that key under
            // the new PIN, or the failure of making the new material (a random
            // generator that fails, or parameters the KDF refuses).
            Ok(Some(bytes)) => match r {
                Ok((dek, m)) => {
                    &&& dek@ == bytes
                    &&& sealed_for(new_pin@, m, dek@)
                    &&& m.failed_attempts == 0
                    &&& m.locked_until_unix_ms is None
                },
                Err(e) => e@ == ErrorView::Storage || e@ == bad_key_material_view(),
            },
        },
{
    let dek = check_pin(current_pin, material)?;
    let rewrapped = KeyMaterial::create(new_pin, &dek)?;
    prove_in_memory(&rewrapped, new_pin, &dek)?;
    Ok((dek, rewrapped))
}

} // verus!
