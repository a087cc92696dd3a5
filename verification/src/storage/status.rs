//! Everything about the store that is not the connection itself: its
//! classification, whether it is unlocked, the live DEK and the recorded
//! fault — and the rules every command follows against them.
//!
//! The connection sits behind its own mutex where the database is reached;
//! each rule here answers what to do with it.

use vstd::prelude::*;

use crate::crypto::Dek;
use crate::error::{ClipError, ErrorView, RequiredState};
use crate::storage::classify::Classification;
use crate::storage::recovery::{fault_view, Recovered};

verus! {

/// The store's state.
pub struct Status {
    classification: Classification,
    unlocked: bool,
    dek: Option<Dek>,
    fault: Option<ClipError>,
}

/// A [`Status`], taken by its views.
pub struct StatusView {
    /// Established at startup recovery and replaced only at a conversion's
    /// commit.
    pub classification: Classification,
    /// Whether a DEK is live. Always true for a store that is not encrypted
    /// and was located; every launch of an encrypted store starts locked.
    pub unlocked: bool,
    /// The live key: `None` for a plaintext or locked store.
    pub dek: Option<Seq<u8>>,
    /// The fault startup recovery (or a conversion) recorded.
    pub fault: Option<ErrorView>,
}

impl View for Status {
    type V = StatusView;

    closed spec fn view(&self) -> StatusView {
        StatusView {
            classification: self.classification,
            unlocked: self.unlocked,
            dek: match self.dek {
                Some(d) => Some(d@),
                None => None,
            },
            fault: fault_view(self.fault),
        }
    }
}

/// What the store becomes at a conversion's commit point. Both leave it
/// unlocked: enabling has just been given the PIN, and a plaintext store has
/// no lock to be in.
pub enum Becoming {
    /// `enable_encryption`, under this freshly minted key.
    Encrypted(Dek),
    /// `disable_encryption`.
    Plaintext,
}

/// Whether a state is encrypted and not open.
pub open spec fn locked(s: StatusView) -> bool {
    s.classification == Classification::Encrypted && !s.unlocked
}

/// The invariant: a key is live only in an encrypted, unlocked store.
pub open spec fn key_only_when_open(s: StatusView) -> bool {
    s.dek is Some ==> (s.classification == Classification::Encrypted && s.unlocked)
}

/// Why the store is closed, for a caller that reached it unlocked: the
/// recorded fault, or `storage` where none was recorded.
pub open spec fn closed_store_fault(s: StatusView) -> ErrorView {
    match s.fault {
        Some(f) => f,
        None => ErrorView::Storage,
    }
}

/// The state after a conversion committed.
pub open spec fn committed_state(becoming: Option<Seq<u8>>) -> StatusView {
    StatusView {
        classification: if becoming is Some { Classification::Encrypted } else { Classification::Plaintext },
        unlocked: true,
        dek: becoming,
        fault: None,
    }
}

/// The state after a lock took effect.
pub open spec fn locked_state(s: StatusView) -> StatusView {
    StatusView { unlocked: false, dek: None, ..s }
}

impl Status {
    /// The state startup recovery established. No launch starts with a key:
    /// an encrypted store is locked until a PIN unwraps one.
    pub fn recovered(recovered: Recovered) -> (r: Status)
        ensures
            r@.classification == recovered.classification,
            r@.unlocked == (recovered.classification != Classification::Encrypted),
            r@.dek is None,
            r@.fault == fault_view(recovered.fault),
            key_only_when_open(r@),
    {
        let unlocked = !recovered.classification.is_encrypted();
        Status {
            classification: recovered.classification,
            unlocked,
            dek: None,
            fault: recovered.fault,
        }
    }

    /// A store that could not be located at all: `unreadable`, closed, and
    /// carrying the fault.
    pub fn faulted(fault: ClipError) -> (r: Status)
        ensures
            r@ == (StatusView {
                classification: Classification::Unreadable,
                unlocked: false,
                dek: None,
                fault: Some(fault@),
            }),
    {
        Status { classification: Classification::Unreadable, unlocked: false, dek: None, fault: Some(fault) }
    }

    pub fn classification(&self) -> (r: Classification)
        ensures
            r == self@.classification,
    {
        self.classification
    }

    /// Whether the store on disk is encrypted. Read from the classification,
    /// which comes from the database header, never from the presence of a
    /// `keyfile`.
    pub fn encryption_enabled(&self) -> (r: bool)
        ensures
            r == (self@.classification == Classification::Encrypted),
    {
        self.classification.is_encrypted()
    }

    /// Whether the store is encrypted and not open.
    pub fn is_locked(&self) -> (r: bool)
        ensures
            r == locked(self@),
    {
        self.classification.is_encrypted() && !self.unlocked
    }

    /// The recorded fault, if any.
    pub fn startup_fault(&self) -> (r: Option<ClipError>)
        ensures
            fault_view(r) == self@.fault,
    {
        match &self.fault {
            Some(fault) => Some(fault.clone()),
            None => None,
        }
    }

    /// The live key, if the store is encrypted and unlocked.
    pub fn dek(&self) -> (r: Option<Dek>)
        ensures
            match r {
                Some(d) => self@.dek == Some(d@),
                None => self@.dek is None,
            },
    {
        match &self.dek {
            Some(dek) => Some(dek.clone()),
            None => None,
        }
    }

    /// Whether the live key is `dek`.
    pub fn holds_dek(&self, dek: &Dek) -> (r: bool)
        ensures
            r == (self@.dek == Some(dek@)),
    {
        match &self.dek {
            Some(held) => held.same_key(dek),
            None => false,
        }
    }

    /// Why the store is closed, for a caller that reached it unlocked.
    pub fn fault_for_a_closed_store(&self) -> (e: ClipError)
        ensures
            e@ == closed_store_fault(self@),
    {
        match &self.fault {
            Some(fault) => fault.clone(),
            None => ClipError::Storage,
        }
    }

    /// **The shared lock guard**: whether a command that needs the store may
    /// run, given whether the connection is held. Lock state is asked twice,
    /// before queuing for the connection and again after it is taken, so a
    /// concurrent `lock` gives `locked` rather than a torn write. A command
    /// either completes in full or returns `locked`.
    pub fn guard(&self, open: bool) -> (r: Result<(), ClipError>)
        ensures
            locked(self@) ==> (r matches Err(e) && e@ == ErrorView::Locked),
            !locked(self@) && !open ==> (r matches Err(e) && e@ == closed_store_fault(self@)),
            r is Ok <==> (!locked(self@) && open),
    {
        if self.is_locked() {
            return Err(ClipError::Locked);
        }
        if !open {
            return Err(self.fault_for_a_closed_store());
        }
        Ok(())
    }

    /// **Lock: give up the key** (the connection is closed by the caller when
    /// this answers `Ok(true)`).
    ///
    /// Refused with `wrong_state { encrypted }` over a store that is not
    /// encrypted; idempotent over one already locked (`Ok(false)`, nothing
    /// changes). Once locking begins it cannot fail.
    pub fn lock(&mut self) -> (r: Result<bool, ClipError>)
        ensures
            old(self)@.classification != Classification::Encrypted ==> (r matches Err(e)
                && e@ == (ErrorView::WrongState { required: RequiredState::Encrypted })
                && final(self)@ == old(self)@),
            locked(old(self)@) ==> (r == Ok::<bool, ClipError>(false) && final(self)@ == old(self)@),
            old(self)@.classification == Classification::Encrypted && !locked(old(self)@) ==> (
                r == Ok::<bool, ClipError>(true) && final(self)@ == locked_state(old(self)@)),
            key_only_when_open(old(self)@) ==> key_only_when_open(final(self)@),
    {
        if !self.classification.is_encrypted() {
            return Err(ClipError::WrongState { required: RequiredState::Encrypted });
        }
        if self.is_locked() {
            return Ok(false);
        }
        self.unlocked = false;
        if let Some(mut dek) = self.dek.take() {
            dek.wipe();
        }
        Ok(true)
    }

    /// The store opened under `dek` and its version was accepted: it is
    /// unlocked, the key is live, and whatever was recorded about it before no
    /// longer describes anything.
    pub fn unlocked_with(&mut self, dek: Dek)
        ensures
            final(self)@ == (StatusView {
                classification: old(self)@.classification,
                unlocked: true,
                dek: Some(dek@),
                fault: None,
            }),
    {
        self.unlocked = true;
        self.dek = Some(dek);
        self.fault = None;
    }

    /// Write the new state at a conversion's commit point, and nowhere else.
    /// A conversion that committed replaced the store, so any recorded fault
    /// is cleared.
    pub fn apply_commit(&mut self, becoming: Becoming)
        ensures
            final(self)@ == committed_state(match becoming {
                Becoming::Encrypted(d) => Some(d@),
                Becoming::Plaintext => None,
            }),
            key_only_when_open(final(self)@),
    {
        if let Some(mut previous) = self.dek.take() {
            previous.wipe();
        }
        match becoming {
            Becoming::Encrypted(dek) => {
                self.classification = Classification::Encrypted;
                self.unlocked = true;
                self.dek = Some(dek);
            },
            Becoming::Plaintext => {
                self.classification = Classification::Plaintext;
                self.unlocked = true;
                self.dek = None;
            },
        }
        self.fault = None;
    }

    /// Record a fault that every later command serves.
    pub fn record_fault(&mut self, fault: ClipError)
        ensures
            final(self)@ == (StatusView { fault: Some(fault@), ..old(self)@ }),
    {
        self.fault = Some(fault);
    }
}

/// **A locked store holds no key**: under the invariant, a state that reports
/// locked has no DEK.
pub proof fn lemma_locked_holds_no_key(s: StatusView)
    requires
        key_only_when_open(s),
        locked(s),
    ensures
        s.dek is None,
{
}

/// **Locking twice is locking once**: a second lock succeeds and changes
/// nothing.
pub proof fn lemma_lock_is_idempotent(s: StatusView)
    requires
        s.classification == Classification::Encrypted,
    ensures
        locked(locked_state(s)),
        locked_state(locked_state(s)) == locked_state(s),
{
}

/// **`unlock` after `lock` is the launch path exactly**: a store that was
/// locked and then unlocked under a key holds that key, whatever it held
/// before, and locking it again gives up that key.
pub proof fn lemma_unlock_then_lock(s: StatusView, dek: Seq<u8>)
    requires
        s.classification == Classification::Encrypted,
    ensures
        !locked(StatusView { unlocked: true, dek: Some(dek), fault: None, ..locked_state(s) }),
        locked_state(StatusView { unlocked: true, dek: Some(dek), fault: None, ..locked_state(s) })
            == (StatusView { fault: None, ..locked_state(s) }),
{
}

/// **A conversion's commit decides whether the store is encrypted**: after
/// enabling the store is encrypted and unlocked under the new key; after
/// disabling it is plaintext with no key; either way, it is not locked.
pub proof fn lemma_commit_decides_encryption(dek: Option<Seq<u8>>)
    ensures
        (committed_state(dek).classification == Classification::Encrypted) == (dek is Some),
        !locked(committed_state(dek)),
        key_only_when_open(committed_state(dek)),
{
}

} // verus!
