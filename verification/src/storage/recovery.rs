//! Startup recovery: the seven steps that run before any command is served.
//!
//! The steps touch the disk; the decisions between them are here. [`first`]
//! names the first step, and [`next`] takes a step and what performing it
//! reported and names the one after, until [`Step::Finish`] carries what
//! recovery established. Startup always runs to completion: a fault is
//! recorded and served from a command, because a backend that refuses to
//! start leaves nothing to show the user.
//!
//! | Step | On failure |
//! | --- | --- |
//! | 1. create the store directory | fatal, `storage`, classified `unreadable` |
//! | 2. sweep the conversion intermediates | absorbed |
//! | 3. classify `clips.db` | a failed read *is* `unreadable` |
//! | 4. stop on `unreadable` | fatal, `storage` |
//! | 5. delete a stray `keyfile`, only on `absent` or `plaintext` | absorbed |
//! | 6. create the store when `absent` | fatal, `storage` |
//! | 7. open and check the version, unless `encrypted` | fatal, as reported |

use vstd::prelude::*;

use crate::error::{ClipError, ErrorView};
use crate::storage::classify::Classification;

verus! {

/// What startup recovery established.
pub struct Recovered {
    /// The four-state answer to "is the store encrypted?".
    pub classification: Classification,
    /// Whether the connection opened at step 7 is held. Never for an
    /// encrypted store: no DEK exists until a PIN unwraps one.
    pub open: bool,
    /// The recorded fault, served by `get_lock_state`.
    pub fault: Option<ClipError>,
}

/// The step to perform next.
pub enum Step {
    /// Step 1: create the store directory and its parents.
    CreateDirectory,
    /// Step 2: delete every conversion intermediate, absorbing failures.
    /// Ungated and before the classification, so that no later branch can
    /// suppress it.
    SweepIntermediates,
    /// Step 3: open `clips.db` and read its header.
    Classify,
    /// Step 5: delete a stray `keyfile`, absorbing failures.
    DeleteKeyfile(Classification),
    /// Step 6: create `clips.db` with the schema and the version, then close it.
    CreateStore(Classification),
    /// Step 7: open `clips.db`, check its version, and hold the connection.
    OpenAndCheck(Classification),
    /// Done.
    Finish(Recovered),
}

/// What performing a step reported.
pub enum Report {
    /// Step 1 created the directory (`true`) or could not.
    DirectoryCreated(bool),
    /// Step 2 ran; its failures are absorbed, so there is nothing to report.
    Swept,
    /// Step 3's classification.
    Classified(Classification),
    /// Step 5 ran; a failure is absorbed.
    KeyfileDeleteAttempted,
    /// Step 6 created the store (`true`) or could not.
    StoreCreated(bool),
    /// Step 7 opened the store and its version was accepted, or the fault it
    /// met.
    Opened(Result<(), ClipError>),
}

/// Whether `report` is an answer to `step`.
pub open spec fn answers(step: Step, report: Report) -> bool {
    match step {
        Step::CreateDirectory => report is DirectoryCreated,
        Step::SweepIntermediates => report is Swept,
        Step::Classify => report is Classified,
        Step::DeleteKeyfile(_) => report is KeyfileDeleteAttempted,
        Step::CreateStore(_) => report is StoreCreated,
        Step::OpenAndCheck(_) => report is Opened,
        Step::Finish(_) => false,
    }
}

/// `storage`, as a recorded fault.
pub open spec fn storage_fault() -> Option<ErrorView> {
    Some(ErrorView::Storage)
}

/// A recorded fault, taken by its view.
pub open spec fn fault_view(fault: Option<ClipError>) -> Option<ErrorView> {
    match fault {
        Some(e) => Some(e@),
        None => None,
    }
}

/// Whether `step` finishes with this classification, connection and fault.
pub open spec fn finishes(step: Step, classification: Classification, open: bool, fault: Option<ErrorView>) -> bool {
    step matches Step::Finish(r) && r.classification == classification && r.open == open
        && fault_view(r.fault) == fault
}

/// The step after the store's classification is known.
pub open spec fn after_classification(c: Classification) -> Step {
    if c == Classification::Unreadable {
        Step::Finish(Recovered { classification: c, open: false, fault: Some(ClipError::Storage) })
    } else if c == Classification::Absent || c == Classification::Plaintext {
        Step::DeleteKeyfile(c)
    } else {
        Step::Finish(Recovered { classification: c, open: false, fault: None })
    }
}

/// The invariant of every step recovery can reach: a `keyfile` is deleted
/// only beside an absent or plaintext store, a store is created only where
/// none was, and only an absent or plaintext store is ever opened.
pub open spec fn reachable(step: Step) -> bool {
    match step {
        Step::DeleteKeyfile(c) => c == Classification::Absent || c == Classification::Plaintext,
        Step::CreateStore(c) => c == Classification::Absent,
        Step::OpenAndCheck(c) => c == Classification::Absent || c == Classification::Plaintext,
        Step::Finish(r) => r.open ==> (r.fault is None && (r.classification == Classification::Absent
            || r.classification == Classification::Plaintext)),
        _ => true,
    }
}

/// The first step: create the store directory.
pub fn first() -> (s: Step)
    ensures
        s is CreateDirectory,
        reachable(s),
{
    Step::CreateDirectory
}

/// The step after `step`, given what performing it reported.
pub fn next(step: Step, report: Report) -> (s: Step)
    requires
        answers(step, report),
    ensures
        reachable(step) ==> reachable(s),
        // Step 1. Nothing is known about `clips.db`, so nothing may be deleted
        // or created: `unreadable` is exactly that state.
        step is CreateDirectory ==> (if report == Report::DirectoryCreated(true) {
            s is SweepIntermediates
        } else {
            finishes(s, Classification::Unreadable, false, storage_fault())
        }),
        // Step 2 always leads to the classification, and is the only way there.
        step is SweepIntermediates ==> s is Classify,
        s is Classify ==> step is SweepIntermediates,
        // Steps 3 and 4.
        step is Classify ==> (report matches Report::Classified(c) && s == after_classification(c)),
        // Step 5, then 6 for an absent store and 7 for a plaintext one.
        step matches Step::DeleteKeyfile(c) ==> (if c == Classification::Absent {
            s == Step::CreateStore(c)
        } else {
            s == Step::OpenAndCheck(c)
        }),
        // Step 6.
        step matches Step::CreateStore(c) ==> (if report == Report::StoreCreated(true) {
            s == Step::OpenAndCheck(c)
        } else {
            finishes(s, c, false, storage_fault())
        }),
        // Step 7: held on success, the reported fault otherwise.
        step matches Step::OpenAndCheck(c) ==> (report matches Report::Opened(opened) && match opened {
            Ok(_) => finishes(s, c, true, None),
            Err(e) => finishes(s, c, false, Some(e@)),
        }),
{
    match step {
        Step::CreateDirectory => match report {
            Report::DirectoryCreated(true) => Step::SweepIntermediates,
            _ => Step::Finish(Recovered {
                classification: Classification::Unreadable,
                open: false,
                fault: Some(ClipError::Storage),
            }),
        },
        Step::SweepIntermediates => Step::Classify,
        Step::Classify => {
            let c = match report {
                Report::Classified(c) => c,
                _ => Classification::Unreadable,
            };
            if c == Classification::Unreadable {
                Step::Finish(Recovered { classification: c, open: false, fault: Some(ClipError::Storage) })
            } else if c.permits_keyfile_delete() {
                Step::DeleteKeyfile(c)
            } else {
                // An encrypted store stays closed until a PIN unwraps its key,
                // and being encrypted is not a fault.
                Step::Finish(Recovered { classification: c, open: false, fault: None })
            }
        },
        Step::DeleteKeyfile(c) => if c == Classification::Absent {
            Step::CreateStore(c)
        } else {
            Step::OpenAndCheck(c)
        },
        Step::CreateStore(c) => match report {
            Report::StoreCreated(true) => Step::OpenAndCheck(c),
            _ => Step::Finish(Recovered { classification: c, open: false, fault: Some(ClipError::Storage) }),
        },
        Step::OpenAndCheck(c) => match report {
            Report::Opened(Ok(())) => Step::Finish(Recovered { classification: c, open: true, fault: None }),
            Report::Opened(Err(fault)) => Step::Finish(Recovered { classification: c, open: false, fault: Some(fault) }),
            _ => Step::Finish(Recovered { classification: c, open: false, fault: Some(ClipError::Storage) }),
        },
        Step::Finish(r) => Step::Finish(r),
    }
}

/// **An unreadable store deletes nothing, creates nothing and opens nothing.**
/// Once the classification is `unreadable`, recovery finishes at once with
/// `storage`: no `keyfile` delete, no store creation, no open.
pub proof fn lemma_unreadable_stops()
    ensures
        finishes(after_classification(Classification::Unreadable), Classification::Unreadable, false, storage_fault()),
{
}

/// **The keyfile beside an encrypted store is never touched, and the store is
/// never opened at startup.** An encrypted classification finishes at once,
/// closed and without a fault.
pub proof fn lemma_encrypted_stays_shut()
    ensures
        finishes(after_classification(Classification::Encrypted), Classification::Encrypted, false, None),
{
}

/// **Only a positive `absent` or `plaintext` deletes a stray keyfile.** The
/// classification leads to the delete exactly when it permits one.
pub proof fn lemma_keyfile_delete_is_gated(c: Classification)
    ensures
        after_classification(c) is DeleteKeyfile <==> (c == Classification::Absent || c == Classification::Plaintext),
{
}

} // verus!
