//! Whole-database conversion between plaintext and encrypted: the only code
//! that replaces the user's whole store.
//!
//! The steps touch the disk; the decisions between them are here, as a step
//! machine: [`first`] names the first step and [`next`] names each one after
//! from what performing the last reported. The rules it keeps:
//!
//! - **The rename is the only instant the store's state changes.** Every
//!   failure before it aborts to the state before the command; nothing after
//!   it aborts, and the new state is written at the rename ([`Step::Commit`])
//!   and nowhere else.
//! - **The live store's sidecars are deleted before the rename**, never after:
//!   after would leave an encrypted `clips.db` beside a plaintext log.
//! - **An abort releases every handle, then deletes the intermediates, then
//!   makes sure the original is open** — in that order, because an open
//!   database cannot be deleted on Windows, and on the disable path the
//!   intermediate is a plaintext copy of every clip.
//! - **Three comparisons, not three reads**: the copy's integrity, clip count
//!   and schema version are each compared against the source's.

use vstd::prelude::*;

use crate::crypto::Dek;
use crate::error::{ClipError, ErrorView};
use crate::storage::connection::{raw_key_literal, raw_key_text};
use crate::storage::paths::StorePaths;
use crate::storage::status::{Becoming, Status, StatusView};
use crate::text::{eq_ignore_ascii_case, same_ignoring_ascii_case, signed_decimal, signed_decimal_text};

verus! {

/// The schema name `clips.db.new` is attached under during the export: a
/// fixed identifier, never one a user could influence.
pub const TARGET_SCHEMA: &'static str = "converted";

/// Copy schema and data, page by page, into the attached database.
pub const EXPORT_QUERY: &'static str = "SELECT sqlcipher_export('converted')";

/// Detach the target before it is opened as a connection of its own.
pub const DETACH_STATEMENT: &'static str = "DETACH DATABASE converted;";

/// Which key each side of the conversion carries; `None` is plaintext.
/// Enabling is `source_key: None, target_key: Some(new)`; disabling is the
/// reverse.
pub struct Plan<'a> {
    pub paths: &'a StorePaths,
    pub source_key: Option<&'a Dek>,
    pub target_key: Option<&'a Dek>,
}

/// The key a side carries, by its bytes.
pub open spec fn key_view(key: Option<&Dek>) -> Option<Seq<u8>> {
    match key {
        Some(d) => Some(d@),
        None => None,
    }
}

/// `ATTACH DATABASE ?1 AS converted KEY "<raw key>"`, or `KEY ''` for a
/// plaintext target. The path is bound, so it never reaches the text.
pub open spec fn attach_text(target_key: Option<Seq<u8>>) -> Seq<char> {
    match target_key {
        Some(key) => "ATTACH DATABASE ?1 AS converted KEY \""@ + raw_key_text(key) + "\""@,
        None => "ATTACH DATABASE ?1 AS converted KEY ''"@,
    }
}

/// `PRAGMA converted.user_version = <n>;`. `sqlcipher_export` does not carry
/// the header field across, so without this every converted store would
/// report version 0 and be refused as not a FastClip store.
pub open spec fn stamp_text(user_version: i64) -> Seq<char> {
    "PRAGMA converted.user_version = "@ + signed_decimal(user_version as int) + ";"@
}

impl<'a> Plan<'a> {
    /// The plan for a conversion to `becoming`, from a store whose live key
    /// is `current`.
    pub fn new(paths: &'a StorePaths, becoming: &'a Becoming, current: Option<&'a Dek>) -> (r: Plan<'a>)
        ensures
            r.paths == paths,
            match becoming {
                Becoming::Encrypted(d) => key_view(r.source_key) is None && key_view(r.target_key) == Some(d@),
                Becoming::Plaintext => key_view(r.source_key) == key_view(current) && key_view(r.target_key) is None,
            },
    {
        match becoming {
            Becoming::Encrypted(new) => Plan { paths, source_key: None, target_key: Some(new) },
            Becoming::Plaintext => Plan { paths, source_key: current, target_key: None },
        }
    }

    /// The statement that attaches `clips.db.new` under the target's key.
    pub fn attach_statement(&self) -> (r: String)
        ensures
            r@ == attach_text(key_view(self.target_key)),
    {
        match self.target_key {
            Some(dek) => {
                let mut statement = String::from_str("ATTACH DATABASE ?1 AS converted KEY \"");
                let literal = raw_key_literal(dek);
                statement.append(literal.as_str());
                statement.append("\"");
                statement
            },
            None => String::from_str("ATTACH DATABASE ?1 AS converted KEY ''"),
        }
    }
}

/// The statement that writes the source's schema version into the copy.
pub fn stamp_statement(user_version: i64) -> (r: String)
    ensures
        r@ == stamp_text(user_version),
{
    let mut statement = String::from_str("PRAGMA converted.user_version = ");
    let number = signed_decimal_text(user_version);
    statement.append(number.as_str());
    statement.append(";");
    statement
}

/// What `SELECT count(*)` and `PRAGMA user_version` said about the source,
/// before anything was written.
#[derive(Clone, Copy)]
pub struct Recorded {
    pub clips: i64,
    pub user_version: i64,
}

/// What the copy said when it was opened: its integrity check, clip count
/// and schema version.
pub struct CopyFacts {
    pub integrity: String,
    pub clips: i64,
    pub user_version: i64,
}

/// Whether the copy is the store: structurally sound, and holding the same
/// number of clips at the same schema version as the source.
pub open spec fn copy_matches(facts: CopyFacts, recorded: Recorded) -> bool {
    &&& same_ignoring_ascii_case(facts.integrity@, "ok"@)
    &&& facts.clips == recorded.clips
    &&& facts.user_version == recorded.user_version
}

/// **A copy is accepted on the three comparisons and nothing else.**
/// Whatever the store holds, an empty one included, the copy is the store
/// exactly when its integrity check reads `ok` in any letter case and its
/// clip count and schema version equal the ones recorded from the source.
pub proof fn lemma_copy_accepted_on_three_comparisons(facts: CopyFacts, recorded: Recorded)
    ensures
        copy_matches(facts, recorded) <==> (same_ignoring_ascii_case(facts.integrity@, "ok"@)
            && facts.clips == recorded.clips && facts.user_version == recorded.user_version),
{
}

/// Compare the copy against the source. Any mismatch is `storage`.
pub fn verify_copy(facts: &CopyFacts, recorded: &Recorded) -> (r: Result<(), ClipError>)
    ensures
        r is Ok <==> copy_matches(*facts, *recorded),
        r is Ok <==> (same_ignoring_ascii_case(facts.integrity@, "ok"@) && facts.clips == recorded.clips
            && facts.user_version == recorded.user_version),
        r matches Err(e) ==> e@ == ErrorView::Storage,
{
    if !eq_ignore_ascii_case(facts.integrity.as_str(), "ok") {
        return Err(ClipError::Storage);
    }
    if facts.clips != recorded.clips {
        return Err(ClipError::Storage);
    }
    if facts.user_version != recorded.user_version {
        return Err(ClipError::Storage);
    }
    Ok(())
}

/// How the conversion ended. Only the first two changed the store, and only
/// the first leaves a connection.
pub enum Outcome {
    /// Every step succeeded: the store is converted and reopened.
    Converted,
    /// The rename happened and the reopen did not. The store *is* converted,
    /// but there is no connection.
    CommittedButClosed,
    /// Nothing committed; the store is what it was. `original_open` says
    /// whether the original connection is held.
    Aborted { original_open: bool, error: ClipError },
}

/// The step to perform next.
pub enum Step {
    /// Read `count(*)` and `user_version` from the source.
    Record,
    /// Attach the target, export into it, and stamp the version.
    Export(Recorded),
    /// Detach the target.
    Detach(Recorded),
    /// Open `clips.db.new` and read its integrity, count and version.
    Verify(Recorded),
    /// Checkpoint and close both connections. Absorbs its own failures.
    CloseBoth,
    /// Delete the live store's `-wal` and `-shm`.
    DeleteSidecars,
    /// Rename `clips.db.new` onto `clips.db`: the commit point.
    Rename,
    /// Write the new state: the rename happened.
    Commit,
    /// Reopen `clips.db` under the target's key.
    Reopen,
    /// Delete the renamed copy's sidecars, absorbing failures.
    SweepTargetSidecars { reopened: bool },
    /// Abort, first: release every handle on `clips.db.new` (detach it from
    /// the source if that is open; close the target if it was opened).
    Release { source_open: bool, error: ClipError },
    /// Abort, second: delete `clips.db.new`, its sidecars and `keyfile.new`,
    /// absorbing failures.
    DeleteIntermediates { source_open: bool, error: ClipError },
    /// Abort, third, when the source was closed: reopen it under its key.
    ReopenOriginal { error: ClipError },
    /// Done.
    Finish(Outcome),
}

/// What performing a step reported.
pub enum Report {
    /// `Record`'s reads.
    Recorded(Result<Recorded, ClipError>),
    /// `Export` or `Detach` succeeded, or the error it met.
    Ran(Result<(), ClipError>),
    /// `Verify`'s reads, or the error opening or reading the copy met.
    Checked(Result<CopyFacts, ClipError>),
    /// `DeleteSidecars`, `Rename`, `Reopen` or `ReopenOriginal` succeeded.
    Succeeded(bool),
    /// A step whose failures are absorbed ran.
    Completed,
}

/// Whether `report` is an answer to `step`.
pub open spec fn answers(step: Step, report: Report) -> bool {
    match step {
        Step::Record => report is Recorded,
        Step::Export(_) | Step::Detach(_) => report is Ran,
        Step::Verify(_) => report is Checked,
        Step::DeleteSidecars | Step::Rename | Step::Reopen | Step::ReopenOriginal { .. } => report is Succeeded,
        Step::CloseBoth | Step::Commit | Step::SweepTargetSidecars { .. } | Step::Release { .. }
        | Step::DeleteIntermediates { .. } => report is Completed,
        Step::Finish(_) => false,
    }
}

/// Whether `step` lies after the commit point.
pub open spec fn committed(step: Step) -> bool {
    match step {
        Step::Commit | Step::Reopen | Step::SweepTargetSidecars { .. } => true,
        Step::Finish(o) => !(o is Aborted),
        _ => false,
    }
}

/// Whether `step` lies before the commit point and is not part of an abort.
pub open spec fn pending(step: Step) -> bool {
    step is Record || step is Export || step is Detach || step is Verify || step is CloseBoth
        || step is DeleteSidecars || step is Rename
}

/// Whether a report is a failure.
pub open spec fn failed(report: Report) -> bool {
    match report {
        Report::Recorded(r) => r is Err,
        Report::Ran(r) => r is Err,
        Report::Checked(r) => r is Err,
        Report::Succeeded(ok) => !ok,
        Report::Completed => false,
    }
}

/// The abort a failure at a pending step starts: with the source still open
/// up to and including the verification, closed from step 4 on.
pub open spec fn aborts(s: Step, source_open: bool) -> bool {
    s matches Step::Release { source_open: open, .. } && open == source_open
}

/// The first step.
pub fn first() -> (s: Step)
    ensures
        s is Record,
{
    Step::Record
}

/// The step after `step`, given what performing it reported.
pub fn next(step: Step, report: Report) -> (s: Step)
    requires
        answers(step, report),
    ensures
        // Nothing after the commit point aborts.
        committed(step) ==> committed(s),
        // The commit is reached only by a rename that succeeded.
        committed(s) && !committed(step) ==> (step is Rename && report == Report::Succeeded(true) && s is Commit),
        // Every failure before the commit point aborts, and the source is open
        // until the connections are closed.
        pending(step) && failed(report) ==> aborts(s, step is Record || step is Export || step is Detach
            || step is Verify),
        // A verification that read the copy aborts unless all three
        // comparisons hold.
        step is Verify ==> (report matches Report::Checked(Ok(facts)) ==> (s is CloseBoth <==> (step matches Step::Verify(rec) && copy_matches(facts, rec)))),
        // The live store's sidecars go before the rename.
        s is Rename ==> step is DeleteSidecars,
        // The abort runs in its order: release, delete, reopen.
        s is DeleteIntermediates ==> step is Release,
        s is ReopenOriginal ==> (step matches Step::DeleteIntermediates { source_open, .. } && !source_open),
        s matches Step::Finish(Outcome::Aborted { .. }) ==> (step is DeleteIntermediates || step is ReopenOriginal),
        // An abort with the source open keeps it; one without reopens it.
        step matches Step::DeleteIntermediates { source_open, error } ==> (source_open ==> (s
            matches Step::Finish(Outcome::Aborted { original_open, error: e }) && original_open && e@ == error@)),
        step matches Step::ReopenOriginal { error } ==> (s matches Step::Finish(Outcome::Aborted { original_open, error: e })
            && report == Report::Succeeded(original_open) && e@ == error@),
        // A reopen that fails after the commit leaves the store converted and
        // closed.
        step matches Step::SweepTargetSidecars { reopened } ==> (if reopened {
            s matches Step::Finish(Outcome::Converted)
        } else {
            s matches Step::Finish(Outcome::CommittedButClosed)
        }),
        // The successor of each step, exactly.
        step is Record ==> match report {
            Report::Recorded(Ok(rec)) => s == Step::Export(rec),
            Report::Recorded(Err(e)) => s == (Step::Release { source_open: true, error: e }),
            _ => false,
        },
        step matches Step::Export(rec) ==> match report {
            Report::Ran(Ok(_)) => s == Step::Detach(rec),
            Report::Ran(Err(e)) => s == (Step::Release { source_open: true, error: e }),
            _ => false,
        },
        step matches Step::Detach(rec) ==> match report {
            Report::Ran(Ok(_)) => s == Step::Verify(rec),
            Report::Ran(Err(e)) => s == (Step::Release { source_open: true, error: e }),
            _ => false,
        },
        step matches Step::Verify(rec) ==> match report {
            Report::Checked(Ok(facts)) => if copy_matches(facts, rec) {
                s == Step::CloseBoth
            } else {
                s matches Step::Release { source_open: true, error } && error@ == ErrorView::Storage
            },
            Report::Checked(Err(e)) => s == (Step::Release { source_open: true, error: e }),
            _ => false,
        },
        step is CloseBoth ==> s == Step::DeleteSidecars,
        step is DeleteSidecars ==> (if report == Report::Succeeded(true) {
            s == Step::Rename
        } else {
            s matches Step::Release { source_open: false, error } && error@ == ErrorView::Storage
        }),
        step is Rename ==> (if report == Report::Succeeded(true) {
            s == Step::Commit
        } else {
            s matches Step::Release { source_open: false, error } && error@ == ErrorView::Storage
        }),
        step is Commit ==> s == Step::Reopen,
        step is Reopen ==> (report matches Report::Succeeded(reopened)
            && s == (Step::SweepTargetSidecars { reopened })),
        step matches Step::Release { source_open, error } ==> s == (Step::DeleteIntermediates { source_open, error }),
        step matches Step::DeleteIntermediates { source_open, error } ==> (!source_open ==> s
            == (Step::ReopenOriginal { error })),
{
    match step {
        Step::Record => match report {
            Report::Recorded(Ok(recorded)) => Step::Export(recorded),
            Report::Recorded(Err(error)) => Step::Release { source_open: true, error },
            _ => Step::Release { source_open: true, error: ClipError::Internal },
        },
        Step::Export(recorded) => match report {
            Report::Ran(Ok(())) => Step::Detach(recorded),
            Report::Ran(Err(error)) => Step::Release { source_open: true, error },
            _ => Step::Release { source_open: true, error: ClipError::Internal },
        },
        Step::Detach(recorded) => match report {
            Report::Ran(Ok(())) => Step::Verify(recorded),
            Report::Ran(Err(error)) => Step::Release { source_open: true, error },
            _ => Step::Release { source_open: true, error: ClipError::Internal },
        },
        Step::Verify(recorded) => match report {
            Report::Checked(Ok(facts)) => match verify_copy(&facts, &recorded) {
                Ok(()) => Step::CloseBoth,
                Err(error) => Step::Release { source_open: true, error },
            },
            Report::Checked(Err(error)) => Step::Release { source_open: true, error },
            _ => Step::Release { source_open: true, error: ClipError::Internal },
        },
        Step::CloseBoth => Step::DeleteSidecars,
        Step::DeleteSidecars => match report {
            Report::Succeeded(true) => Step::Rename,
            _ => Step::Release { source_open: false, error: ClipError::Storage },
        },
        Step::Rename => match report {
            Report::Succeeded(true) => Step::Commit,
            _ => Step::Release { source_open: false, error: ClipError::Storage },
        },
        Step::Commit => Step::Reopen,
        Step::Reopen => match report {
            Report::Succeeded(reopened) => Step::SweepTargetSidecars { reopened },
            _ => Step::SweepTargetSidecars { reopened: false },
        },
        Step::SweepTargetSidecars { reopened } => if reopened {
            Step::Finish(Outcome::Converted)
        } else {
            Step::Finish(Outcome::CommittedButClosed)
        },
        Step::Release { source_open, error } => Step::DeleteIntermediates { source_open, error },
        Step::DeleteIntermediates { source_open, error } => if source_open {
            Step::Finish(Outcome::Aborted { original_open: true, error })
        } else {
            Step::ReopenOriginal { error }
        },
        Step::ReopenOriginal { error } => match report {
            Report::Succeeded(original_open) => Step::Finish(Outcome::Aborted { original_open, error }),
            _ => Step::Finish(Outcome::Aborted { original_open: false, error }),
        },
        Step::Finish(outcome) => Step::Finish(outcome),
    }
}

/// What a conversion did: whether the rename happened, which decides whether
/// `lock_state` is emitted, and what the command returns. Two fields because
/// a committed conversion whose reopen failed changed the store and failed
/// the command.
pub struct Converted {
    pub committed: bool,
    pub result: Result<(), ClipError>,
}

/// Settle the store's state after a conversion ended. A commit whose reopen
/// failed, and an abort whose original could not be reopened, record
/// `storage`, so every clip command serves it for the rest of the session.
pub fn settle(status: &mut Status, outcome: Outcome) -> (r: Converted)
    ensures
        r.committed == !(outcome is Aborted),
        match outcome {
            Outcome::Converted => r.result is Ok && final(status)@ == old(status)@,
            Outcome::CommittedButClosed => (r.result matches Err(e) && e@ == ErrorView::Storage)
                && final(status)@ == (StatusView { fault: Some(ErrorView::Storage), ..old(status)@ }),
            Outcome::Aborted { original_open, error } => (r.result matches Err(e) && e@ == error@)
                && final(status)@ == (if original_open {
                    old(status)@
                } else {
                    StatusView { fault: Some(ErrorView::Storage), ..old(status)@ }
                }),
        },
{
    match outcome {
        Outcome::Converted => Converted { committed: true, result: Ok(()) },
        Outcome::CommittedButClosed => {
            status.record_fault(ClipError::Storage);
            Converted { committed: true, result: Err(ClipError::Storage) }
        },
        Outcome::Aborted { original_open, error } => {
            if !original_open {
                status.record_fault(ClipError::Storage);
            }
            Converted { committed: false, result: Err(error) }
        },
    }
}

} // verus!
