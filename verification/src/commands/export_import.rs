//! The decisions behind `export_clips` and `import_clips`.
//!
//! **An export is written whole and atomically, and read back before it is
//! committed**: to `<path>.part` beside the target, parsed again from the
//! bytes on the disk, counted, and only then renamed. A write that is never
//! read back is not a backup. The `.part` file is deleted on every failure
//! path, including a failed rename: it holds every clip in plaintext.
//!
//! **An import never half-applies**: the whole file is validated before the
//! store is touched, and the merge is one transaction.

use vstd::prelude::*;

use crate::error::{ClipError, ErrorView, IoOperation, IoReason};
use crate::export_file::{document_outcome, parsed_count};
use crate::json::JsonValue;
use crate::storage::status::{locked, Status};

verus! {

/// The suffix of the file an export is written to before it is renamed into
/// place. In the target directory, because a rename is atomic only within
/// one volume.
pub const PART_SUFFIX: &'static str = ".part";

/// `{ "exported": n }`. Zero is a success.
#[derive(Debug, Clone, Copy, PartialEq, Eq, Structural)]
pub struct ExportResult {
    pub exported: u32,
}

/// `{ "imported": n }`. Zero is a success.
#[derive(Debug, Clone, Copy, PartialEq, Eq, Structural)]
pub struct ImportResult {
    pub imported: u32,
}

/// A count as the result carries it, saturated into `u32` so that no
/// arithmetic can fail.
pub open spec fn saturated_count(n: nat) -> u32 {
    if n > u32::MAX { u32::MAX } else { n as u32 }
}

fn saturate(n: usize) -> (r: u32)
    ensures
        r == saturated_count(n as nat),
{
    if n as u64 > u32::MAX as u64 { u32::MAX } else { n as u32 }
}

/// The result of an export of `n` clips.
pub fn export_result(n: usize) -> (r: ExportResult)
    ensures
        r.exported == saturated_count(n as nat),
{
    ExportResult { exported: saturate(n) }
}

/// The result of an import of `n` clips.
pub fn import_result(n: usize) -> (r: ImportResult)
    ensures
        r.imported == saturated_count(n as nat),
{
    ImportResult { imported: saturate(n) }
}

/// What kind of failure an operating system error was, as far as the
/// reasons an `io` error carries need to know.
#[derive(Debug, Clone, Copy, PartialEq, Eq, Structural)]
pub enum IoKind {
    NotFound,
    PermissionDenied,
    StorageFull,
    Other,
}

/// The reason an `io` error carries: the kind where it names one, and the
/// raw Windows codes for a full disk (`ERROR_HANDLE_DISK_FULL`,
/// `ERROR_DISK_FULL`) kept because the standard library's mapping of them is
/// an implementation detail, and the remedy for a full disk is worth not
/// losing to `other`.
pub open spec fn reason_for(kind: IoKind, raw_os_error: Option<i32>) -> IoReason {
    match kind {
        IoKind::NotFound => IoReason::NotFound,
        IoKind::PermissionDenied => IoReason::PermissionDenied,
        IoKind::StorageFull => IoReason::DiskFull,
        IoKind::Other => if raw_os_error == Some(39i32) || raw_os_error == Some(112i32) {
            IoReason::DiskFull
        } else {
            IoReason::Other
        },
    }
}

/// Map an operating system error onto the four reasons.
pub fn io_reason(kind: IoKind, raw_os_error: Option<i32>) -> (r: IoReason)
    ensures
        r == reason_for(kind, raw_os_error),
{
    match kind {
        IoKind::NotFound => IoReason::NotFound,
        IoKind::PermissionDenied => IoReason::PermissionDenied,
        IoKind::StorageFull => IoReason::DiskFull,
        IoKind::Other => match raw_os_error {
            Some(39) | Some(112) => IoReason::DiskFull,
            _ => IoReason::Other,
        },
    }
}

/// `io { operation, path, reason }` against the path the user chose, never
/// the temporary file beside it.
pub fn io_error(operation: IoOperation, path: &str, kind: IoKind, raw_os_error: Option<i32>) -> (e: ClipError)
    ensures
        e@ == (ErrorView::Io { operation, path: path@, reason: reason_for(kind, raw_os_error) }),
{
    ClipError::Io { operation, path: path.to_owned(), reason: io_reason(kind, raw_os_error) }
}

/// `<path>.part`.
pub fn part_path(path: &str) -> (r: String)
    ensures
        r@ == path@ + PART_SUFFIX@,
{
    let mut part = String::from_str(path);
    part.append(PART_SUFFIX);
    part
}

/// `text` without `suffix` at its end, or `None` where it does not end so.
pub open spec fn without_suffix(text: Seq<char>, suffix: Seq<char>) -> Option<Seq<char>> {
    if text.len() >= suffix.len() && text.subrange(text.len() - suffix.len(), text.len() as int) == suffix {
        Some(text.subrange(0, text.len() - suffix.len()))
    } else {
        None
    }
}

/// The path the user chose, recovered from the temporary file's: `.part`
/// trimmed where it is there, the whole path otherwise.
pub open spec fn target_of(part: Seq<char>) -> Seq<char> {
    match without_suffix(part, PART_SUFFIX@) {
        Some(t) => t,
        None => part,
    }
}

/// The one error a failed readback produces:
/// `io { operation: "write", path, reason: "other" }`. `other`, because the
/// write reported no fault, and guessing at a cause would put a remedy in
/// front of the user that may have nothing to do with what happened.
pub fn unreadable_export(part: &str) -> (e: ClipError)
    ensures
        e@ == (ErrorView::Io { operation: IoOperation::Write, path: target_of(part@), reason: IoReason::Other }),
{
    let n = part.unicode_len();
    let m = PART_SUFFIX.unicode_len();
    let path = if n >= m && crate::text::same_text(part.substring_char(n - m, n), PART_SUFFIX) {
        part.substring_char(0, n - m).to_owned()
    } else {
        part.to_owned()
    };
    ClipError::Io { operation: IoOperation::Write, path, reason: IoReason::Other }
}

/// Whether a written export reads back as `expected` clips: read, parsed as
/// an export, and counted. `written` is `None` when the file could not be
/// read back, and holds `None` when what was read is not JSON.
pub open spec fn reads_back(written: Option<Option<JsonValue>>, expected: usize) -> bool {
    match written {
        Some(document) => match document_outcome(document) {
            Ok(clips) => clips.len() == expected,
            Err(_) => false,
        },
        None => false,
    }
}

/// The readback an export runs before its rename. Any failure is the one
/// [`unreadable_export`] error against the user's path: from the caller's
/// position one thing happened, and the export did not produce a file that
/// can be imported.
pub fn check_readback(written: Option<Option<JsonValue>>, expected: usize, part: &str) -> (r: Result<(), ClipError>)
    ensures
        r is Ok <==> reads_back(written, expected),
        r matches Err(e) ==> e@ == (ErrorView::Io { operation: IoOperation::Write, path: target_of(part@), reason: IoReason::Other }),
{
    let document = match written {
        Some(document) => document,
        None => return Err(unreadable_export(part)),
    };
    match parsed_count(document) {
        Ok(count) => if count == expected {
            Ok(())
        } else {
            Err(unreadable_export(part))
        },
        Err(_) => Err(unreadable_export(part)),
    }
}

/// An import returns `locked` before doing anything else: reading the user's
/// file first and then discovering the store is locked would be the same
/// answer arrived at after pulling every clip in it into the memory of a
/// locked application.
pub fn check_import(status: &Status) -> (r: Result<(), ClipError>)
    ensures
        r is Ok <==> !locked(status@),
        r matches Err(e) ==> e@ == ErrorView::Locked,
{
    if status.is_locked() {
        return Err(ClipError::Locked);
    }
    Ok(())
}

/// **A part path always trims back to the path it was made from.**
pub proof fn lemma_part_path_trims_back(path: Seq<char>)
    ensures
        target_of(path + PART_SUFFIX@) == path,
{
    let part = path + PART_SUFFIX@;
    assert(part.subrange(part.len() - PART_SUFFIX@.len(), part.len() as int) =~= PART_SUFFIX@);
    assert(part.subrange(0, part.len() - PART_SUFFIX@.len()) =~= path);
}

} // verus!
