//! The clip commands' one sequence with an order to keep: the copy.
//!
//! Both the window and the tray copy through this sequence, so a tray copy
//! counts exactly as a window copy does and there is one clipboard path. The
//! order is fixed: look the clip up, write its value to the clipboard, then
//! count the use. A count recorded for a copy that never reached the
//! clipboard would put a phantom into the tray ranking, which is worse than
//! a count that is one low.

use vstd::prelude::*;

use crate::error::ClipError;

verus! {

/// Writes text to the system clipboard. A failure is `clipboard`. The text
/// is a clip's value and is never logged.
pub trait ClipboardWriter {
    fn write_text(&self, text: &str) -> Result<(), ClipError>;
}

/// The step of a copy to perform next.
pub enum CopyStep {
    /// Read the clip's value. An unknown id is `not_found`.
    LookUp,
    /// Write this value to the clipboard.
    WriteClipboard(String),
    /// Add one to the clip's use count, committed before returning.
    CountUse,
    /// Done, with what the command returns.
    Finish(Result<(), ClipError>),
}

/// What performing a copy step reported.
pub enum CopyReport {
    /// The value, or the lookup's error.
    Found(Result<String, ClipError>),
    /// The clipboard write's result.
    Written(Result<(), ClipError>),
    /// The increment's result.
    Counted(Result<(), ClipError>),
}

/// Whether `report` answers `step`.
pub open spec fn copy_answers(step: CopyStep, report: CopyReport) -> bool {
    match step {
        CopyStep::LookUp => report is Found,
        CopyStep::WriteClipboard(_) => report is Written,
        CopyStep::CountUse => report is Counted,
        CopyStep::Finish(_) => false,
    }
}

/// The first step of a copy.
pub fn copy_first() -> (s: CopyStep)
    ensures
        s is LookUp,
{
    CopyStep::LookUp
}

/// The step after `step`, given what performing it reported.
pub fn copy_next(step: CopyStep, report: CopyReport) -> (s: CopyStep)
    requires
        copy_answers(step, report),
    ensures
        // A failed lookup writes nothing and counts nothing.
        step is LookUp ==> match report {
            CopyReport::Found(Ok(value)) => s matches CopyStep::WriteClipboard(v) && v@ == value@,
            CopyReport::Found(Err(e)) => s matches CopyStep::Finish(Err(got)) && got@ == e@,
            _ => false,
        },
        // The use is counted only after the clipboard holds the value.
        s is CountUse <==> (step is WriteClipboard && report matches CopyReport::Written(Ok(_))),
        step is WriteClipboard ==> (report matches CopyReport::Written(Err(e)) ==> (s matches CopyStep::Finish(Err(got))
            && got@ == e@)),
        step is CountUse ==> (report matches CopyReport::Counted(counted) && match counted {
            Ok(_) => s matches CopyStep::Finish(Ok(_)),
            Err(e) => s matches CopyStep::Finish(Err(got)) && got@ == e@,
        }),
{
    match step {
        CopyStep::LookUp => match report {
            CopyReport::Found(Ok(value)) => CopyStep::WriteClipboard(value),
            CopyReport::Found(Err(error)) => CopyStep::Finish(Err(error)),
            _ => CopyStep::Finish(Err(ClipError::Internal)),
        },
        CopyStep::WriteClipboard(_) => match report {
            CopyReport::Written(Ok(())) => CopyStep::CountUse,
            CopyReport::Written(Err(error)) => CopyStep::Finish(Err(error)),
            _ => CopyStep::Finish(Err(ClipError::Internal)),
        },
        CopyStep::CountUse => match report {
            CopyReport::Counted(Ok(())) => CopyStep::Finish(Ok(())),
            CopyReport::Counted(Err(error)) => CopyStep::Finish(Err(error)),
            _ => CopyStep::Finish(Err(ClipError::Internal)),
        },
        CopyStep::Finish(result) => CopyStep::Finish(result),
    }
}

/// Write a value through a clipboard writer: the clipboard step of a copy.
/// The report carries exactly what the writer returned for this value.
pub fn write_value<C: ClipboardWriter>(clipboard: &C, value: &str) -> (r: CopyReport)
    ensures
        r matches CopyReport::Written(written) && call_ensures(C::write_text, (clipboard, value), written),
{
    CopyReport::Written(clipboard.write_text(value))
}

} // verus!
