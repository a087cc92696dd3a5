//! `ClipError`, the one error shape every operation reports.
//!
//! Every variant is a discriminant, an identifier, a field name or a count, so
//! no variant can carry a clip's label or value.

use vstd::prelude::*;

use crate::text::{signed_decimal, signed_decimal_text};

verus! {

/// The error every operation returns.
#[derive(Debug, PartialEq, Eq)]
pub enum ClipError {
    /// A `clip_id` argument names no stored clip.
    NotFound { clip_id: String },
    /// An argument failed validation. `field` is the wire field name.
    InvalidInput { field: String, reason: InvalidReason },
    /// The store could not be read, written, created, or its directory reached.
    Storage,
    /// A user-chosen file (an export target or an import source) failed.
    Io { operation: IoOperation, path: String, reason: IoReason },
    /// Key material or the database itself could not be used.
    Crypto { reason: CryptoReason },
    /// An on-disk artefact carries a version this build does not know.
    UnsupportedVersion { component: VersionComponent, found: i64, supported: i64 },
    /// The import file's content was rejected.
    Import { reason: ImportReason, field: Option<String>, index: Option<u32> },
    /// Encryption is on and the store is not open.
    Locked,
    /// The operation needs the store in a state it is not in.
    WrongState { required: RequiredState },
    /// The PIN was evaluated and did not unwrap the key.
    BadPin { attempts_remaining: Option<u32>, retry_after_ms: Option<u64> },
    /// An unlock was attempted while a wait was already running.
    Backoff { retry_after_ms: u64 },
    /// The clipboard could not be written.
    Clipboard,
    /// An unmodelled failure.
    Internal,
}

#[derive(Debug, Clone, Copy, PartialEq, Eq, Structural)]
pub enum InvalidReason {
    Required,
    TooLong,
    ContainsControlCharacters,
    NotAPaletteToken,
    NotPermitted,
    UnknownField,
    MalformedUuid,
    NotAPermutation,
    NotSixDigits,
}

#[derive(Debug, Clone, Copy, PartialEq, Eq, Structural)]
pub enum IoOperation {
    Read,
    Write,
}

#[derive(Debug, Clone, Copy, PartialEq, Eq, Structural)]
pub enum IoReason {
    NotFound,
    PermissionDenied,
    DiskFull,
    Other,
}

#[derive(Debug, Clone, Copy, PartialEq, Eq, Structural)]
pub enum CryptoReason {
    BadKeyMaterial,
    Corrupt,
}

#[derive(Debug, Clone, Copy, PartialEq, Eq, Structural)]
pub enum VersionComponent {
    Schema,
    KeyMaterial,
}

#[derive(Debug, Clone, Copy, PartialEq, Eq, Structural)]
pub enum ImportReason {
    MalformedJson,
    UnsupportedVersion,
    MissingField,
    UnknownField,
    InvalidValue,
}

#[derive(Debug, Clone, Copy, PartialEq, Eq, Structural)]
pub enum RequiredState {
    Locked,
    Encrypted,
    Unencrypted,
}

/// `ClipError` with every text taken by its characters.
pub enum ErrorView {
    NotFound { clip_id: Seq<char> },
    InvalidInput { field: Seq<char>, reason: InvalidReason },
    Storage,
    Io { operation: IoOperation, path: Seq<char>, reason: IoReason },
    Crypto { reason: CryptoReason },
    UnsupportedVersion { component: VersionComponent, found: i64, supported: i64 },
    Import { reason: ImportReason, field: Option<Seq<char>>, index: Option<u32> },
    Locked,
    WrongState { required: RequiredState },
    BadPin { attempts_remaining: Option<u32>, retry_after_ms: Option<u64> },
    Backoff { retry_after_ms: u64 },
    Clipboard,
    Internal,
}

impl View for ClipError {
    type V = ErrorView;

    open spec fn view(&self) -> ErrorView {
        match self {
            ClipError::NotFound { clip_id } => ErrorView::NotFound { clip_id: clip_id@ },
            ClipError::InvalidInput { field, reason } => ErrorView::InvalidInput {
                field: field@,
                reason: *reason,
            },
            ClipError::Storage => ErrorView::Storage,
            ClipError::Io { operation, path, reason } => ErrorView::Io {
                operation: *operation,
                path: path@,
                reason: *reason,
            },
            ClipError::Crypto { reason } => ErrorView::Crypto { reason: *reason },
            ClipError::UnsupportedVersion { component, found, supported } => {
                ErrorView::UnsupportedVersion {
                    component: *component,
                    found: *found,
                    supported: *supported,
                }
            },
            ClipError::Import { reason, field, index } => ErrorView::Import {
                reason: *reason,
                field: match field {
                    Some(f) => Some(f@),
                    None => None,
                },
                index: *index,
            },
            ClipError::Locked => ErrorView::Locked,
            ClipError::WrongState { required } => ErrorView::WrongState { required: *required },
            ClipError::BadPin { attempts_remaining, retry_after_ms } => ErrorView::BadPin {
                attempts_remaining: *attempts_remaining,
                retry_after_ms: *retry_after_ms,
            },
            ClipError::Backoff { retry_after_ms } => ErrorView::Backoff {
                retry_after_ms: *retry_after_ms,
            },
            ClipError::Clipboard => ErrorView::Clipboard,
            ClipError::Internal => ErrorView::Internal,
        }
    }
}

impl Clone for ClipError {
    /// The same error.
    fn clone(&self) -> (r: ClipError)
        ensures
            r@ == self@,
    {
        match self {
            ClipError::NotFound { clip_id } => ClipError::NotFound { clip_id: clip_id.clone() },
            ClipError::InvalidInput { field, reason } => ClipError::InvalidInput { field: field.clone(), reason: *reason },
            ClipError::Storage => ClipError::Storage,
            ClipError::Io { operation, path, reason } => ClipError::Io {
                operation: *operation,
                path: path.clone(),
                reason: *reason,
            },
            ClipError::Crypto { reason } => ClipError::Crypto { reason: *reason },
            ClipError::UnsupportedVersion { component, found, supported } => ClipError::UnsupportedVersion {
                component: *component,
                found: *found,
                supported: *supported,
            },
            ClipError::Import { reason, field, index } => ClipError::Import {
                reason: *reason,
                field: match field {
                    Some(f) => Some(f.clone()),
                    None => None,
                },
                index: *index,
            },
            ClipError::Locked => ClipError::Locked,
            ClipError::WrongState { required } => ClipError::WrongState { required: *required },
            ClipError::BadPin { attempts_remaining, retry_after_ms } => ClipError::BadPin {
                attempts_remaining: *attempts_remaining,
                retry_after_ms: *retry_after_ms,
            },
            ClipError::Backoff { retry_after_ms } => ClipError::Backoff { retry_after_ms: *retry_after_ms },
            ClipError::Clipboard => ClipError::Clipboard,
            ClipError::Internal => ClipError::Internal,
        }
    }
}

/// A `Result` with its error taken by its view.
pub open spec fn outcome<T>(r: Result<T, ClipError>) -> Result<T, ErrorView> {
    match r {
        Ok(v) => Ok(v),
        Err(e) => Err(e@),
    }
}

/// `invalid_input { field, reason }`.
pub open spec fn invalid_view(field: Seq<char>, reason: InvalidReason) -> ErrorView {
    ErrorView::InvalidInput { field, reason }
}

/// Build `invalid_input { field, reason }`.
pub fn invalid(field: &str, reason: InvalidReason) -> (e: ClipError)
    ensures
        e@ == invalid_view(field@, reason),
{
    ClipError::InvalidInput { field: field.to_owned(), reason }
}

/// `crypto { bad_key_material }`.
pub fn bad_key_material() -> (e: ClipError)
    ensures
        e@ == (ErrorView::Crypto { reason: CryptoReason::BadKeyMaterial }),
{
    ClipError::Crypto { reason: CryptoReason::BadKeyMaterial }
}

impl InvalidReason {
    /// The variant's name, as a log line shows it.
    pub open spec fn spec_name(self) -> Seq<char> {
        match self {
            InvalidReason::Required => "Required"@,
            InvalidReason::TooLong => "TooLong"@,
            InvalidReason::ContainsControlCharacters => "ContainsControlCharacters"@,
            InvalidReason::NotAPaletteToken => "NotAPaletteToken"@,
            InvalidReason::NotPermitted => "NotPermitted"@,
            InvalidReason::UnknownField => "UnknownField"@,
            InvalidReason::MalformedUuid => "MalformedUuid"@,
            InvalidReason::NotAPermutation => "NotAPermutation"@,
            InvalidReason::NotSixDigits => "NotSixDigits"@,
        }
    }

    /// The variant's name.
    pub fn name(self) -> (r: &'static str)
        ensures
            r@ == self.spec_name(),
    {
        match self {
            InvalidReason::Required => "Required",
            InvalidReason::TooLong => "TooLong",
            InvalidReason::ContainsControlCharacters => "ContainsControlCharacters",
            InvalidReason::NotAPaletteToken => "NotAPaletteToken",
            InvalidReason::NotPermitted => "NotPermitted",
            InvalidReason::UnknownField => "UnknownField",
            InvalidReason::MalformedUuid => "MalformedUuid",
            InvalidReason::NotAPermutation => "NotAPermutation",
            InvalidReason::NotSixDigits => "NotSixDigits",
        }
    }
}

impl IoOperation {
    /// The variant's name, as a log line shows it.
    pub open spec fn spec_name(self) -> Seq<char> {
        match self {
            IoOperation::Read => "Read"@,
            IoOperation::Write => "Write"@,
        }
    }

    /// The variant's name.
    pub fn name(self) -> (r: &'static str)
        ensures
            r@ == self.spec_name(),
    {
        match self {
            IoOperation::Read => "Read",
            IoOperation::Write => "Write",
        }
    }
}

impl IoReason {
    /// The variant's name, as a log line shows it.
    pub open spec fn spec_name(self) -> Seq<char> {
        match self {
            IoReason::NotFound => "NotFound"@,
            IoReason::PermissionDenied => "PermissionDenied"@,
            IoReason::DiskFull => "DiskFull"@,
            IoReason::Other => "Other"@,
        }
    }

    /// The variant's name.
    pub fn name(self) -> (r: &'static str)
        ensures
            r@ == self.spec_name(),
    {
        match self {
            IoReason::NotFound => "NotFound",
            IoReason::PermissionDenied => "PermissionDenied",
            IoReason::DiskFull => "DiskFull",
            IoReason::Other => "Other",
        }
    }
}

impl CryptoReason {
    /// The variant's name, as a log line shows it.
    pub open spec fn spec_name(self) -> Seq<char> {
        match self {
            CryptoReason::BadKeyMaterial => "BadKeyMaterial"@,
            CryptoReason::Corrupt => "Corrupt"@,
        }
    }

    /// The variant's name.
    pub fn name(self) -> (r: &'static str)
        ensures
            r@ == self.spec_name(),
    {
        match self {
            CryptoReason::BadKeyMaterial => "BadKeyMaterial",
            CryptoReason::Corrupt => "Corrupt",
        }
    }
}

impl VersionComponent {
    /// The variant's name, as a log line shows it.
    pub open spec fn spec_name(self) -> Seq<char> {
        match self {
            VersionComponent::Schema => "Schema"@,
            VersionComponent::KeyMaterial => "KeyMaterial"@,
        }
    }

    /// The variant's name.
    pub fn name(self) -> (r: &'static str)
        ensures
            r@ == self.spec_name(),
    {
        match self {
            VersionComponent::Schema => "Schema",
            VersionComponent::KeyMaterial => "KeyMaterial",
        }
    }
}

impl ImportReason {
    /// The variant's name, as a log line shows it.
    pub open spec fn spec_name(self) -> Seq<char> {
        match self {
            ImportReason::MalformedJson => "MalformedJson"@,
            ImportReason::UnsupportedVersion => "UnsupportedVersion"@,
            ImportReason::MissingField => "MissingField"@,
            ImportReason::UnknownField => "UnknownField"@,
            ImportReason::InvalidValue => "InvalidValue"@,
        }
    }

    /// The variant's name.
    pub fn name(self) -> (r: &'static str)
        ensures
            r@ == self.spec_name(),
    {
        match self {
            ImportReason::MalformedJson => "MalformedJson",
            ImportReason::UnsupportedVersion => "UnsupportedVersion",
            ImportReason::MissingField => "MissingField",
            ImportReason::UnknownField => "UnknownField",
            ImportReason::InvalidValue => "InvalidValue",
        }
    }
}

impl RequiredState {
    /// The variant's name, as a log line shows it.
    pub open spec fn spec_name(self) -> Seq<char> {
        match self {
            RequiredState::Locked => "Locked"@,
            RequiredState::Encrypted => "Encrypted"@,
            RequiredState::Unencrypted => "Unencrypted"@,
        }
    }

    /// The variant's name.
    pub fn name(self) -> (r: &'static str)
        ensures
            r@ == self.spec_name(),
    {
        match self {
            RequiredState::Locked => "Locked",
            RequiredState::Encrypted => "Encrypted",
            RequiredState::Unencrypted => "Unencrypted",
        }
    }
}

/// How an error reads in a log line: the discriminant and its reasons, and
/// never a clip. The user-facing sentence comes from the frontend's copy.
pub open spec fn described(e: ErrorView) -> Seq<char> {
    match e {
        ErrorView::NotFound { .. } => "not_found"@,
        ErrorView::InvalidInput { field, reason } => "invalid_input (field "@ + field + ", reason "@
            + reason.spec_name() + ")"@,
        ErrorView::Storage => "storage"@,
        ErrorView::Io { operation, reason, .. } => "io ("@ + operation.spec_name() + ", "@ + reason.spec_name()
            + ")"@,
        ErrorView::Crypto { reason } => "crypto ("@ + reason.spec_name() + ")"@,
        ErrorView::UnsupportedVersion { component, found, supported } => "unsupported_version ("@
            + component.spec_name() + ": found "@ + signed_decimal(found as int) + ", supported "@
            + signed_decimal(supported as int) + ")"@,
        ErrorView::Import { reason, .. } => "import ("@ + reason.spec_name() + ")"@,
        ErrorView::Locked => "locked"@,
        ErrorView::WrongState { required } => "wrong_state (requires "@ + required.spec_name() + ")"@,
        ErrorView::BadPin { .. } => "bad_pin"@,
        ErrorView::Backoff { .. } => "backoff"@,
        ErrorView::Clipboard => "clipboard"@,
        ErrorView::Internal => "internal"@,
    }
}

impl ClipError {
    /// The log line for this error.
    pub fn describe(&self) -> (r: String)
        ensures
            r@ == described(self@),
    {
        match self {
            ClipError::NotFound { .. } => String::from_str("not_found"),
            ClipError::InvalidInput { field, reason } => {
                let mut text = String::from_str("invalid_input (field ");
                text.append(field.as_str());
                text.append(", reason ");
                text.append(reason.name());
                text.append(")");
                text
            },
            ClipError::Storage => String::from_str("storage"),
            ClipError::Io { operation, reason, .. } => {
                let mut text = String::from_str("io (");
                text.append(operation.name());
                text.append(", ");
                text.append(reason.name());
                text.append(")");
                text
            },
            ClipError::Crypto { reason } => {
                let mut text = String::from_str("crypto (");
                text.append(reason.name());
                text.append(")");
                text
            },
            ClipError::UnsupportedVersion { component, found, supported } => {
                let mut text = String::from_str("unsupported_version (");
                text.append(component.name());
                text.append(": found ");
                let found = signed_decimal_text(*found);
                text.append(found.as_str());
                text.append(", supported ");
                let supported = signed_decimal_text(*supported);
                text.append(supported.as_str());
                text.append(")");
                text
            },
            ClipError::Import { reason, .. } => {
                let mut text = String::from_str("import (");
                text.append(reason.name());
                text.append(")");
                text
            },
            ClipError::Locked => String::from_str("locked"),
            ClipError::WrongState { required } => {
                let mut text = String::from_str("wrong_state (requires ");
                text.append(required.name());
                text.append(")");
                text
            },
            ClipError::BadPin { .. } => String::from_str("bad_pin"),
            ClipError::Backoff { .. } => String::from_str("backoff"),
            ClipError::Clipboard => String::from_str("clipboard"),
            ClipError::Internal => String::from_str("internal"),
        }
    }
}

} // verus!
