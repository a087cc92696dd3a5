//! The export file: the on-disk shape `export_clips` writes and `import_clips`
//! reads. A file format, versioned on its own: this build writes and accepts
//! `version: 1`.
//!
//! **Rendering is strict.** Four fields per clip, `use_count` never among them.
//!
//! **Parsing is forgiving about shape and strict about content.** Every field
//! is judged here by hand, so that a rejection names the field and the index of
//! the clip it came from, and never the text it rejected.

use vstd::prelude::*;

use crate::colour::{token_name, token_named, Colour};
use crate::commands::wire::{Clip, LABEL_MAX_CHARS, VALUE_MAX_CHARS};
use crate::error::{ClipError, ErrorView, ImportReason};
use crate::ids::{hyphenated, uuid_text};
use crate::json::{find_member, find_undeclared, first_index_of, first_undeclared, lookup, JsonValue};
use crate::text::{has_control, is_blank, text_has_control, text_is_blank};

verus! {

/// The `format` marker. Anything else is not a FastClip export.
pub const FORMAT: &'static str = "fastclip-export";

/// The export format version this build writes and accepts.
pub const EXPORT_VERSION: i64 = 1;

/// The top-level keys.
pub const TOP_LEVEL_FIELDS: [&'static str; 3] = ["format", "version", "clips"];

/// The keys a clip may carry. `id` is written and ignored on import: import
/// mints a fresh one for every clip.
pub const CLIP_FIELDS: [&'static str; 4] = ["id", "label", "value", "colour"];

/// A clip read out of an export file and validated. It has no `id`, by
/// construction: a type that could carry the file's id is a type from which
/// one could be inserted.
#[derive(Debug, Clone, PartialEq, Eq)]
pub struct ImportedClip {
    pub label: String,
    pub value: String,
    pub colour: Colour,
}

/// An imported clip, taken by its characters.
pub open spec fn imported_view(c: ImportedClip) -> (Seq<char>, Seq<char>, Colour) {
    (c.label@, c.value@, c.colour)
}

pub open spec fn top_level_names() -> Seq<Seq<char>> {
    seq!["format"@, "version"@, "clips"@]
}

pub open spec fn clip_names() -> Seq<Seq<char>> {
    seq!["id"@, "label"@, "value"@, "colour"@]
}

/// A clip index as the error carries it: saturated into `u32`, so no input
/// can make the conversion fail.
pub open spec fn index_u32(i: int) -> u32 {
    if i > u32::MAX { u32::MAX } else if i < 0 { 0 } else { i as u32 }
}

/// `import { reason, field, index }`.
pub open spec fn import_err(reason: ImportReason, field: Option<Seq<char>>, index: Option<int>) -> ErrorView {
    ErrorView::Import {
        reason,
        field,
        index: match index {
            Some(i) => Some(index_u32(i)),
            None => None,
        },
    }
}

/// A label as an import judges it: the boundary's limits, with one reason for
/// all three faults.
pub open spec fn import_label_ok(label: Seq<char>) -> bool {
    !is_blank(label) && label.len() <= LABEL_MAX_CHARS && !has_control(label)
}

/// A value as an import judges it.
pub open spec fn import_value_ok(value: Seq<char>) -> bool {
    !is_blank(value) && value.len() <= VALUE_MAX_CHARS
}

/// Whether a clip passes an import's checks on its label and value.
pub open spec fn importable(clip: Clip) -> bool {
    import_label_ok(clip.label@) && import_value_ok(clip.value@)
}

/// A required text member of clip `index`.
pub open spec fn text_member(entries: Seq<(String, JsonValue)>, field: Seq<char>, index: int) -> Result<Seq<char>, ErrorView> {
    match lookup(entries, field) {
        None => Err(import_err(ImportReason::MissingField, Some(field), Some(index))),
        Some(JsonValue::Text(s)) => Ok(s@),
        Some(_) => Err(import_err(ImportReason::InvalidValue, Some(field), Some(index))),
    }
}

/// What one element of `clips` gives, at `index`.
pub open spec fn clip_entry_outcome(item: JsonValue, index: int) -> Result<(Seq<char>, Seq<char>, Colour), ErrorView> {
    match item {
        JsonValue::Object(members) => {
            let e = members@;
            match first_undeclared(e, clip_names(), 0) {
                Some(k) => Err(import_err(ImportReason::UnknownField, Some(e[k].0@), Some(index))),
                None => match text_member(e, "label"@, index) {
                    Err(x) => Err(x),
                    Ok(label) => if !import_label_ok(label) {
                        Err(import_err(ImportReason::InvalidValue, Some("label"@), Some(index)))
                    } else {
                        match text_member(e, "value"@, index) {
                            Err(x) => Err(x),
                            Ok(value) => if !import_value_ok(value) {
                                Err(import_err(ImportReason::InvalidValue, Some("value"@), Some(index)))
                            } else {
                                match text_member(e, "colour"@, index) {
                                    Err(x) => Err(x),
                                    Ok(token) => match token_named(token) {
                                        None => Err(import_err(ImportReason::InvalidValue, Some("colour"@), Some(index))),
                                        Some(c) => Ok((label, value, c)),
                                    },
                                }
                            },
                        }
                    },
                },
            }
        },
        _ => Err(import_err(ImportReason::InvalidValue, None, Some(index))),
    }
}

/// The first `n` elements of `clips`, judged in order: the first failure is
/// the answer, and nothing after it is examined.
pub open spec fn clips_prefix_outcome(items: Seq<JsonValue>, n: int) -> Result<Seq<(Seq<char>, Seq<char>, Colour)>, ErrorView>
    decreases n,
{
    if n <= 0 {
        Ok(Seq::empty())
    } else {
        match clips_prefix_outcome(items, n - 1) {
            Err(e) => Err(e),
            Ok(acc) => match clip_entry_outcome(items[n - 1], n - 1) {
                Err(e) => Err(e),
                Ok(c) => Ok(acc.push(c)),
            },
        }
    }
}

/// Once a prefix of `clips` has failed, every longer prefix fails the same
/// way: nothing after the first bad clip is examined.
proof fn lemma_prefix_failure_persists(items: Seq<JsonValue>, k: int, n: int)
    requires
        0 <= k <= n,
        clips_prefix_outcome(items, k) is Err,
    ensures
        clips_prefix_outcome(items, n) == clips_prefix_outcome(items, k),
    decreases n - k,
{
    if n > k {
        lemma_prefix_failure_persists(items, k, n - 1);
    }
}

/// Judge the `version` header: above this build's is `unsupported_version`;
/// below it is `malformed_json`, because no build ever wrote one.
pub open spec fn version_outcome(version: Option<JsonValue>) -> Option<ErrorView> {
    match version {
        None => Some(import_err(ImportReason::MissingField, Some("version"@), None)),
        Some(JsonValue::Integer(v)) => if v == EXPORT_VERSION {
            None
        } else if v > EXPORT_VERSION {
            Some(import_err(ImportReason::UnsupportedVersion, Some("version"@), None))
        } else {
            Some(import_err(ImportReason::MalformedJson, Some("version"@), None))
        },
        Some(_) => Some(import_err(ImportReason::InvalidValue, Some("version"@), None)),
    }
}

/// Judge the `format` marker.
pub open spec fn format_outcome(format: Option<JsonValue>) -> Option<ErrorView> {
    match format {
        None => Some(import_err(ImportReason::MissingField, Some("format"@), None)),
        Some(JsonValue::Text(s)) => if s@ == FORMAT@ {
            None
        } else {
            Some(import_err(ImportReason::MalformedJson, Some("format"@), None))
        },
        Some(_) => Some(import_err(ImportReason::MalformedJson, Some("format"@), None)),
    }
}

/// What a whole export file gives. `None` is a file that is not JSON at all.
/// The version is judged before the unknown-field sweep, so a newer file is
/// reported as too new rather than as a typo.
pub open spec fn document_outcome(document: Option<JsonValue>) -> Result<Seq<(Seq<char>, Seq<char>, Colour)>, ErrorView> {
    match document {
        Some(JsonValue::Object(members)) => {
            let e = members@;
            if format_outcome(lookup(e, "format"@)) is Some {
                Err(format_outcome(lookup(e, "format"@))->0)
            } else if version_outcome(lookup(e, "version"@)) is Some {
                Err(version_outcome(lookup(e, "version"@))->0)
            } else if first_undeclared(e, top_level_names(), 0) is Some {
                Err(import_err(ImportReason::UnknownField, Some(e[first_undeclared(e, top_level_names(), 0)->0].0@), None))
            } else {
                match lookup(e, "clips"@) {
                    None => Err(import_err(ImportReason::MissingField, Some("clips"@), None)),
                    Some(JsonValue::Array(items)) => clips_prefix_outcome(items@, items@.len() as int),
                    Some(_) => Err(import_err(ImportReason::InvalidValue, Some("clips"@), None)),
                }
            }
        },
        _ => Err(import_err(ImportReason::MalformedJson, None, None)),
    }
}

/// Build `import { reason, field, index }`.
fn import_error(reason: ImportReason, field: Option<&str>, index: Option<usize>) -> (e: ClipError)
    ensures
        e@ == import_err(
            reason,
            match field { Some(f) => Some(f@), None => None },
            match index { Some(i) => Some(i as int), None => None },
        ),
{
    let field = match field {
        Some(f) => Some(f.to_owned()),
        None => None,
    };
    let index = match index {
        Some(i) => if i > u32::MAX as usize { Some(u32::MAX) } else { Some(i as u32) },
        None => None,
    };
    ClipError::Import { reason, field, index }
}

/// A UTF-8 byte order mark, if the file starts with one, is skipped: an export
/// a user opened in Notepad to fix a typo carries one.
pub fn strip_bom(bytes: &[u8]) -> (r: &[u8])
    ensures
        r@ == if bytes@.len() >= 3 && bytes@[0] == 0xEF && bytes@[1] == 0xBB && bytes@[2] == 0xBF {
            bytes@.subrange(3, bytes@.len() as int)
        } else {
            bytes@
        },
{
    if bytes.len() >= 3 && bytes[0] == 0xEF && bytes[1] == 0xBB && bytes[2] == 0xBF {
        &bytes[3..bytes.len()]
    } else {
        bytes
    }
}

/// A required text member of clip `index`.
fn require_text(entries: &Vec<(String, JsonValue)>, field: &str, index: usize) -> (r: Result<String, ClipError>)
    ensures
        match text_member(entries@, field@, index as int) {
            Ok(s) => r matches Ok(got) && got@ == s,
            Err(e) => r matches Err(got) && got@ == e,
        },
{
    match find_member(entries, field) {
        None => Err(import_error(ImportReason::MissingField, Some(field), Some(index))),
        Some(i) => match &entries[i].1 {
            JsonValue::Text(text) => {
                assert(lookup(entries@, field@) == Some(entries@[i as int].1));
                let got = text.clone();
                assert(text_member(entries@, field@, index as int) == Ok::<Seq<char>, ErrorView>(got@));
                Ok(got)
            },
            _ => Err(import_error(ImportReason::InvalidValue, Some(field), Some(index))),
        },
    }
}

/// Judge one element of `clips`.
fn parse_clip(item: &JsonValue, index: usize) -> (r: Result<ImportedClip, ClipError>)
    ensures
        match clip_entry_outcome(*item, index as int) {
            Ok(c) => r matches Ok(got) && imported_view(got) == c,
            Err(e) => r matches Err(got) && got@ == e,
        },
{
    let members = match item {
        JsonValue::Object(members) => members,
        _ => return Err(import_error(ImportReason::InvalidValue, None, Some(index))),
    };
    let declared: [&str; 4] = CLIP_FIELDS;
    proof {
        assert(declared@.map_values(|d: &str| d@) =~= clip_names());
    }
    match find_undeclared(members, declared.as_slice()) {
        Some(k) => {
            return Err(import_error(ImportReason::UnknownField, Some(members[k].0.as_str()), Some(index)));
        },
        None => {},
    }
    let label = require_text(members, "label", index)?;
    if text_is_blank(label.as_str()) || label.as_str().unicode_len() > LABEL_MAX_CHARS || text_has_control(label.as_str()) {
        return Err(import_error(ImportReason::InvalidValue, Some("label"), Some(index)));
    }
    let value = require_text(members, "value", index)?;
    if text_is_blank(value.as_str()) || value.as_str().unicode_len() > VALUE_MAX_CHARS {
        return Err(import_error(ImportReason::InvalidValue, Some("value"), Some(index)));
    }
    let token = require_text(members, "colour", index)?;
    let colour = match Colour::parse_token(token.as_str()) {
        Some(colour) => colour,
        None => return Err(import_error(ImportReason::InvalidValue, Some("colour"), Some(index))),
    };
    Ok(ImportedClip { label, value, colour })
}

/// Parse and validate a whole export file, already read as JSON. `None` is a
/// file that is not UTF-8 JSON at all.
///
/// The first failure aborts with an `import` error naming the reason, the
/// field and the index of the offending clip: a file whose tenth clip is bad
/// imports none of the first nine.
pub fn parse(document: Option<JsonValue>) -> (r: Result<Vec<ImportedClip>, ClipError>)
    ensures
        match document_outcome(document) {
            Ok(clips) => r matches Ok(got) && got@.map_values(|c: ImportedClip| imported_view(c)) == clips,
            Err(e) => r matches Err(got) && got@ == e,
        },
{
    let members = match &document {
        Some(JsonValue::Object(members)) => members,
        _ => return Err(import_error(ImportReason::MalformedJson, None, None)),
    };
    match find_member(members, "format") {
        None => return Err(import_error(ImportReason::MissingField, Some("format"), None)),
        Some(i) => match &members[i].1 {
            JsonValue::Text(s) => if !crate::text::same_text(s.as_str(), FORMAT) {
                return Err(import_error(ImportReason::MalformedJson, Some("format"), None));
            },
            _ => return Err(import_error(ImportReason::MalformedJson, Some("format"), None)),
        },
    }
    match find_member(members, "version") {
        None => return Err(import_error(ImportReason::MissingField, Some("version"), None)),
        Some(i) => match &members[i].1 {
            JsonValue::Integer(v) => if *v > EXPORT_VERSION {
                return Err(import_error(ImportReason::UnsupportedVersion, Some("version"), None));
            } else if *v < EXPORT_VERSION {
                return Err(import_error(ImportReason::MalformedJson, Some("version"), None));
            },
            _ => return Err(import_error(ImportReason::InvalidValue, Some("version"), None)),
        },
    }
    let declared: [&str; 3] = TOP_LEVEL_FIELDS;
    proof {
        assert(declared@.map_values(|d: &str| d@) =~= top_level_names());
    }
    match find_undeclared(members, declared.as_slice()) {
        Some(k) => {
            return Err(import_error(ImportReason::UnknownField, Some(members[k].0.as_str()), None));
        },
        None => {},
    }
    let items = match find_member(members, "clips") {
        None => return Err(import_error(ImportReason::MissingField, Some("clips"), None)),
        Some(i) => match &members[i].1 {
            JsonValue::Array(items) => items,
            _ => return Err(import_error(ImportReason::InvalidValue, Some("clips"), None)),
        },
    };
    assert(document_outcome(document) == clips_prefix_outcome(items@, items@.len() as int));
    let mut parsed: Vec<ImportedClip> = Vec::new();
    let mut i: usize = 0;
    while i < items.len()
        invariant
            i <= items@.len(),
            document_outcome(document) == clips_prefix_outcome(items@, items@.len() as int),
            clips_prefix_outcome(items@, i as int) matches Ok(acc) && parsed@.map_values(|c: ImportedClip| imported_view(c)) == acc,
        decreases items@.len() - i,
    {
        let clip = match parse_clip(&items[i], i) {
            Ok(clip) => clip,
            Err(error) => {
                proof {
                    assert(clips_prefix_outcome(items@, i + 1) == Err::<Seq<(Seq<char>, Seq<char>, Colour)>, ErrorView>(error@));
                    lemma_prefix_failure_persists(items@, i + 1, items@.len() as int);
                }
                return Err(error);
            },
        };
        parsed.push(clip);
        proof {
            assert(parsed@.map_values(|c: ImportedClip| imported_view(c)) =~= clips_prefix_outcome(items@, i + 1)->Ok_0);
        }
        i = i + 1;
    }
    Ok(parsed)
}

/// The number of clips in an export file, or its rejection. The readback an
/// export runs before committing its file: a count is only trustworthy if the
/// file parsed.
pub fn parsed_count(document: Option<JsonValue>) -> (r: Result<usize, ClipError>)
    ensures
        match document_outcome(document) {
            Ok(clips) => clips.len() <= usize::MAX && r == Ok::<usize, ClipError>(clips.len() as usize),
            Err(e) => r matches Err(got) && got@ == e,
        },
{
    match parse(document) {
        Ok(clips) => Ok(clips.len()),
        Err(error) => Err(error),
    }
}

/// Whether `item` is the object an export writes for `clip`: exactly its
/// four fields, in key order, and nothing about its use.
pub open spec fn is_clip_object(item: JsonValue, clip: Clip) -> bool {
    match item {
        JsonValue::Object(members) => {
            let m = members@;
            &&& m.len() == 4
            &&& m[0].0@ == "colour"@
            &&& (m[0].1 matches JsonValue::Text(t) && t@ == token_name(clip.colour))
            &&& m[1].0@ == "id"@
            &&& (m[1].1 matches JsonValue::Text(t) && t@ == hyphenated(clip.id))
            &&& m[2].0@ == "label"@
            &&& (m[2].1 matches JsonValue::Text(t) && t@ == clip.label@)
            &&& m[3].0@ == "value"@
            &&& (m[3].1 matches JsonValue::Text(t) && t@ == clip.value@)
        },
        _ => false,
    }
}

/// Whether `document` is the export of `clips`, in order: the envelope and
/// one object per clip.
pub open spec fn is_export_of(document: JsonValue, clips: Seq<Clip>) -> bool {
    match document {
        JsonValue::Object(members) => {
            let m = members@;
            &&& m.len() == 3
            &&& m[0].0@ == "clips"@
            &&& (m[0].1 matches JsonValue::Array(items) && items@.len() == clips.len()
                && forall|k: int| 0 <= k < clips.len() ==> is_clip_object(#[trigger] items@[k], clips[k]))
            &&& m[1].0@ == "format"@
            &&& (m[1].1 matches JsonValue::Text(t) && t@ == FORMAT@)
            &&& m[2].0@ == "version"@ && m[2].1 == JsonValue::Integer(EXPORT_VERSION)
        },
        _ => false,
    }
}

/// Build a text member.
fn text_entry(key: &str, text: String) -> (r: (String, JsonValue))
    ensures
        r.0@ == key@,
        r.1 matches JsonValue::Text(t) && t@ == text@,
{
    (key.to_owned(), JsonValue::Text(text))
}

/// The object an export writes for one clip: `colour`, `id`, `label` and
/// `value`, and never `use_count`, which describes how this machine was used
/// rather than what a clip is.
fn clip_object(clip: &Clip) -> (r: JsonValue)
    ensures
        is_clip_object(r, *clip),
{
    let mut members: Vec<(String, JsonValue)> = Vec::new();
    members.push(text_entry("colour", clip.colour.as_str().to_owned()));
    members.push(text_entry("id", uuid_text(clip.id)));
    members.push(text_entry("label", clip.label.clone()));
    members.push(text_entry("value", clip.value.clone()));
    JsonValue::Object(members)
}

/// The export document for `clips`, in order. Turning it into bytes is the
/// serialiser's work, done where the file is written.
pub fn export_document(clips: &Vec<Clip>) -> (r: JsonValue)
    ensures
        is_export_of(r, clips@),
{
    let mut items: Vec<JsonValue> = Vec::new();
    let mut i: usize = 0;
    while i < clips.len()
        invariant
            i <= clips@.len(),
            items@.len() == i,
            forall|k: int| 0 <= k < i ==> is_clip_object(#[trigger] items@[k], clips@[k]),
        decreases clips@.len() - i,
    {
        items.push(clip_object(&clips[i]));
        i = i + 1;
    }
    let mut members: Vec<(String, JsonValue)> = Vec::new();
    members.push(("clips".to_owned(), JsonValue::Array(items)));
    members.push(text_entry("format", FORMAT.to_owned()));
    members.push(("version".to_owned(), JsonValue::Integer(EXPORT_VERSION)));
    JsonValue::Object(members)
}

/// The keys an export writes are told apart by their first two characters.
proof fn lemma_field_names_distinct()
    ensures
        "clips"@ != "format"@, "clips"@ != "version"@, "format"@ != "version"@,
        "colour"@ != "id"@, "colour"@ != "label"@, "colour"@ != "value"@,
        "id"@ != "label"@, "id"@ != "value"@, "label"@ != "value"@,
        top_level_names().contains("clips"@), top_level_names().contains("format"@),
        top_level_names().contains("version"@),
        clip_names().contains("colour"@), clip_names().contains("id"@),
        clip_names().contains("label"@), clip_names().contains("value"@),
{
    reveal_strlit("clips");
    reveal_strlit("format");
    reveal_strlit("version");
    reveal_strlit("colour");
    reveal_strlit("id");
    reveal_strlit("label");
    reveal_strlit("value");
    assert("clips"@[0] == 'c' && "clips"@[1] == 'l');
    assert("format"@[0] == 'f');
    assert("version"@[0] == 'v' && "version"@[1] == 'e');
    assert("colour"@[0] == 'c' && "colour"@[1] == 'o');
    assert("id"@[0] == 'i');
    assert("label"@[0] == 'l');
    assert("value"@[0] == 'v' && "value"@[1] == 'a');
    assert(top_level_names()[0] == "format"@);
    assert(top_level_names()[1] == "version"@);
    assert(top_level_names()[2] == "clips"@);
    assert(clip_names()[0] == "id"@);
    assert(clip_names()[1] == "label"@);
    assert(clip_names()[2] == "value"@);
    assert(clip_names()[3] == "colour"@);
}

/// One clip object written by an export reads back as that clip.
proof fn lemma_clip_object_reads_back(item: JsonValue, clip: Clip, index: int)
    requires
        is_clip_object(item, clip),
        importable(clip),
    ensures
        clip_entry_outcome(item, index) == Ok::<(Seq<char>, Seq<char>, Colour), ErrorView>(
            (clip.label@, clip.value@, clip.colour),
        ),
{
    lemma_field_names_distinct();
    crate::colour::lemma_token_names_round_trip(clip.colour);
    if let JsonValue::Object(members) = item {
        let m = members@;
        assert(first_undeclared(m, clip_names(), 4) is None);
        assert(first_undeclared(m, clip_names(), 3) is None);
        assert(first_undeclared(m, clip_names(), 2) is None);
        assert(first_undeclared(m, clip_names(), 1) is None);
        assert(first_undeclared(m, clip_names(), 0) is None);
        assert(first_index_of(m, "label"@, 2) == Some(2int));
        assert(first_index_of(m, "label"@, 1) == Some(2int));
        assert(first_index_of(m, "label"@, 0) == Some(2int));
        assert(first_index_of(m, "value"@, 3) == Some(3int));
        assert(first_index_of(m, "value"@, 2) == Some(3int));
        assert(first_index_of(m, "value"@, 1) == Some(3int));
        assert(first_index_of(m, "value"@, 0) == Some(3int));
        assert(first_index_of(m, "colour"@, 0) == Some(0int));
    }
}

/// **Every clip survives an export and an import unchanged**: the document an
/// export writes for clips that pass the boundary's checks reads back as
/// exactly those labels, values and colours, in order. This is what makes an
/// export a backup.
pub proof fn lemma_export_round_trip(document: JsonValue, clips: Seq<Clip>)
    requires
        is_export_of(document, clips),
        forall|k: int| 0 <= k < clips.len() ==> #[trigger] importable(clips[k]),
    ensures
        document_outcome(Some(document)) == Ok::<Seq<(Seq<char>, Seq<char>, Colour)>, ErrorView>(
            clips.map_values(|c: Clip| (c.label@, c.value@, c.colour)),
        ),
{
    lemma_field_names_distinct();
    reveal_strlit("fastclip-export");
    if let JsonValue::Object(members) = document {
        let m = members@;
        assert(first_index_of(m, "format"@, 1) == Some(1int));
        assert(first_index_of(m, "format"@, 0) == Some(1int));
        assert(first_index_of(m, "version"@, 2) == Some(2int));
        assert(first_index_of(m, "version"@, 1) == Some(2int));
        assert(first_index_of(m, "version"@, 0) == Some(2int));
        assert(first_index_of(m, "clips"@, 0) == Some(0int));
        assert(first_undeclared(m, top_level_names(), 3) is None);
        assert(first_undeclared(m, top_level_names(), 2) is None);
        assert(first_undeclared(m, top_level_names(), 1) is None);
        assert(first_undeclared(m, top_level_names(), 0) is None);
        if let JsonValue::Array(items) = m[0].1 {
            lemma_clips_read_back(items@, clips, clips.len() as int);
            assert(clips.map_values(|c: Clip| (c.label@, c.value@, c.colour)).take(clips.len() as int)
                =~= clips.map_values(|c: Clip| (c.label@, c.value@, c.colour)));
        }
    }
}

proof fn lemma_clips_read_back(items: Seq<JsonValue>, clips: Seq<Clip>, n: int)
    requires
        0 <= n <= clips.len(),
        items.len() == clips.len(),
        forall|k: int| 0 <= k < clips.len() ==> is_clip_object(#[trigger] items[k], clips[k]),
        forall|k: int| 0 <= k < clips.len() ==> #[trigger] importable(clips[k]),
    ensures
        clips_prefix_outcome(items, n) == Ok::<Seq<(Seq<char>, Seq<char>, Colour)>, ErrorView>(
            clips.map_values(|c: Clip| (c.label@, c.value@, c.colour)).take(n),
        ),
    decreases n,
{
    if n > 0 {
        lemma_clips_read_back(items, clips, n - 1);
        lemma_clip_object_reads_back(items[n - 1], clips[n - 1], n - 1);
        assert(clips.map_values(|c: Clip| (c.label@, c.value@, c.colour)).take(n)
            =~= clips.map_values(|c: Clip| (c.label@, c.value@, c.colour)).take(n - 1).push(
                (clips[n - 1].label@, clips[n - 1].value@, clips[n - 1].colour),
            ));
    } else {
        assert(clips.map_values(|c: Clip| (c.label@, c.value@, c.colour)).take(0) =~= Seq::empty());
    }
}

} // verus!
