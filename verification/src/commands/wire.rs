//! The shapes that cross the IPC seam, and the validation that decides whether
//! one is allowed to.
//!
//! **Outbound is strict.** [`Clip`] is exactly `id`, `label`, `value`,
//! `colour`: `use_count` and `position` cannot reach the wire.
//!
//! **Inbound is lenient, then validated.** Every field of an argument arrives
//! optional, `colour` arrives as text and is resolved here, and undeclared keys
//! are captured so a rejection can name them.

use vstd::prelude::*;

use crate::colour::{token_name, token_named, Colour};
use crate::error::{ClipError, ErrorView, InvalidReason, invalid_view};
use crate::ids::{hyphenated, parse_uuid_text, uuid_parsed, uuid_text, ClipId};
use crate::redact::{redacted_text, Redacted};
use crate::text::{has_control, is_blank, opt_text, same_text, text_has_control, text_is_blank};

verus! {

/// Counted in Unicode scalar values.
pub const LABEL_MAX_CHARS: usize = 100;

/// Counted in Unicode scalar values.
pub const VALUE_MAX_CHARS: usize = 10000;

/// The clip as it crosses the seam.
#[derive(Clone, PartialEq, Eq)]
pub struct Clip {
    pub id: ClipId,
    pub label: String,
    pub value: String,
    pub colour: Colour,
}

impl Clip {
    /// How a clip reads in a log line: its id and colour, and its label and
    /// value only as character counts.
    pub fn describe(&self) -> (r: String)
        ensures
            r@ == "Clip { id: "@ + hyphenated(self.id) + ", label: "@ + redacted_text(self.label@.len())
                + ", value: "@ + redacted_text(self.value@.len()) + ", colour: "@ + token_name(self.colour) + " }"@,
    {
        let mut text = String::from_str("Clip { id: ");
        text.append(uuid_text(self.id).as_str());
        text.append(", label: ");
        text.append(Redacted::of(self.label.as_str()).render().as_str());
        text.append(", value: ");
        text.append(Redacted::of(self.value.as_str()).render().as_str());
        text.append(", colour: ");
        text.append(self.colour.as_str());
        text.append(" }");
        text
    }
}

/// The lenient form of the `clip` argument, for create and update alike: every
/// field optional, and every key the IPC interface does not declare kept by name,
/// in the order the argument's map yields them.
#[derive(Debug, Clone)]
pub struct ClipPayload {
    pub id: Option<String>,
    pub label: Option<String>,
    pub value: Option<String>,
    pub colour: Option<String>,
    pub extra: Vec<String>,
}

/// A `ClipPayload` taken by its characters.
pub struct PayloadView {
    pub id: Option<Seq<char>>,
    pub label: Option<Seq<char>>,
    pub value: Option<Seq<char>>,
    pub colour: Option<Seq<char>>,
    pub extra: Seq<Seq<char>>,
}

impl View for ClipPayload {
    type V = PayloadView;

    open spec fn view(&self) -> PayloadView {
        PayloadView {
            id: opt_text(self.id),
            label: opt_text(self.label),
            value: opt_text(self.value),
            colour: opt_text(self.colour),
            extra: self.extra@.map_values(|k: String| k@),
        }
    }
}

/// A validated draft. Has no identity, by construction.
#[derive(Debug, Clone, PartialEq, Eq)]
pub struct ValidDraft {
    pub label: String,
    pub value: String,
    pub colour: Colour,
}

/// A validated clip.
#[derive(Debug, Clone, PartialEq, Eq)]
pub struct ValidClip {
    pub id: ClipId,
    pub label: String,
    pub value: String,
    pub colour: Colour,
}

/// The lock state the frontend is told. `attempts_remaining` and
/// `retry_after_ms` are `None` whenever `locked` is false.
#[derive(Debug, Clone, Copy, PartialEq, Eq, Structural)]
pub struct LockState {
    pub encryption_enabled: bool,
    pub locked: bool,
    pub attempts_remaining: Option<u32>,
    pub retry_after_ms: Option<u64>,
}

impl LockState {
    /// Encryption off, the default: every field fixed.
    pub fn unencrypted() -> (r: LockState)
        ensures
            r == (LockState { encryption_enabled: false, locked: false, attempts_remaining: None, retry_after_ms: None }),
    {
        LockState { encryption_enabled: false, locked: false, attempts_remaining: None, retry_after_ms: None }
    }

    /// Encrypted and open.
    pub fn unlocked() -> (r: LockState)
        ensures
            r == (LockState { encryption_enabled: true, locked: false, attempts_remaining: None, retry_after_ms: None }),
    {
        LockState { encryption_enabled: true, locked: false, attempts_remaining: None, retry_after_ms: None }
    }

    /// Encrypted and closed, as reported the moment a lock takes effect: a
    /// constant, because nothing fallible may run after the key is given up.
    pub fn locked() -> (r: LockState)
        ensures
            r == (LockState { encryption_enabled: true, locked: true, attempts_remaining: None, retry_after_ms: None }),
    {
        LockState { encryption_enabled: true, locked: true, attempts_remaining: None, retry_after_ms: None }
    }
}

/// What is wrong with a label, if anything, in a fixed order of
/// the reasons: blank, too long, control characters. Not trimmed: what the
/// user typed is what is stored.
pub open spec fn label_fault(label: Seq<char>) -> Option<InvalidReason> {
    if is_blank(label) {
        Some(InvalidReason::Required)
    } else if label.len() > LABEL_MAX_CHARS {
        Some(InvalidReason::TooLong)
    } else if has_control(label) {
        Some(InvalidReason::ContainsControlCharacters)
    } else {
        None
    }
}

/// What is wrong with a value, if anything. Any character is allowed,
/// newlines included.
pub open spec fn value_fault(value: Seq<char>) -> Option<InvalidReason> {
    if is_blank(value) {
        Some(InvalidReason::Required)
    } else if value.len() > VALUE_MAX_CHARS {
        Some(InvalidReason::TooLong)
    } else {
        None
    }
}

/// Whether a label and a value pass the boundary's checks.
pub open spec fn content_valid(label: Seq<char>, value: Seq<char>) -> bool {
    label_fault(label) is None && value_fault(value) is None
}

/// The rejection for the first undeclared key, if there is one: `id` and
/// `use_count` are `not_permitted` (they exist and are backend-owned), anything
/// else is `unknown_field`.
pub open spec fn undeclared_fault(extra: Seq<Seq<char>>) -> Option<ErrorView> {
    if extra.len() == 0 {
        None
    } else {
        let first = extra[0];
        Some(invalid_view(
            first,
            if first == "id"@ || first == "use_count"@ {
                InvalidReason::NotPermitted
            } else {
                InvalidReason::UnknownField
            },
        ))
    }
}

/// The three shared fields, judged after any undeclared key, in a fixed order: label, value, colour.
pub open spec fn parts_outcome(p: PayloadView) -> Result<(Seq<char>, Seq<char>, Colour), ErrorView> {
    if undeclared_fault(p.extra) is Some {
        Err(undeclared_fault(p.extra)->0)
    } else if p.label is None {
        Err(invalid_view("label"@, InvalidReason::Required))
    } else if label_fault(p.label->0) is Some {
        Err(invalid_view("label"@, label_fault(p.label->0)->0))
    } else if p.value is None {
        Err(invalid_view("value"@, InvalidReason::Required))
    } else if value_fault(p.value->0) is Some {
        Err(invalid_view("value"@, value_fault(p.value->0)->0))
    } else if p.colour is None {
        Err(invalid_view("colour"@, InvalidReason::Required))
    } else if token_named(p.colour->0) is None {
        Err(invalid_view("colour"@, InvalidReason::NotAPaletteToken))
    } else {
        Ok((p.label->0, p.value->0, token_named(p.colour->0)->0))
    }
}

/// What validating a create's argument gives.
pub open spec fn draft_outcome(clip: Option<PayloadView>) -> Result<(Seq<char>, Seq<char>, Colour), ErrorView> {
    match clip {
        None => Err(invalid_view("clip"@, InvalidReason::Required)),
        Some(p) => if p.id is Some {
            Err(invalid_view("id"@, InvalidReason::NotPermitted))
        } else {
            parts_outcome(p)
        },
    }
}

/// What validating an update's argument gives.
pub open spec fn clip_outcome(clip: Option<PayloadView>) -> Result<(ClipId, Seq<char>, Seq<char>, Colour), ErrorView> {
    match clip {
        None => Err(invalid_view("clip"@, InvalidReason::Required)),
        Some(p) => match p.id {
            None => Err(invalid_view("id"@, InvalidReason::Required)),
            Some(text) => match uuid_parsed(text) {
                None => Err(invalid_view("id"@, InvalidReason::MalformedUuid)),
                Some(id) => match parts_outcome(p) {
                    Err(e) => Err(e),
                    Ok((l, v, c)) => Ok((id, l, v, c)),
                },
            },
        },
    }
}

/// What the `clip_id` argument gives.
pub open spec fn clip_id_outcome(clip_id: Option<Seq<char>>) -> Result<ClipId, ErrorView> {
    match clip_id {
        None => Err(invalid_view("clip_id"@, InvalidReason::Required)),
        Some(text) => match uuid_parsed(text) {
            None => Err(invalid_view("clip_id"@, InvalidReason::MalformedUuid)),
            Some(id) => Ok(id),
        },
    }
}

/// Judge a label.
pub fn validate_label(label: &str) -> (r: Result<(), ClipError>)
    ensures
        match label_fault(label@) {
            None => r is Ok,
            Some(reason) => r matches Err(e) && e@ == invalid_view("label"@, reason),
        },
{
    if text_is_blank(label) {
        return Err(ClipError::InvalidInput { field: "label".to_owned(), reason: InvalidReason::Required });
    }
    if label.unicode_len() > LABEL_MAX_CHARS {
        return Err(ClipError::InvalidInput { field: "label".to_owned(), reason: InvalidReason::TooLong });
    }
    if text_has_control(label) {
        return Err(
            ClipError::InvalidInput {
                field: "label".to_owned(),
                reason: InvalidReason::ContainsControlCharacters,
            },
        );
    }
    Ok(())
}

/// Judge a value.
/// **A value may hold any characters.** A value is accepted exactly when it
/// is not blank and is at most [`VALUE_MAX_CHARS`] characters long: tabs,
/// carriage returns and every other control character are the user's
/// content, unlike in a label.
pub proof fn lemma_value_may_hold_any_characters(value: Seq<char>)
    ensures
        value_fault(value) is None <==> (!is_blank(value) && value.len() <= VALUE_MAX_CHARS),
{
}

pub fn validate_value(value: &str) -> (r: Result<(), ClipError>)
    ensures
        match value_fault(value@) {
            None => r is Ok,
            Some(reason) => r matches Err(e) && e@ == invalid_view("value"@, reason),
        },
        r is Ok <==> (!is_blank(value@) && value@.len() <= VALUE_MAX_CHARS),
{
    if text_is_blank(value) {
        return Err(ClipError::InvalidInput { field: "value".to_owned(), reason: InvalidReason::Required });
    }
    if value.unicode_len() > VALUE_MAX_CHARS {
        return Err(ClipError::InvalidInput { field: "value".to_owned(), reason: InvalidReason::TooLong });
    }
    Ok(())
}

/// Reject the first undeclared key, naming it.
fn reject_undeclared(extra: &Vec<String>) -> (r: Result<(), ClipError>)
    ensures
        match undeclared_fault(extra@.map_values(|k: String| k@)) {
            None => r is Ok,
            Some(e) => r matches Err(got) && got@ == e,
        },
{
    if extra.len() == 0 {
        return Ok(());
    }
    let first = &extra[0];
    assert(extra@.map_values(|k: String| k@)[0] == first@);
    let reason = if same_text(first.as_str(), "id") || same_text(first.as_str(), "use_count") {
        InvalidReason::NotPermitted
    } else {
        InvalidReason::UnknownField
    };
    Err(ClipError::InvalidInput { field: first.clone(), reason })
}

/// Parse an identifier arriving over IPC, naming the field on failure. The
/// rejected text is never echoed.
fn parse_id_field(field: &str, text: &str) -> (r: Result<ClipId, ClipError>)
    ensures
        match uuid_parsed(text@) {
            None => r matches Err(e) && e@ == invalid_view(field@, InvalidReason::MalformedUuid),
            Some(id) => r == Ok::<ClipId, ClipError>(id),
        },
{
    match parse_uuid_text(text) {
        Some(id) => Ok(id),
        None => Err(ClipError::InvalidInput { field: field.to_owned(), reason: InvalidReason::MalformedUuid }),
    }
}

/// The `clip_id` argument of delete and copy.
pub fn require_clip_id(clip_id: Option<String>) -> (r: Result<ClipId, ClipError>)
    ensures
        match clip_id_outcome(opt_text(clip_id)) {
            Ok(id) => r == Ok::<ClipId, ClipError>(id),
            Err(e) => r matches Err(got) && got@ == e,
        },
{
    match clip_id {
        None => Err(ClipError::InvalidInput { field: "clip_id".to_owned(), reason: InvalidReason::Required }),
        Some(text) => parse_id_field("clip_id", text.as_str()),
    }
}

/// A required argument: absent is `invalid_input { field, required }`.
/// `JSON.stringify` drops a key whose value is `undefined`, so this is the
/// shape of any frontend bug that lets a variable go undefined.
pub fn require<T>(field: &str, argument: Option<T>) -> (r: Result<T, ClipError>)
    ensures
        match argument {
            Some(v) => r == Ok::<T, ClipError>(v),
            None => r matches Err(e) && e@ == invalid_view(field@, InvalidReason::Required),
        },
{
    match argument {
        Some(v) => Ok(v),
        None => Err(ClipError::InvalidInput { field: field.to_owned(), reason: InvalidReason::Required }),
    }
}

/// The `path` argument of export and import: the absolute path the frontend's
/// dialog chose.
pub fn require_path(path: Option<String>) -> (r: Result<String, ClipError>)
    ensures
        match path {
            Some(p) => r matches Ok(got) && got@ == p@,
            None => r matches Err(e) && e@ == invalid_view("path"@, InvalidReason::Required),
        },
{
    require("path", path)
}

/// The ids an order argument names, in order: absent is `required`, and
/// any text that is not a UUID is `malformed_uuid` against the whole
/// argument. Whether the ids are a permutation of the store is the
/// store's check.
pub open spec fn order_outcome(order: Option<Seq<Seq<char>>>) -> Result<Seq<ClipId>, ErrorView> {
    match order {
        None => Err(invalid_view("order"@, InvalidReason::Required)),
        Some(texts) => if forall|k: int| 0 <= k < texts.len() ==> (#[trigger] uuid_parsed(texts[k])) is Some {
            Ok(Seq::new(texts.len(), |k: int| uuid_parsed(texts[k])->0))
        } else {
            Err(invalid_view("order"@, InvalidReason::MalformedUuid))
        },
    }
}

/// **An order is taken as given.** Whatever the texts, an accepted order
/// holds one id per text, and the `k`-th id is the one the `k`-th text
/// names: nothing is reordered, dropped or added. An order is accepted
/// exactly when every text is a UUID.
pub proof fn lemma_order_is_taken_as_given(texts: Seq<Seq<char>>)
    ensures
        order_outcome(Some(texts)) is Ok <==> (forall|k: int| 0 <= k < texts.len() ==> (#[trigger] uuid_parsed(texts[k])) is Some),
        order_outcome(Some(texts)) matches Ok(ids) ==> ids.len() == texts.len()
            && forall|k: int| 0 <= k < texts.len() ==> uuid_parsed(texts[k]) == Some(#[trigger] ids[k]),
{
}

/// The `order` argument of a reorder.
pub fn require_order(order: Option<Vec<String>>) -> (r: Result<Vec<ClipId>, ClipError>)
    ensures
        match order_outcome(match order { Some(v) => Some(v@.map_values(|t: String| t@)), None => None }) {
            Ok(ids) => r matches Ok(got) && got@ == ids,
            Err(e) => r matches Err(got) && got@ == e,
        },
        r matches Ok(ids) ==> (order matches Some(texts) && ids@.len() == texts@.len()
            && forall|k: int| 0 <= k < texts@.len() ==> uuid_parsed(texts@[k]@) == Some(#[trigger] ids@[k])),
{
    let ghost requested = match order { Some(ref v) => Some(v@.map_values(|t: String| t@)), None => None };
    let texts = match order {
        Some(texts) => texts,
        None => return Err(ClipError::InvalidInput { field: "order".to_owned(), reason: InvalidReason::Required }),
    };
    let ghost views = texts@.map_values(|t: String| t@);
    assert(requested == Some(views));
    let mut ids: Vec<ClipId> = Vec::new();
    let mut i: usize = 0;
    while i < texts.len()
        invariant
            i <= texts@.len(),
            views == texts@.map_values(|t: String| t@),
            requested == Some(views),
            requested == (match order { Some(v) => Some(v@.map_values(|t: String| t@)), None => None }),
            ids@.len() == i,
            forall|k: int| 0 <= k < i ==> (#[trigger] uuid_parsed(views[k])) == Some(ids@[k]),
        decreases texts@.len() - i,
    {
        assert(views[i as int] == texts@[i as int]@);
        match parse_uuid_text(texts[i].as_str()) {
            Some(id) => ids.push(id),
            None => {
                assert(uuid_parsed(views[i as int]) is None);
                assert(!(forall|k: int| 0 <= k < views.len() ==> (#[trigger] uuid_parsed(views[k])) is Some));
                return Err(ClipError::InvalidInput { field: "order".to_owned(), reason: InvalidReason::MalformedUuid });
            },
        }
        i = i + 1;
    }
    assert(ids@ =~= Seq::new(views.len(), |k: int| uuid_parsed(views[k])->0));
    Ok(ids)
}

/// The three fields both argument shapes share, judged label first, then value, then colour.
fn validate_parts(payload: ClipPayload) -> (r: Result<(String, String, Colour), ClipError>)
    ensures
        match parts_outcome(payload@) {
            Ok((l, v, c)) => r matches Ok((gl, gv, gc)) && gl@ == l && gv@ == v && gc == c,
            Err(e) => r matches Err(got) && got@ == e,
        },
{
    reject_undeclared(&payload.extra)?;
    let label = match payload.label {
        Some(label) => label,
        None => return Err(ClipError::InvalidInput { field: "label".to_owned(), reason: InvalidReason::Required }),
    };
    validate_label(label.as_str())?;
    let value = match payload.value {
        Some(value) => value,
        None => return Err(ClipError::InvalidInput { field: "value".to_owned(), reason: InvalidReason::Required }),
    };
    validate_value(value.as_str())?;
    let colour = match payload.colour {
        Some(colour) => colour,
        None => return Err(ClipError::InvalidInput { field: "colour".to_owned(), reason: InvalidReason::Required }),
    };
    let colour = Colour::from_wire(colour.as_str())?;
    Ok((label, value, colour))
}

/// Validate the `clip` argument of a create. An `id` is `not_permitted`: the
/// backend mints every one.
pub fn validate_draft(clip: Option<ClipPayload>) -> (r: Result<ValidDraft, ClipError>)
    ensures
        match draft_outcome(match clip { Some(p) => Some(p@), None => None }) {
            Ok((l, v, c)) => r matches Ok(d) && d.label@ == l && d.value@ == v && d.colour == c,
            Err(e) => r matches Err(got) && got@ == e,
        },
{
    let payload = match clip {
        Some(payload) => payload,
        None => return Err(ClipError::InvalidInput { field: "clip".to_owned(), reason: InvalidReason::Required }),
    };
    if payload.id.is_some() {
        return Err(ClipError::InvalidInput { field: "id".to_owned(), reason: InvalidReason::NotPermitted });
    }
    let (label, value, colour) = validate_parts(payload)?;
    Ok(ValidDraft { label, value, colour })
}

/// Validate the `clip` argument of an update.
pub fn validate_clip(clip: Option<ClipPayload>) -> (r: Result<ValidClip, ClipError>)
    ensures
        match clip_outcome(match clip { Some(p) => Some(p@), None => None }) {
            Ok((id, l, v, c)) => r matches Ok(d) && d.id == id && d.label@ == l && d.value@ == v && d.colour == c,
            Err(e) => r matches Err(got) && got@ == e,
        },
{
    let mut payload = match clip {
        Some(payload) => payload,
        None => return Err(ClipError::InvalidInput { field: "clip".to_owned(), reason: InvalidReason::Required }),
    };
    let id_text = match payload.id.take() {
        Some(text) => text,
        None => return Err(ClipError::InvalidInput { field: "id".to_owned(), reason: InvalidReason::Required }),
    };
    let id = parse_id_field("id", id_text.as_str())?;
    let (label, value, colour) = validate_parts(payload)?;
    Ok(ValidClip { id, label, value, colour })
}

} // verus!
