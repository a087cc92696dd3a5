//! The tray menu: what it lists, how a label becomes a menu string, and what
//! choosing an item does.
//!
//! **No clip value reaches the menu**: the ranking carries an id and a label
//! and nothing else. **While locked the menu is one item and no labels.** A
//! store that is neither locked nor open gives an **empty** menu, which
//! discloses nothing and claims nothing.

use vstd::prelude::*;

use crate::error::ClipError;
use crate::ids::{hyphenated, parse_uuid_text, uuid_text, ClipId};
use crate::storage::clips::TrayClip;
use crate::redact::{redacted_text, Redacted};
use crate::text::push_char;

verus! {

/// The id the installed tray is found under.
pub const TRAY_ID: &'static str = "fast_clip";

/// What a rebuild logs when there is no tray to rebuild.
pub const NO_TRAY_TO_REBUILD: &'static str = "no tray icon is installed; nothing to rebuild";

/// At most ten clips.
pub const MENU_LIMIT: usize = 10;

/// Where a long label is cut, in Unicode scalar values: about the width of
/// the window, so the menu reads as belonging to it.
pub const LABEL_LIMIT: usize = 40;

/// Appended to a label that was cut. One scalar value, so it costs one column.
pub const ELLIPSIS: char = '\u{2026}';

/// A clip item's id is the clip's behind this prefix.
pub const CLIP_ITEM_PREFIX: &'static str = "clip:";

/// The id of the item shown while locked.
pub const UNLOCK_ITEM_ID: &'static str = "unlock";

/// The item shown while locked. It raises the window: the PIN is never typed
/// into a native menu.
pub const UNLOCK_ITEM_TEXT: &'static str = "Unlock FastClip";

/// Hover text on the icon.
pub const TOOLTIP: &'static str = "FastClip";

/// One row of the menu, before it becomes a native item.
pub enum Entry {
    /// The single item shown while the store is locked.
    Unlock,
    /// A clip, by its truncated and escaped label.
    Clip { id: ClipId, text: String },
}

impl Entry {
    /// How an entry reads in a log line: its text, which comes from a label,
    /// only as a character count.
    pub fn describe(&self) -> (r: String)
        ensures
            r@ == match self {
                Entry::Unlock => "Unlock"@,
                Entry::Clip { id, text } => "Clip { id: "@ + hyphenated(*id) + ", text: "@ + redacted_text(text@.len())
                    + " }"@,
            },
    {
        match self {
            Entry::Unlock => String::from_str("Unlock"),
            Entry::Clip { id, text } => {
                let mut out = String::from_str("Clip { id: ");
                out.append(uuid_text(*id).as_str());
                out.append(", text: ");
                out.append(Redacted::of(text.as_str()).render().as_str());
                out.append(" }");
                out
            },
        }
    }
}

/// A label cut to [`LABEL_LIMIT`] scalar values, with an ellipsis where it
/// was cut.
pub open spec fn truncated(label: Seq<char>) -> Seq<char> {
    if label.len() > LABEL_LIMIT {
        label.take(LABEL_LIMIT as int).push(ELLIPSIS)
    } else {
        label
    }
}

/// A text with every `&` doubled: Win32 reads a single `&` as a mnemonic
/// marker, so `R&D snippet` would render as `RD snippet`.
pub open spec fn escaped(text: Seq<char>) -> Seq<char>
    decreases text.len(),
{
    if text.len() == 0 {
        Seq::empty()
    } else if text.last() == '&' {
        escaped(text.drop_last()) + seq!['&', '&']
    } else {
        escaped(text.drop_last()).push(text.last())
    }
}

/// A label as a menu string: truncated, then escaped, so a doubled `&` does
/// not eat into the user's forty characters.
pub open spec fn menu_string(label: Seq<char>) -> Seq<char> {
    escaped(truncated(label))
}

/// A clip label as a native menu string.
pub fn menu_text(label: &str) -> (r: String)
    ensures
        r@ == menu_string(label@),
{
    let n = label.unicode_len();
    let cut: &str = if n > LABEL_LIMIT { label.substring_char(0, LABEL_LIMIT) } else { label };
    let ghost shown = truncated(label@);
    let mut text = String::new();
    let mut i: usize = 0;
    let m = cut.unicode_len();
    while i < m
        invariant
            m == cut@.len(),
            i <= m,
            text@ == escaped(cut@.take(i as int)),
        decreases m - i,
    {
        let c = cut.get_char(i);
        if c == '&' {
            push_char(&mut text, '&');
            push_char(&mut text, '&');
        } else {
            push_char(&mut text, c);
        }
        proof {
            assert(cut@.take(i + 1).drop_last() =~= cut@.take(i as int));
            assert(cut@.take(i + 1).last() == c);
            if c == '&' {
                assert(text@ =~= escaped(cut@.take(i as int)) + seq!['&', '&']);
            }
        }
        i = i + 1;
    }
    assert(cut@.take(m as int) =~= cut@);
    if n > LABEL_LIMIT {
        // The ellipsis is never an ampersand.
        push_char(&mut text, ELLIPSIS);
        proof {
            let cut_label = label@.take(LABEL_LIMIT as int);
            assert(cut@ =~= cut_label);
            assert(shown.drop_last() =~= cut_label);
            assert(shown.last() == ELLIPSIS);
        }
    }
    text
}

/// **A short label is shown as typed**: one of at most forty characters
/// with no ampersand is its own menu string.
pub proof fn lemma_short_label_unchanged(label: Seq<char>)
    requires
        label.len() <= LABEL_LIMIT,
        forall|i: int| 0 <= i < label.len() ==> label[i] != '&',
    ensures
        menu_string(label) == label,
    decreases label.len(),
{
    lemma_escaped_without_ampersand(label);
}

proof fn lemma_escaped_without_ampersand(text: Seq<char>)
    requires
        forall|i: int| 0 <= i < text.len() ==> text[i] != '&',
    ensures
        escaped(text) == text,
    decreases text.len(),
{
    if text.len() > 0 {
        lemma_escaped_without_ampersand(text.drop_last());
        assert(escaped(text.drop_last()).push(text.last()) =~= text);
    }
}

/// The wire form of a clip item's id.
pub fn clip_item_id(id: ClipId) -> (r: String)
    ensures
        r@ == CLIP_ITEM_PREFIX@ + hyphenated(id),
{
    let mut text = String::from_str(CLIP_ITEM_PREFIX);
    let digits = uuid_text(id);
    text.append(digits.as_str());
    text
}

/// The clip a menu item id names, or `None` for any other item. Every id a
/// clip item is built with names that clip again.
pub fn clip_of(item_id: &str) -> (r: Option<ClipId>)
    ensures
        forall|x: ClipId| item_id@ == CLIP_ITEM_PREFIX@ + hyphenated(x) ==> r == Some(x),
        r is Some ==> item_id@.len() >= CLIP_ITEM_PREFIX@.len()
            && item_id@.take(CLIP_ITEM_PREFIX@.len() as int) == CLIP_ITEM_PREFIX@,
{
    let n = item_id.unicode_len();
    let p = CLIP_ITEM_PREFIX.unicode_len();
    if n < p {
        proof {
            assert forall|x: ClipId| item_id@ != CLIP_ITEM_PREFIX@ + hyphenated(x) by {
                assert((CLIP_ITEM_PREFIX@ + hyphenated(x)).len() >= p);
            }
        }
        return None;
    }
    let head = item_id.substring_char(0, p);
    if !crate::text::same_text(head, CLIP_ITEM_PREFIX) {
        proof {
            assert forall|x: ClipId| item_id@ != CLIP_ITEM_PREFIX@ + hyphenated(x) by {
                if item_id@ == CLIP_ITEM_PREFIX@ + hyphenated(x) {
                    assert(head@ =~= CLIP_ITEM_PREFIX@);
                }
            }
        }
        return None;
    }
    let rest = item_id.substring_char(p, n);
    let parsed = parse_uuid_text(rest);
    proof {
        assert(item_id@.take(p as int) =~= head@);
        assert forall|x: ClipId| item_id@ == CLIP_ITEM_PREFIX@ + hyphenated(x) implies parsed == Some(x) by {
            assert(rest@ =~= hyphenated(x));
        }
    }
    parsed
}

/// **The unlock item is never taken for a clip.**
pub proof fn lemma_unlock_item_is_no_clip()
    ensures
        !(UNLOCK_ITEM_ID@.len() >= CLIP_ITEM_PREFIX@.len() && UNLOCK_ITEM_ID@.take(CLIP_ITEM_PREFIX@.len() as int)
            == CLIP_ITEM_PREFIX@),
{
    reveal_strlit("unlock");
    reveal_strlit("clip:");
    assert(UNLOCK_ITEM_ID@.take(5)[0] == 'u');
}

/// What choosing a menu item does.
pub enum MenuChoice {
    /// Raise the window and ask the webview for the PIN.
    Unlock,
    /// Copy this clip, through the one clipboard path.
    Copy(ClipId),
    /// An id this menu did not build: nothing.
    Nothing,
}

/// The choice a menu item id stands for.
pub fn choice_of(item_id: &str) -> (r: MenuChoice)
    ensures
        item_id@ == UNLOCK_ITEM_ID@ ==> r is Unlock,
        forall|x: ClipId| item_id@ == CLIP_ITEM_PREFIX@ + hyphenated(x) ==> r == MenuChoice::Copy(x),
{
    if crate::text::same_text(item_id, UNLOCK_ITEM_ID) {
        proof {
            lemma_unlock_item_is_no_clip();
            assert forall|x: ClipId| item_id@ != CLIP_ITEM_PREFIX@ + hyphenated(x) by {
                if item_id@ == CLIP_ITEM_PREFIX@ + hyphenated(x) {
                    assert(item_id@.take(CLIP_ITEM_PREFIX@.len() as int) =~= CLIP_ITEM_PREFIX@);
                }
            }
        }
        return MenuChoice::Unlock;
    }
    match clip_of(item_id) {
        Some(id) => MenuChoice::Copy(id),
        None => MenuChoice::Nothing,
    }
}

/// What the menu should contain, given whether the store is locked and what
/// the ranking query gave. **The lock comes first**: while locked the menu is
/// the unlock item alone, and so it is when the guard found the store locked
/// between the check and the query. Any other failure is an empty menu.
pub fn entries(locked: bool, ranked: Result<Vec<TrayClip>, ClipError>) -> (r: Vec<Entry>)
    ensures
        locked ==> r@.len() == 1 && r@[0] is Unlock,
        !locked ==> match ranked {
            Ok(clips) => r@.len() == clips@.len() && forall|k: int| 0 <= k < clips@.len() ==>
                (#[trigger] r@[k] matches Entry::Clip { id, text } && id == clips@[k].id
                    && text@ == menu_string(clips@[k].label@)),
            Err(ClipError::Locked) => r@.len() == 1 && r@[0] is Unlock,
            Err(_) => r@.len() == 0,
        },
{
    let mut r: Vec<Entry> = Vec::new();
    if locked {
        r.push(Entry::Unlock);
        return r;
    }
    match ranked {
        Ok(clips) => {
            let mut k: usize = 0;
            while k < clips.len()
                invariant
                    k <= clips@.len(),
                    r@.len() == k,
                    forall|m: int| 0 <= m < k ==> (#[trigger] r@[m] matches Entry::Clip { id, text }
                        && id == clips@[m].id && text@ == menu_string(clips@[m].label@)),
                decreases clips@.len() - k,
            {
                let text = menu_text(clips[k].label.as_str());
                r.push(Entry::Clip { id: clips[k].id, text });
                k = k + 1;
            }
        },
        Err(ClipError::Locked) => r.push(Entry::Unlock),
        Err(_) => {},
    }
    r
}

/// The native item an entry becomes: its id and its text.
pub fn item_of(entry: &Entry) -> (r: (String, String))
    ensures
        match entry {
            Entry::Unlock => r.0@ == UNLOCK_ITEM_ID@ && r.1@ == UNLOCK_ITEM_TEXT@,
            Entry::Clip { id, text } => r.0@ == CLIP_ITEM_PREFIX@ + hyphenated(*id) && r.1@ == text@,
        },
{
    match entry {
        Entry::Unlock => (UNLOCK_ITEM_ID.to_owned(), UNLOCK_ITEM_TEXT.to_owned()),
        Entry::Clip { id, text } => (clip_item_id(*id), text.clone()),
    }
}

} // verus!
