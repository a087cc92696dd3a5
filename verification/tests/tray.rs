use fastclip::error::ClipError;
use fastclip::ids::mint_id;
use fastclip::storage::clips::id_text;
use fastclip::storage::clips::TrayClip;
use fastclip::tray::{
    choice_of, clip_item_id, clip_of, entries, item_of, menu_text, Entry, MenuChoice, ELLIPSIS, LABEL_LIMIT,
    UNLOCK_ITEM_ID, UNLOCK_ITEM_TEXT,
};

fn fresh_id() -> u128 {
    match mint_id() {
        Ok(id) => id,
        Err(e) => panic!("an id should be minted: {e:?}"),
    }
}

#[test]
fn a_short_label_is_unchanged() {
    assert_eq!(menu_text("Support greeting"), "Support greeting");
}

#[test]
fn a_label_at_the_limit_is_not_truncated() {
    let label = "x".repeat(LABEL_LIMIT);
    assert_eq!(menu_text(&label), label);
}

#[test]
fn a_label_one_over_the_limit_is_cut_and_marked() {
    let label = "x".repeat(LABEL_LIMIT + 1);
    let text = menu_text(&label);
    assert_eq!(text.chars().count(), LABEL_LIMIT + 1);
    assert!(text.ends_with(ELLIPSIS));
    assert_eq!(text.chars().filter(|c| *c == 'x').count(), LABEL_LIMIT);
}

#[test]
fn truncation_counts_scalar_values_and_not_bytes() {
    let label = "\u{1F600}".repeat(LABEL_LIMIT + 5);
    let text = menu_text(&label);
    assert_eq!(text.chars().count(), LABEL_LIMIT + 1);
}

#[test]
fn an_ampersand_is_doubled_so_the_label_renders_as_typed() {
    assert_eq!(menu_text("R&D snippet"), "R&&D snippet");
    assert_eq!(menu_text("&&"), "&&&&");
}

#[test]
fn escaping_does_not_eat_into_the_truncation_budget() {
    let label = "&".repeat(LABEL_LIMIT + 3);
    let text = menu_text(&label);
    assert_eq!(text.chars().filter(|c| *c == '&').count(), LABEL_LIMIT * 2);
    assert!(text.ends_with(ELLIPSIS));
}

#[test]
fn a_clip_item_id_round_trips() {
    let id = fresh_id();
    assert_eq!(clip_of(&clip_item_id(id)), Some(id));
    assert_eq!(clip_item_id(id), format!("clip:{}", id_text(id)));
}

#[test]
fn an_item_that_is_not_a_clip_is_ignored() {
    assert_eq!(clip_of(UNLOCK_ITEM_ID), None);
    assert_eq!(clip_of("something_else"), None);
    assert_eq!(clip_of("clip:not-a-uuid"), None);
    assert_eq!(clip_of(""), None);
}

#[test]
fn the_unlock_item_raises_the_window_and_a_clip_item_copies() {
    assert!(matches!(choice_of(UNLOCK_ITEM_ID), MenuChoice::Unlock));
    let id = fresh_id();
    assert!(matches!(choice_of(&clip_item_id(id)), MenuChoice::Copy(copied) if copied == id));
    assert!(matches!(choice_of("quit"), MenuChoice::Nothing));
}

fn ranked(labels: &[&str]) -> Vec<TrayClip> {
    labels.iter().enumerate().map(|(i, l)| TrayClip { id: i as u128 + 1, label: (*l).to_owned() }).collect()
}

#[test]
fn a_locked_store_shows_one_unlock_item_and_no_clip_labels() {
    let menu = entries(true, Ok(ranked(&["secret label"])));
    assert_eq!(menu.len(), 1);
    assert!(matches!(menu[0], Entry::Unlock));
    let raced = entries(false, Err(ClipError::Locked));
    assert_eq!(raced.len(), 1);
    assert!(matches!(raced[0], Entry::Unlock));
    let (id, text) = item_of(&menu[0]);
    assert_eq!((id.as_str(), text.as_str()), (UNLOCK_ITEM_ID, UNLOCK_ITEM_TEXT));
}

#[test]
fn an_empty_store_produces_an_empty_menu() {
    assert!(entries(false, Ok(vec![])).is_empty());
    assert!(entries(false, Err(ClipError::Storage)).is_empty());
}

#[test]
fn a_fresh_install_has_a_populated_menu_in_list_order() {
    let menu = entries(false, Ok(ranked(&["first", "R&D", "third"])));
    let texts: Vec<(u128, String)> = menu
        .iter()
        .map(|e| match e {
            Entry::Clip { id, text } => (*id, text.clone()),
            Entry::Unlock => panic!("no unlock item over an open store"),
        })
        .collect();
    assert_eq!(texts, vec![(1, "first".to_owned()), (2, "R&&D".to_owned()), (3, "third".to_owned())]);
    let (id, text) = item_of(&menu[1]);
    assert_eq!(id, clip_item_id(2));
    assert_eq!(text, "R&&D");
}

#[test]
fn the_debug_of_an_entry_redacts_the_label() {
    let entry = Entry::Clip { id: fresh_id(), text: menu_text("a secret label") };
    let rendered = entry.describe();
    assert!(!rendered.contains("a secret label"), "{rendered}");
    assert!(rendered.contains("redacted"), "{rendered}");
}
