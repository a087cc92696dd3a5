use fastclip::redact::Redacted;

#[test]
fn the_text_is_never_rendered_and_the_count_is_in_characters() {
    let rendered = Redacted::of("hunter2").render();
    assert_eq!(rendered, "<redacted, 7 chars>");
    assert!(!rendered.contains("hunter2"));
}

#[test]
fn a_character_outside_the_basic_multilingual_plane_counts_once() {
    assert_eq!(Redacted::of("\u{1F600}").render(), "<redacted, 1 chars>");
}

#[test]
fn an_empty_text_renders_a_zero_count() {
    assert_eq!(Redacted::of("").render(), "<redacted, 0 chars>");
    assert_eq!(Redacted(1234567).render(), "<redacted, 1234567 chars>");
}
