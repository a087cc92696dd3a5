use fastclip::settings::{read, stored, Settings, StoredSettings, SETTINGS_VERSION};

#[test]
fn a_written_setting_reads_back_in_both_directions() {
    for always_on_top in [true, false] {
        let settings = Settings { always_on_top };
        assert_eq!(read(Some(stored(settings))), settings);
    }
}

#[test]
fn a_missing_file_reads_as_the_default() {
    assert_eq!(read(None), Settings::default());
    assert!(!Settings::default().always_on_top);
}

#[test]
fn an_unrecognised_version_reads_as_the_default_and_is_never_an_error() {
    for version in [Some(0), Some(2), Some(-1), Some(i64::MAX), None] {
        let file = StoredSettings { version, always_on_top: Some(true) };
        assert_eq!(read(Some(file)), Settings { always_on_top: false }, "for {version:?}");
    }
}

#[test]
fn a_wrongly_typed_or_absent_setting_falls_back_to_the_default() {
    let file = StoredSettings { version: Some(SETTINGS_VERSION), always_on_top: None };
    assert_eq!(read(Some(file)), Settings { always_on_top: false });
}

#[test]
fn the_stored_shape_carries_the_version() {
    assert_eq!(
        stored(Settings { always_on_top: true }),
        StoredSettings { version: Some(1), always_on_top: Some(true) }
    );
}
