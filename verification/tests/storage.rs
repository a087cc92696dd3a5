use std::path::Path;

use fastclip::colour::Colour;
use fastclip::crypto::dek::DEK_LEN;
use fastclip::crypto::Dek;
use fastclip::error::{ClipError, CryptoReason, InvalidReason, RequiredState, VersionComponent};
use fastclip::storage::classify::{classify, Classification, HeaderRead, SQLITE_MAGIC};
use fastclip::storage::clips::{
    check_order, decode_row, decode_tray_row, final_positions, import_rows, is_permutation_of,
    id_text, not_a_permutation, parse_id, renumber_offset, rows_with_ids, require_changed, ClipContent, ClipRow,
    TrayClip,
};
use fastclip::storage::connection::{check_journal_mode, key_pragma, raw_key_literal};
use fastclip::storage::convert::{self, CopyFacts, Outcome, Plan, Recorded};
use fastclip::storage::paths::StorePaths;
use fastclip::storage::recovery::{self, Recovered, Report, Step};
use fastclip::storage::schema::{
    check_version, create_batch, CREATE_SCHEMA_SQL, MINIMUM_SCHEMA_VERSION, SCHEMA_VERSION,
};
use fastclip::storage::status::{Becoming, Status};

// ---- classification ----

#[test]
fn only_a_positive_encrypted_classification_blocks_the_keyfile_delete() {
    assert!(Classification::Absent.permits_keyfile_delete());
    assert!(Classification::Plaintext.permits_keyfile_delete());
    assert!(!Classification::Encrypted.permits_keyfile_delete());
    assert!(!Classification::Unreadable.permits_keyfile_delete());

    assert!(!Classification::Unreadable.is_encrypted());
    assert!(!Classification::Absent.is_encrypted());
    assert!(Classification::Encrypted.is_encrypted());
}

#[test]
fn a_missing_file_is_absent() {
    assert_eq!(classify(HeaderRead::NotFound), Classification::Absent);
}

#[test]
fn the_sqlite_magic_is_plaintext() {
    let mut header = [0u8; 16];
    header.copy_from_slice(&b"SQLite format 3\0the rest of a database"[..16]);
    assert_eq!(classify(HeaderRead::Read(header)), Classification::Plaintext);
    assert_eq!(&SQLITE_MAGIC, b"SQLite format 3\0");
}

#[test]
fn anything_else_in_the_header_is_encrypted() {
    let header = [0x9e, 0x2b, 0x00, 0xff, 0x41, 0x41, 0x41, 0x41, 0x00, 0x01, 0x02, 0x03, 0x04, 0x05, 0x06, 0x07];
    assert_eq!(classify(HeaderRead::Read(header)), Classification::Encrypted);
    let mut almost = SQLITE_MAGIC;
    almost[15] = b'!';
    assert_eq!(classify(HeaderRead::Read(almost)), Classification::Encrypted);
}

#[test]
fn a_short_file_is_unreadable_and_never_absent() {
    assert_eq!(classify(HeaderRead::Failed), Classification::Unreadable);
}

// ---- paths ----

#[test]
fn file_names_are_the_ones_the_design_names() {
    let paths = StorePaths::at("root");
    assert_eq!(Path::new(&paths.db()), Path::new("root").join("clips.db"));
    assert_eq!(Path::new(&paths.db_wal()), Path::new("root").join("clips.db-wal"));
    assert_eq!(Path::new(&paths.db_shm()), Path::new("root").join("clips.db-shm"));
    assert_eq!(Path::new(&paths.db_new()), Path::new("root").join("clips.db.new"));
    assert_eq!(Path::new(&paths.keyfile()), Path::new("root").join("keyfile"));
    assert_eq!(Path::new(&paths.keyfile_new()), Path::new("root").join("keyfile.new"));
    assert_eq!(Path::new(&paths.settings()), Path::new("root").join("settings.json"));
    assert_eq!(Path::new(&paths.settings_new()), Path::new("root").join("settings.json.new"));
    assert_eq!(paths.dir(), "root");
}

#[test]
fn a_name_is_joined_after_exactly_one_separator() {
    let db = StorePaths::at("root").db();
    assert_eq!(db.len(), "root".len() + 1 + "clips.db".len());
    assert!(db.starts_with("root") && db.ends_with("clips.db"));
    assert!(matches!(db.as_bytes()[4], b'/' | b'\\'));
    assert_eq!(StorePaths::at("root/").db(), "root/clips.db");
}

#[test]
fn the_settings_temporary_file_is_a_sibling_of_the_settings_file() {
    let paths = StorePaths::at("root");
    let settings_new = paths.settings_new();
    let settings = paths.settings();
    assert_eq!(Path::new(&settings_new).parent(), Path::new(&settings).parent());
}

#[test]
fn the_sweep_list_holds_four_intermediates_and_no_live_sidecar() {
    let paths = StorePaths::at("root");
    let names: Vec<String> = paths
        .intermediates()
        .iter()
        .filter_map(|p| Path::new(p).file_name().map(|n| n.to_string_lossy().into_owned()))
        .collect();
    assert_eq!(names, vec!["clips.db.new", "clips.db.new-wal", "clips.db.new-shm", "keyfile.new"]);
    assert!(!names.iter().any(|n| n == "clips.db-wal"));
    assert!(!names.iter().any(|n| n == "clips.db-shm"));
}

#[test]
fn the_home_directory_is_joined_with_a_dot_fast_clip_directory() {
    let home = Path::new("C:\\Users\\someone").join(".fast-clip");
    let paths = StorePaths::at(&home.to_string_lossy());
    assert!(Path::new(paths.dir()).ends_with(".fast-clip"));
    let paths = StorePaths::under_home("/home/someone");
    assert_eq!(paths.dir(), "/home/someone/.fast-clip");
    let paths = StorePaths::under_home("/home/someone/");
    assert_eq!(paths.dir(), "/home/someone/.fast-clip");
    if let Ok(paths) = StorePaths::from_home() {
        assert!(paths.dir().ends_with(".fast-clip"));
    }
}

// ---- startup recovery ----

/// Run recovery against scripted reports, returning the steps taken and the
/// finish.
fn run_recovery(classification: Classification, created: bool, opened: Result<(), ClipError>) -> (Vec<&'static str>, Recovered) {
    let mut taken = Vec::new();
    let mut step = recovery::first();
    let mut opened = Some(opened);
    loop {
        let report = match &step {
            Step::CreateDirectory => { taken.push("create_directory"); Report::DirectoryCreated(true) }
            Step::SweepIntermediates => { taken.push("sweep"); Report::Swept }
            Step::Classify => { taken.push("classify"); Report::Classified(classification) }
            Step::DeleteKeyfile(_) => { taken.push("delete_keyfile"); Report::KeyfileDeleteAttempted }
            Step::CreateStore(_) => { taken.push("create_store"); Report::StoreCreated(created) }
            Step::OpenAndCheck(_) => {
                taken.push("open");
                Report::Opened(opened.take().unwrap_or(Err(ClipError::Internal)))
            }
            Step::Finish(_) => break,
        };
        step = recovery::next(step, report);
    }
    match step {
        Step::Finish(recovered) => (taken, recovered),
        _ => unreachable!(),
    }
}

#[test]
fn a_first_run_creates_the_directory_and_an_empty_versioned_store() {
    let (taken, recovered) = run_recovery(Classification::Absent, true, Ok(()));
    assert_eq!(taken, vec!["create_directory", "sweep", "classify", "delete_keyfile", "create_store", "open"]);
    assert_eq!(recovered.classification, Classification::Absent);
    assert!(recovered.open);
    assert_eq!(recovered.fault, None);
}

#[test]
fn a_stray_keyfile_beside_a_plaintext_store_is_removed() {
    let (taken, recovered) = run_recovery(Classification::Plaintext, true, Ok(()));
    assert_eq!(taken, vec!["create_directory", "sweep", "classify", "delete_keyfile", "open"]);
    assert_eq!(recovered.classification, Classification::Plaintext);
    assert!(recovered.open);
}

#[test]
fn the_keyfile_beside_an_encrypted_store_is_never_touched() {
    let (taken, recovered) = run_recovery(Classification::Encrypted, true, Ok(()));
    assert_eq!(taken, vec!["create_directory", "sweep", "classify"]);
    assert_eq!(recovered.classification, Classification::Encrypted);
    assert!(!recovered.open, "an encrypted store stays shut");
    assert_eq!(recovered.fault, None, "being encrypted is not a fault");
}

#[test]
fn an_unreadable_store_deletes_nothing_creates_nothing_and_reports_storage() {
    let (taken, recovered) = run_recovery(Classification::Unreadable, true, Ok(()));
    assert_eq!(taken, vec!["create_directory", "sweep", "classify"]);
    assert_eq!(recovered.classification, Classification::Unreadable);
    assert_eq!(recovered.fault, Some(ClipError::Storage));
    assert!(!recovered.open);
}

#[test]
fn the_intermediates_are_swept_even_when_the_store_is_unreadable() {
    let (taken, _) = run_recovery(Classification::Unreadable, true, Ok(()));
    let sweep = taken.iter().position(|s| *s == "sweep");
    let classify = taken.iter().position(|s| *s == "classify");
    assert!(sweep.is_some() && sweep < classify);
}

#[test]
fn a_directory_that_cannot_be_created_is_unreadable_storage() {
    let step = recovery::next(recovery::first(), Report::DirectoryCreated(false));
    match step {
        Step::Finish(recovered) => {
            assert_eq!(recovered.classification, Classification::Unreadable);
            assert_eq!(recovered.fault, Some(ClipError::Storage));
            assert!(!recovered.open);
        }
        _ => panic!("a failed directory finishes recovery"),
    }
}

#[test]
fn a_store_that_cannot_be_created_is_storage() {
    let (taken, recovered) = run_recovery(Classification::Absent, false, Ok(()));
    assert_eq!(taken, vec!["create_directory", "sweep", "classify", "delete_keyfile", "create_store"]);
    assert_eq!(recovered.fault, Some(ClipError::Storage));
    assert!(!recovered.open);
}

#[test]
fn a_store_from_a_newer_build_is_rejected_rather_than_misread() {
    let fault = ClipError::UnsupportedVersion { component: VersionComponent::Schema, found: 99, supported: SCHEMA_VERSION };
    let (_, recovered) = run_recovery(Classification::Plaintext, true, Err(fault.clone()));
    assert_eq!(recovered.fault, Some(fault));
    assert!(!recovered.open, "a store we cannot read stays shut");
}

#[test]
fn a_too_new_schema_is_relayed_as_the_recorded_version_fault() {
    let fault = ClipError::UnsupportedVersion { component: VersionComponent::Schema, found: 99, supported: SCHEMA_VERSION };
    let (_, recovered) = run_recovery(Classification::Plaintext, true, Err(fault.clone()));
    let status = Status::recovered(recovered);
    assert_eq!(status.startup_fault(), Some(fault));
}

#[test]
fn a_corrupt_store_is_reported_as_crypto_corrupt_and_not_recreated() {
    let fault = ClipError::Crypto { reason: CryptoReason::Corrupt };
    let (taken, recovered) = run_recovery(Classification::Plaintext, true, Err(fault.clone()));
    assert!(!taken.contains(&"create_store"));
    assert_eq!(recovered.classification, Classification::Plaintext);
    assert_eq!(recovered.fault, Some(fault));
}

// ---- the schema ----

#[test]
fn the_current_schema_version_passes() {
    assert_eq!(check_version(SCHEMA_VERSION), Ok(()));
}

#[test]
fn a_newer_schema_version_is_rejected_and_never_misread() {
    assert_eq!(
        check_version(2),
        Err(ClipError::UnsupportedVersion { component: VersionComponent::Schema, found: 2, supported: 1 })
    );
}

#[test]
fn a_database_below_the_lowest_readable_version_is_corrupt_rather_than_migrated() {
    assert_eq!(check_version(0), Err(ClipError::Crypto { reason: CryptoReason::Corrupt }));
    assert_eq!(check_version(-5), Err(ClipError::Crypto { reason: CryptoReason::Corrupt }));
}

#[test]
fn every_version_from_the_floor_to_the_current_one_is_accepted() {
    for version in MINIMUM_SCHEMA_VERSION..=SCHEMA_VERSION {
        assert_eq!(check_version(version), Ok(()), "for user_version {version}");
    }
}

#[test]
fn a_stray_sqlite_file_is_refused_before_a_query_can_call_it_storage() {
    // Someone else's database carries no stamp: `user_version` reads as 0.
    assert_eq!(check_version(0), Err(ClipError::Crypto { reason: CryptoReason::Corrupt }));
}

#[test]
fn the_creation_batch_stamps_the_version_inside_one_transaction() {
    let batch = create_batch();
    assert!(batch.starts_with("BEGIN;\n"));
    assert!(batch.contains(CREATE_SCHEMA_SQL));
    assert!(batch.ends_with("\nPRAGMA user_version = 1;\nCOMMIT;"));
    assert!(CREATE_SCHEMA_SQL.contains(") STRICT;"));
    assert!(CREATE_SCHEMA_SQL.contains("position  INTEGER NOT NULL UNIQUE"));
}

// ---- the connection's statements ----

#[test]
fn the_key_pragma_is_the_raw_key_form_with_sixty_four_hex_characters() {
    let dek = Dek::from_bytes([0xAB; DEK_LEN]);
    let literal = raw_key_literal(&dek);
    assert_eq!(literal.len(), 67);
    assert!(literal.starts_with("x'") && literal.ends_with('\''));
    assert_eq!(&literal[2..66], "ab".repeat(32));
    assert_eq!(key_pragma(&dek), format!("PRAGMA key = \"{literal}\";"));
    let mut bytes = [0u8; DEK_LEN];
    for (i, b) in bytes.iter_mut().enumerate() {
        *b = i as u8;
    }
    let literal = raw_key_literal(&Dek::from_bytes(bytes));
    assert_eq!(literal, "x'000102030405060708090a0b0c0d0e0f101112131415161718191a1b1c1d1e1f'");
}

#[test]
fn only_wal_is_an_acceptable_journal_mode() {
    assert_eq!(check_journal_mode("wal"), Ok(()));
    assert_eq!(check_journal_mode("WAL"), Ok(()));
    assert_eq!(check_journal_mode("delete"), Err(ClipError::Storage));
    assert_eq!(check_journal_mode("wall"), Err(ClipError::Storage));
}

// ---- the clip table's rules ----

#[test]
fn the_permutation_check_accepts_only_an_exact_rearrangement() {
    let stored = [1u128, 2, 3];
    assert!(is_permutation_of(&stored, &[3, 1, 2]));
    assert!(is_permutation_of(&stored, &[1, 2, 3]));
    assert!(!is_permutation_of(&stored, &[1, 2]));
    assert!(!is_permutation_of(&stored, &[1, 2, 3, 4]));
    assert!(!is_permutation_of(&stored, &[1, 1, 2]));
    assert!(!is_permutation_of(&stored, &[1, 2, 4]));
    assert!(is_permutation_of(&[], &[]));
}

#[test]
fn an_order_that_names_an_unknown_clip_is_not_a_permutation_rather_than_not_found() {
    assert_eq!(
        check_order(&[1, 2], &[1, 9]),
        Err(ClipError::InvalidInput { field: "order".into(), reason: InvalidReason::NotAPermutation })
    );
    assert_eq!(not_a_permutation(), ClipError::InvalidInput { field: "order".into(), reason: InvalidReason::NotAPermutation });
    assert_eq!(check_order(&[1, 2], &[2, 1]), Ok(()));
}

#[test]
fn an_empty_order_against_a_populated_store_is_rejected() {
    assert!(check_order(&[1, 2], &[]).is_err());
    assert_eq!(check_order(&[], &[]), Ok(()));
}

#[test]
fn renumber_refuses_a_partial_id_set_rather_than_leaving_a_sparse_order() {
    assert_eq!(renumber_offset(3, 2, 2), Err(ClipError::Internal));
    assert_eq!(renumber_offset(3, 3, 2), Ok(3));
    assert_eq!(final_positions(&[7, 5, 6]), vec![(7, 0), (5, 1), (6, 2)]);
}

#[test]
fn an_import_appends_after_the_existing_clips_and_keeps_the_order_dense() {
    // "mine one" and "mine two" hold positions 0 and 1, so the import starts at 2.
    let imported = [
        ClipContent { label: "theirs one", value: "v1", colour: Colour::Teal },
        ClipContent { label: "theirs two", value: "v2", colour: Colour::Teal },
    ];
    let rows = match import_rows(2, &imported) {
        Ok(rows) => rows,
        Err(e) => panic!("an import of two clips should be planned: {e:?}"),
    };
    let labels: Vec<&str> = rows.iter().map(|row| row.content.label).collect();
    assert_eq!(labels, vec!["theirs one", "theirs two"]);
    let positions: Vec<i64> = rows.iter().map(|row| row.position).collect();
    assert_eq!(positions, vec![2, 3]);
    assert_ne!(rows[0].id, rows[1].id);

    assert!(matches!(import_rows(0, &[]), Ok(rows) if rows.is_empty()));
    let three = [imported[0], imported[1], imported[0]];
    let rows = match import_rows(i64::MAX - 1, &three) {
        Ok(rows) => rows,
        Err(e) => panic!("positions saturate rather than fail: {e:?}"),
    };
    let positions: Vec<i64> = rows.iter().map(|row| row.position).collect();
    assert_eq!(positions, vec![i64::MAX - 1, i64::MAX, i64::MAX]);
}

#[test]
fn an_empty_order_against_an_empty_store_succeeds_and_writes_nothing() {
    assert_eq!(check_order(&[], &[]), Ok(()));
    assert_eq!(final_positions(&[]), vec![]);
}

#[test]
fn ids_are_stored_lowercase_and_hyphenated() {
    let id: u128 = 0x8A1F_00C3_4D2E_4000_8000_00AB_CDEF_0001;
    let stored = id_text(id);
    assert_eq!(stored.len(), 36);
    assert_eq!(stored, stored.to_lowercase());
    assert_eq!(stored, "8a1f00c3-4d2e-4000-8000-00abcdef0001");
    assert_eq!(parse_id(&stored), Ok(id));
}

#[test]
fn the_debug_output_never_carries_a_label_or_a_value() {
    let row = ClipRow {
        id: 0,
        label: "Support greeting".into(),
        value: "hunter2".into(),
        colour: Colour::Amber,
        use_count: 4,
        position: 2,
    };
    let rendered = row.describe();
    assert!(!rendered.contains("hunter2"), "{rendered}");
    assert!(!rendered.contains("Support greeting"), "{rendered}");
    assert!(rendered.contains("<redacted, 7 chars>"), "{rendered}");
    assert!(rendered.contains("use_count: 4"), "{rendered}");
}

#[test]
fn a_colour_is_stored_as_its_token_name_in_text() {
    assert_eq!(Colour::Pink.as_str(), "pink");
    let id = "8a1f00c3-4d2e-4000-8000-00abcdef0001";
    match decode_row(id, "first".into(), "a value".into(), "pink", 0, 0) {
        Ok(row) => assert_eq!(row.colour, Colour::Pink),
        Err(e) => panic!("the row should decode: {e:?}"),
    }
}

#[test]
fn the_ranking_carries_no_clip_value_and_its_debug_redacts_the_label() {
    let ranked = TrayClip { id: 0, label: "a secret label".into() };
    let rendered = ranked.describe();
    assert!(!rendered.contains("a secret label"), "{rendered}");
    assert!(!rendered.contains("a value"), "{rendered}");
}

#[test]
fn identical_clips_in_one_import_become_distinct_rows_at_a_zero_count() {
    let same = ClipContent { label: "same", value: "same value", colour: Colour::Teal };
    let rows = match import_rows(0, &[same, same, same]) {
        Ok(rows) => rows,
        Err(e) => panic!("the import should be planned: {e:?}"),
    };
    assert_eq!(rows.len(), 3);
    assert!(rows.iter().all(|row| row.content.label == "same" && row.content.value == "same value"));
    let ids: std::collections::HashSet<u128> = rows.iter().map(|row| row.id).collect();
    assert_eq!(ids.len(), 3);
    assert_eq!(rows.iter().map(|row| row.position).collect::<Vec<i64>>(), vec![0, 1, 2]);
}

#[test]
fn an_empty_import_succeeds_and_writes_nothing() {
    assert!(matches!(import_rows(1, &[]), Ok(rows) if rows.is_empty()));
}

#[test]
fn each_imported_clip_takes_the_id_minted_for_it() {
    let one = ClipContent { label: "one", value: "v1", colour: Colour::Teal };
    let two = ClipContent { label: "two", value: "v2", colour: Colour::Pink };
    let rows = rows_with_ids(5, &[one, two], &[11, 22]);
    assert_eq!(rows.iter().map(|row| row.id).collect::<Vec<u128>>(), vec![11, 22]);
    assert_eq!(rows.iter().map(|row| row.position).collect::<Vec<i64>>(), vec![5, 6]);
    assert_eq!(rows.iter().map(|row| row.content.label).collect::<Vec<&str>>(), vec!["one", "two"]);
}

#[test]
fn an_update_on_an_unknown_id_is_not_found_and_creates_nothing() {
    let id: u128 = 0x8a1f_0000_0000_4000_8000_0000_0000_0001;
    assert_eq!(
        require_changed(0, id),
        Err(ClipError::NotFound { clip_id: "8a1f0000-0000-4000-8000-000000000001".into() })
    );
    assert_eq!(require_changed(1, id), Ok(()));
}

#[test]
fn a_stored_colour_this_build_cannot_interpret_is_storage_rather_than_a_panic() {
    let id = "8a1f0000-0000-4000-8000-000000000001";
    assert!(matches!(decode_row(id, "l".into(), "v".into(), "chartreuse", 0, 0), Err(ClipError::Storage)));
    assert!(matches!(decode_row("not-a-uuid", "l".into(), "v".into(), "red", 0, 0), Err(ClipError::Storage)));
    match decode_row(id, "label".into(), "value".into(), "teal", 4, 2) {
        Ok(row) => {
            assert_eq!(row.id, 0x8a1f_0000_0000_4000_8000_0000_0000_0001);
            assert_eq!(row.label, "label");
            assert_eq!(row.value, "value");
            assert_eq!(row.colour, fastclip::colour::Colour::Teal);
            assert_eq!((row.use_count, row.position), (4, 2));
        }
        Err(e) => panic!("the row should decode: {e:?}"),
    }
    assert!(matches!(decode_tray_row("bad", "l".into()), Err(ClipError::Storage)));
}

// ---- the store's state ----

fn recovered(classification: Classification, open: bool, fault: Option<ClipError>) -> Status {
    Status::recovered(Recovered { classification, open, fault })
}

#[test]
fn a_fresh_store_serves_work_and_reports_no_fault() {
    let (_, first_run) = run_recovery(Classification::Absent, true, Ok(()));
    let status = Status::recovered(first_run);
    assert!(!status.is_locked());
    assert!(!status.encryption_enabled());
    assert_eq!(status.startup_fault(), None);
    assert_eq!(status.guard(true), Ok(()));
}

#[test]
fn a_row_becomes_a_wire_clip_without_its_backend_only_columns() {
    let row = ClipRow {
        id: 0,
        label: "l".into(),
        value: "v".into(),
        colour: Colour::Pink,
        use_count: 9,
        position: 3,
    };
    let wire = fastclip::commands::wire::Clip::from_row(row);
    assert_eq!(wire.id, 0);
    assert_eq!(wire.label, "l");
    assert_eq!(wire.value, "v");
    assert_eq!(wire.colour, Colour::Pink);
}

#[test]
fn an_encrypted_store_starts_locked_and_the_guard_says_locked() {
    let status = recovered(Classification::Encrypted, false, None);
    assert!(status.is_locked());
    assert!(status.encryption_enabled());
    assert_eq!(status.guard(false), Err(ClipError::Locked));
    assert_eq!(status.guard(true), Err(ClipError::Locked));
}

#[test]
fn a_recorded_startup_fault_is_what_the_guard_returns() {
    let fault = ClipError::Crypto { reason: CryptoReason::Corrupt };
    let status = recovered(Classification::Plaintext, false, Some(fault.clone()));
    assert!(!status.is_locked());
    assert_eq!(status.guard(false), Err(fault));
}

#[test]
fn a_store_with_nowhere_to_live_reports_storage_rather_than_panicking() {
    let status = Status::faulted(ClipError::Storage);
    assert_eq!(status.startup_fault(), Some(ClipError::Storage));
    assert_eq!(status.guard(false), Err(ClipError::Storage));
    assert!(!status.is_locked());
}

#[test]
fn shutdown_closes_the_connection_and_later_work_reports_the_fault() {
    let status = recovered(Classification::Plaintext, true, None);
    assert_eq!(status.guard(true), Ok(()));
    assert_eq!(status.guard(false), Err(ClipError::Storage));
}

#[test]
fn locking_gives_up_the_key_and_is_idempotent() {
    let mut status = recovered(Classification::Encrypted, false, None);
    let dek = Dek::from_bytes([3; DEK_LEN]);
    status.unlocked_with(dek.clone());
    assert!(!status.is_locked());
    assert!(status.holds_dek(&dek));
    assert_eq!(status.lock(), Ok(true));
    assert!(status.is_locked());
    assert!(status.dek().is_none());
    assert_eq!(status.lock(), Ok(false));
    assert!(status.is_locked());
}

#[test]
fn an_unencrypted_store_refuses_to_lock() {
    let mut status = recovered(Classification::Plaintext, true, None);
    assert_eq!(status.lock(), Err(ClipError::WrongState { required: RequiredState::Encrypted }));
    assert!(!status.is_locked());
}

#[test]
fn a_commit_decides_the_classification_and_clears_the_fault() {
    let mut status = recovered(Classification::Plaintext, true, Some(ClipError::Storage));
    let dek = Dek::from_bytes([5; DEK_LEN]);
    status.apply_commit(Becoming::Encrypted(dek.clone()));
    assert_eq!(status.classification(), Classification::Encrypted);
    assert!(!status.is_locked());
    assert!(status.holds_dek(&dek));
    assert_eq!(status.startup_fault(), None);
    status.apply_commit(Becoming::Plaintext);
    assert_eq!(status.classification(), Classification::Plaintext);
    assert!(status.dek().is_none());
}

// ---- the conversion ----

fn recorded() -> Recorded {
    Recorded { clips: 3, user_version: 1 }
}

fn facts(integrity: &str, clips: i64, user_version: i64) -> CopyFacts {
    CopyFacts { integrity: integrity.to_owned(), clips, user_version }
}

/// Drive a conversion with scripted reports: `fail_at` names the step whose
/// report fails.
fn run_conversion(fail_at: Option<&str>, checked: CopyFacts, reopened: bool, original: bool) -> (Vec<&'static str>, Outcome) {
    let mut taken = Vec::new();
    let mut step = convert::first();
    let mut checked = Some(checked);
    let fails = |name: &str| fail_at == Some(name);
    loop {
        let report = match &step {
            convert::Step::Record => {
                taken.push("record");
                convert::Report::Recorded(if fails("record") { Err(ClipError::Storage) } else { Ok(recorded()) })
            }
            convert::Step::Export(_) => {
                taken.push("export");
                convert::Report::Ran(if fails("export") { Err(ClipError::Storage) } else { Ok(()) })
            }
            convert::Step::Detach(_) => { taken.push("detach"); convert::Report::Ran(Ok(())) }
            convert::Step::Verify(_) => {
                taken.push("verify");
                convert::Report::Checked(Ok(checked.take().unwrap_or_else(|| facts("ok", 3, 1))))
            }
            convert::Step::CloseBoth => { taken.push("close"); convert::Report::Completed }
            convert::Step::DeleteSidecars => { taken.push("delete_sidecars"); convert::Report::Succeeded(!fails("sidecars")) }
            convert::Step::Rename => { taken.push("rename"); convert::Report::Succeeded(!fails("rename")) }
            convert::Step::Commit => { taken.push("commit"); convert::Report::Completed }
            convert::Step::Reopen => { taken.push("reopen"); convert::Report::Succeeded(reopened) }
            convert::Step::SweepTargetSidecars { .. } => { taken.push("sweep"); convert::Report::Completed }
            convert::Step::Release { .. } => { taken.push("release"); convert::Report::Completed }
            convert::Step::DeleteIntermediates { .. } => { taken.push("delete_intermediates"); convert::Report::Completed }
            convert::Step::ReopenOriginal { .. } => { taken.push("reopen_original"); convert::Report::Succeeded(original) }
            convert::Step::Finish(_) => break,
        };
        step = convert::next(step, report);
    }
    match step {
        convert::Step::Finish(outcome) => (taken, outcome),
        _ => unreachable!(),
    }
}

#[test]
fn a_conversion_that_succeeds_commits_at_the_rename_and_reopens() {
    let (taken, outcome) = run_conversion(None, facts("ok", 3, 1), true, true);
    assert_eq!(
        taken,
        vec!["record", "export", "detach", "verify", "close", "delete_sidecars", "rename", "commit", "reopen", "sweep"]
    );
    assert!(matches!(outcome, Outcome::Converted));
}

#[test]
fn a_reopen_that_fails_after_the_commit_is_committed_but_closed() {
    let (taken, outcome) = run_conversion(None, facts("OK", 3, 1), false, true);
    assert!(taken.contains(&"commit"));
    assert!(matches!(outcome, Outcome::CommittedButClosed));
}

#[test]
fn a_source_that_is_not_a_store_aborts_before_writing_anything() {
    let (taken, outcome) = run_conversion(Some("record"), facts("ok", 3, 1), true, true);
    assert_eq!(taken, vec!["record", "release", "delete_intermediates"]);
    match outcome {
        Outcome::Aborted { original_open, error } => {
            assert!(original_open);
            assert_eq!(error, ClipError::Storage);
        }
        _ => panic!("a failed record aborts"),
    }
}

#[test]
fn a_copy_that_does_not_match_the_source_aborts_before_the_commit() {
    for bad in [facts("*** in database main ***", 3, 1), facts("ok", 2, 1), facts("ok", 3, 0)] {
        let (taken, outcome) = run_conversion(None, bad, true, true);
        assert!(!taken.contains(&"rename") && !taken.contains(&"commit"));
        assert!(matches!(outcome, Outcome::Aborted { original_open: true, error: ClipError::Storage }));
    }
}

#[test]
fn a_failed_rename_aborts_and_reopens_the_original() {
    let (taken, outcome) = run_conversion(Some("rename"), facts("ok", 3, 1), true, true);
    assert!(!taken.contains(&"commit"));
    let release = taken.iter().position(|s| *s == "release");
    let delete = taken.iter().position(|s| *s == "delete_intermediates");
    let reopen = taken.iter().position(|s| *s == "reopen_original");
    assert!(release < delete && delete < reopen);
    assert!(matches!(outcome, Outcome::Aborted { original_open: true, error: ClipError::Storage }));
    let (_, outcome) = run_conversion(Some("sidecars"), facts("ok", 3, 1), true, false);
    assert!(matches!(outcome, Outcome::Aborted { original_open: false, .. }));
}

#[test]
fn the_sidecars_go_before_the_rename() {
    let (taken, _) = run_conversion(None, facts("ok", 3, 1), true, true);
    let sidecars = taken.iter().position(|s| *s == "delete_sidecars");
    let rename = taken.iter().position(|s| *s == "rename");
    assert!(sidecars < rename);
}

#[test]
fn settling_records_the_fault_a_closed_store_serves() {
    let mut status = recovered(Classification::Plaintext, true, None);
    let converted = convert::settle(&mut status, Outcome::CommittedButClosed);
    assert!(converted.committed);
    assert_eq!(converted.result, Err(ClipError::Storage));
    assert_eq!(status.startup_fault(), Some(ClipError::Storage));

    let mut status = recovered(Classification::Plaintext, true, None);
    let converted = convert::settle(&mut status, Outcome::Aborted { original_open: true, error: ClipError::Internal });
    assert!(!converted.committed);
    assert_eq!(converted.result, Err(ClipError::Internal));
    assert_eq!(status.startup_fault(), None);

    let converted = convert::settle(&mut status, Outcome::Converted);
    assert!(converted.committed && converted.result.is_ok());
}

#[test]
fn the_attach_statement_carries_the_targets_key_and_never_the_path() {
    let paths = StorePaths::at("root");
    let dek = Dek::from_bytes([0x01; DEK_LEN]);
    let enabling = Becoming::Encrypted(dek.clone());
    let plan = Plan::new(&paths, &enabling, None);
    assert_eq!(plan.attach_statement(), format!("ATTACH DATABASE ?1 AS converted KEY \"{}\"", raw_key_literal(&dek)));
    let disabling = Becoming::Plaintext;
    let plan = Plan::new(&paths, &disabling, Some(&dek));
    assert_eq!(plan.attach_statement(), "ATTACH DATABASE ?1 AS converted KEY ''");
    assert!(plan.source_key.is_some());
    assert_eq!(convert::stamp_statement(1), "PRAGMA converted.user_version = 1;");
    assert_eq!(convert::stamp_statement(-7), "PRAGMA converted.user_version = -7;");
}
