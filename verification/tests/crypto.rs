use chacha20poly1305::aead::{Aead, KeyInit, Payload};
use chacha20poly1305::{Key, XChaCha20Poly1305, XNonce};
use fastclip::crypto::dek::DEK_LEN;
use fastclip::crypto::kdf::{
    KdfParams, DEFAULT_M_COST_KIB, DEFAULT_T_COST, MIN_M_COST_KIB, MIN_T_COST, P_COST, SALT_LEN,
};
use fastclip::crypto::keyfile::{
    accept_parsed, frame, unframe, KeyMaterial, BACKOFF_MS, KEYFILE_VERSION, MAX_ATTEMPTS,
};
use fastclip::crypto::wrap::{unwrap, wrap, WrappedDek, NONCE_LEN};
use fastclip::crypto::{fill_random, Dek, Pin};
use fastclip::error::{ClipError, CryptoReason, InvalidReason, VersionComponent};

fn dek_of(byte: u8) -> Dek {
    Dek::from_bytes([byte; DEK_LEN])
}

fn pin(value: &str) -> Pin {
    match Pin::parse("pin", Some(value.to_owned())) {
        Ok(pin) => pin,
        Err(e) => panic!("the fixture PIN should parse: {e:?}"),
    }
}

/// The cheapest parameters every reader accepts.
fn cheap(salt: [u8; SALT_LEN]) -> KdfParams {
    KdfParams { m_cost_kib: MIN_M_COST_KIB, t_cost: MIN_T_COST, p_cost: P_COST, salt }
}

/// Key material for the backoff arithmetic, which reads no key.
fn fresh() -> KeyMaterial {
    KeyMaterial {
        kdf: cheap([0x11; SALT_LEN]),
        wrapped_dek: WrappedDek { nonce: [0; NONCE_LEN], ciphertext: vec![0; 48] },
        failed_attempts: 0,
        locked_until_unix_ms: None,
    }
}

/// Real key material for `dek` under `value`, at the cheapest accepted cost.
fn cheap_material(value: &str, dek: &Dek) -> KeyMaterial {
    let kdf = cheap([0x5a; SALT_LEN]);
    let key = match fastclip::crypto::kdf::derive(&pin(value), &kdf) {
        Ok(key) => key,
        Err(e) => panic!("the key should derive: {e:?}"),
    };
    let wrapped_dek = match wrap(&key, dek) {
        Ok(wrapped) => wrapped,
        Err(e) => panic!("the key should wrap: {e:?}"),
    };
    KeyMaterial { kdf, wrapped_dek, failed_attempts: 0, locked_until_unix_ms: None }
}

// ---- the DEK ----

#[test]
fn a_generated_key_is_not_all_zeroes_and_two_are_different() {
    let first = match Dek::generate() {
        Ok(dek) => dek,
        Err(e) => panic!("a DEK should be generatable: {e:?}"),
    };
    let second = match Dek::generate() {
        Ok(dek) => dek,
        Err(e) => panic!("a DEK should be generatable: {e:?}"),
    };
    assert_ne!(first.expose(), &[0u8; DEK_LEN]);
    assert!(first != second);
}

#[test]
fn the_key_is_two_hundred_and_fifty_six_bits() {
    assert_eq!(DEK_LEN * 8, 256, "the DEK is 256 bits");
}

#[test]
fn equality_holds_for_the_same_bytes_and_fails_for_one_flipped_bit() {
    assert!(dek_of(0x2b) == dek_of(0x2b));
    let mut bytes = [0x2bu8; DEK_LEN];
    bytes[DEK_LEN - 1] ^= 0x01;
    assert!(dek_of(0x2b) != Dek::from_bytes(bytes));
}

#[test]
fn the_debug_of_a_key_carries_none_of_its_bytes() {
    let dek = Dek::from_bytes([0xAB; DEK_LEN]);
    let rendered = dek.describe();
    assert!(rendered.contains("redacted"), "{rendered}");
    assert!(!rendered.contains("ab"), "{rendered}");
    assert!(!rendered.contains("171"), "{rendered}");
    assert!(!rendered.contains(&format!("{:?}", [0xABu8; DEK_LEN])), "{rendered}");
}

#[test]
fn a_cloned_key_is_the_same_key() {
    let dek = dek_of(0x42);
    assert!(dek.clone() == dek);
    assert_eq!(dek.clone().expose(), dek.expose());
}

// ---- the KDF ----

#[test]
fn the_debug_of_the_parameters_redacts_the_salt_and_the_debug_of_a_key_is_empty() {
    let params = cheap([0xAB; SALT_LEN]);
    let rendered = params.describe();
    assert!(rendered.contains("redacted"), "{rendered}");
    assert!(!rendered.contains("171"), "{rendered}");
    assert!(rendered.contains("m_cost_kib"), "the costs are not secret");

    let key = match fastclip::crypto::kdf::derive(&pin("123456"), &params) {
        Ok(key) => key,
        Err(e) => panic!("the key should derive: {e:?}"),
    };
    let rendered = key.describe();
    assert!(rendered.contains("redacted"), "{rendered}");
}

#[test]
fn fill_random_does_not_leave_the_buffer_untouched() {
    let mut first = [0u8; 32];
    let mut second = [0u8; 32];
    assert!(fill_random(&mut first).is_ok());
    assert!(fill_random(&mut second).is_ok());

    assert_ne!(first, [0u8; 32], "a DEK of zeroes is not a key");
    assert_ne!(second, [0u8; 32]);
    assert_ne!(first, second, "two draws must not be identical");
}

#[test]
fn fill_random_handles_an_empty_buffer() {
    assert!(fill_random(&mut []).is_ok());
}

#[test]
fn generated_parameters_meet_the_floor_and_carry_a_random_salt() {
    let first = match KdfParams::generate() {
        Ok(params) => params,
        Err(e) => panic!("parameters should generate: {e:?}"),
    };
    let second = match KdfParams::generate() {
        Ok(params) => params,
        Err(e) => panic!("parameters should generate: {e:?}"),
    };
    assert!(first.validate().is_ok());
    assert!(first.m_cost_kib >= MIN_M_COST_KIB);
    assert!(first.t_cost >= MIN_T_COST);
    assert_eq!(first.p_cost, P_COST);
    assert_ne!(first.salt, [0u8; SALT_LEN], "a salt of zeroes is not a salt");
    assert_ne!(first.salt, second.salt, "the salt must be per-store");
}

#[test]
fn parameters_generated_from_the_shipped_tuple_validate() {
    let params = match KdfParams::generate() {
        Ok(params) => params,
        Err(e) => panic!("parameters should generate: {e:?}"),
    };
    assert_eq!(params.m_cost_kib, DEFAULT_M_COST_KIB);
    assert_eq!(params.t_cost, DEFAULT_T_COST);
    assert_eq!(params.validate(), Ok(()));
}

#[test]
fn parameters_below_the_floor_are_bad_key_material() {
    let bad = [
        (MIN_M_COST_KIB - 1, MIN_T_COST, P_COST),
        (MIN_M_COST_KIB, MIN_T_COST - 1, P_COST),
        (MIN_M_COST_KIB, MIN_T_COST, P_COST + 1),
        (0, 0, 0),
    ];
    for (m_cost_kib, t_cost, p_cost) in bad {
        let params = KdfParams { m_cost_kib, t_cost, p_cost, salt: [0x11; SALT_LEN] };
        assert_eq!(
            params.validate(),
            Err(ClipError::Crypto { reason: CryptoReason::BadKeyMaterial }),
            "for ({m_cost_kib}, {t_cost}, {p_cost})"
        );
    }
}

#[test]
fn absurd_parameters_are_refused_rather_than_attempted() {
    let params = KdfParams { m_cost_kib: u32::MAX, t_cost: u32::MAX, p_cost: P_COST, salt: [0x11; SALT_LEN] };
    assert_eq!(
        fastclip::crypto::kdf::derive(&pin("123456"), &params).map(|_| ()),
        Err(ClipError::Crypto { reason: CryptoReason::BadKeyMaterial })
    );
}

#[test]
fn the_same_pin_and_salt_derive_the_same_key() {
    let params = cheap([0x11; SALT_LEN]);
    let first = fastclip::crypto::kdf::derive(&pin("123456"), &params).map(|k| *k.expose());
    let second = fastclip::crypto::kdf::derive(&pin("123456"), &params).map(|k| *k.expose());
    assert!(first.is_ok());
    assert_eq!(first, second);
}

#[test]
fn a_different_pin_derives_a_different_key() {
    let params = cheap([0x11; SALT_LEN]);
    let first = fastclip::crypto::kdf::derive(&pin("123456"), &params).map(|k| *k.expose());
    let second = fastclip::crypto::kdf::derive(&pin("123457"), &params).map(|k| *k.expose());
    assert!(first.is_ok() && second.is_ok());
    assert_ne!(first, second);
}

#[test]
fn a_different_salt_derives_a_different_key_from_the_same_pin() {
    let first = fastclip::crypto::kdf::derive(&pin("123456"), &cheap([0x11; SALT_LEN])).map(|k| *k.expose());
    let second = fastclip::crypto::kdf::derive(&pin("123456"), &cheap([0x22; SALT_LEN])).map(|k| *k.expose());
    assert!(first.is_ok() && second.is_ok());
    assert_ne!(first, second);
}

// ---- the wrap ----

fn key_for(pin_value: &str, params: &KdfParams) -> fastclip::crypto::kdf::WrapKey {
    match fastclip::crypto::kdf::derive(&pin(pin_value), params) {
        Ok(key) => key,
        Err(e) => panic!("the key should derive: {e:?}"),
    }
}

fn wrapped_under(pin_value: &str, params: &KdfParams, dek: &Dek) -> WrappedDek {
    match wrap(&key_for(pin_value, params), dek) {
        Ok(wrapped) => wrapped,
        Err(e) => panic!("the DEK should wrap: {e:?}"),
    }
}

fn unwrapped(key: &fastclip::crypto::kdf::WrapKey, wrapped: &WrappedDek) -> Result<Option<[u8; DEK_LEN]>, ClipError> {
    unwrap(key, wrapped).map(|found| found.map(|dek| *dek.expose()))
}

#[test]
fn the_right_pin_recovers_exactly_the_key_that_was_wrapped() {
    let params = cheap([0x11; SALT_LEN]);
    let dek = Dek::from_bytes([0x2b; 32]);
    let wrapped = wrapped_under("123456", &params, &dek);

    match unwrap(&key_for("123456", &params), &wrapped) {
        Ok(Some(recovered)) => assert!(recovered == dek),
        Ok(None) => panic!("the correct PIN was rejected"),
        Err(e) => panic!("the unwrap should not have errored: {e:?}"),
    }
}

#[test]
fn a_wrong_pin_is_a_clean_no_rather_than_an_error() {
    let params = cheap([0x11; SALT_LEN]);
    let wrapped = wrapped_under("123456", &params, &Dek::from_bytes([0x2b; 32]));

    for wrong in ["123457", "000000", "999999", "654321"] {
        match unwrap(&key_for(wrong, &params), &wrapped) {
            Ok(None) => {}
            Ok(Some(_)) => panic!("{wrong} unwrapped a DEK it should not have"),
            Err(e) => panic!("a wrong PIN must not be an error: {e:?}"),
        }
    }
}

#[test]
fn two_wraps_of_the_same_key_differ_and_both_unwrap() {
    let params = cheap([0x11; SALT_LEN]);
    let dek = Dek::from_bytes([0x2b; 32]);
    let first = wrapped_under("123456", &params, &dek);
    let second = wrapped_under("123456", &params, &dek);

    assert_ne!(first.nonce, second.nonce, "a nonce must never be reused");
    assert_ne!(first.ciphertext, second.ciphertext);

    let key = key_for("123456", &params);
    assert_eq!(unwrapped(&key, &first), Ok(Some([0x2b; 32])));
    assert_eq!(unwrapped(&key, &second), Ok(Some([0x2b; 32])));
}

#[test]
fn a_flipped_bit_anywhere_in_the_wrap_is_refused() {
    let params = cheap([0x11; SALT_LEN]);
    let dek = Dek::from_bytes([0x2b; 32]);
    let key = key_for("123456", &params);
    let original = wrapped_under("123456", &params, &dek);

    for index in 0..original.ciphertext.len() {
        let mut tampered = original.clone();
        tampered.ciphertext[index] ^= 0x01;
        assert_eq!(unwrapped(&key, &tampered), Ok(None), "a flipped ciphertext bit at {index} was accepted");
    }

    let mut wrong_nonce = original.clone();
    wrong_nonce.nonce[0] ^= 0x01;
    assert_eq!(unwrapped(&key, &wrong_nonce), Ok(None));
}

#[test]
fn a_truncated_wrap_is_refused() {
    let params = cheap([0x11; SALT_LEN]);
    let key = key_for("123456", &params);
    let mut wrapped = wrapped_under("123456", &params, &Dek::from_bytes([0x2b; 32]));
    wrapped.ciphertext.truncate(16);
    assert_eq!(unwrapped(&key, &wrapped), Ok(None));

    wrapped.ciphertext.clear();
    assert_eq!(unwrapped(&key, &wrapped), Ok(None));
}

#[test]
fn a_ciphertext_wrapped_without_the_context_does_not_verify() {
    let key = match fastclip::crypto::kdf::derive(&pin("123456"), &cheap([0x11; SALT_LEN])) {
        Ok(key) => key,
        Err(e) => panic!("the key should derive: {e:?}"),
    };
    let cipher = XChaCha20Poly1305::new(Key::from_slice(key.expose()));
    let nonce = [0x07u8; NONCE_LEN];
    let foreign = match cipher.encrypt(
        XNonce::from_slice(&nonce),
        Payload { msg: &[0x2bu8; 32], aad: b"some other purpose" },
    ) {
        Ok(ciphertext) => ciphertext,
        Err(_) => panic!("the fixture should encrypt"),
    };
    assert!(matches!(unwrap(&key, &WrappedDek { nonce, ciphertext: foreign }), Ok(None)));
}

#[test]
fn the_debug_of_a_wrap_carries_none_of_its_bytes() {
    let key = match fastclip::crypto::kdf::derive(&pin("123456"), &cheap([0x11; SALT_LEN])) {
        Ok(key) => key,
        Err(e) => panic!("the key should derive: {e:?}"),
    };
    let wrapped = match wrap(&key, &dek_of(0xAB)) {
        Ok(wrapped) => wrapped,
        Err(e) => panic!("the wrap should succeed: {e:?}"),
    };
    let rendered = wrapped.describe();
    assert!(rendered.contains("redacted"), "{rendered}");
    assert!(!rendered.contains(&format!("{:?}", wrapped.ciphertext)), "{rendered}");
    assert!(!rendered.contains(&format!("{:?}", wrapped.nonce)), "{rendered}");
}

// ---- the PIN ----

fn parse(value: &str) -> Result<Pin, ClipError> {
    Pin::parse("pin", Some(value.to_owned()))
}

#[test]
fn six_ascii_digits_are_accepted() {
    for value in ["123456", "000000", "999999"] {
        match parse(value) {
            Ok(pin) => assert_eq!(pin.expose(), value.as_bytes()),
            Err(e) => panic!("{value} should be a valid PIN: {e:?}"),
        }
    }
}

#[test]
fn an_absent_argument_is_required_rather_than_not_six_digits() {
    assert_eq!(
        Pin::parse("pin", None).map(drop),
        Err(ClipError::InvalidInput { field: "pin".into(), reason: InvalidReason::Required })
    );
}

#[test]
fn anything_that_is_not_six_ascii_digits_is_rejected() {
    let rejected = [
        "",
        "12345",
        "1234567",
        "12345a",
        "12 456",
        "12345\n",
        "-12345",
        "\u{0661}\u{0662}\u{0663}\u{0664}\u{0665}\u{0666}",
        "\u{FF11}\u{FF12}\u{FF13}\u{FF14}\u{FF15}\u{FF16}",
    ];
    for value in rejected {
        assert_eq!(
            parse(value).map(drop),
            Err(ClipError::InvalidInput { field: "pin".into(), reason: InvalidReason::NotSixDigits }),
            "for {value:?}"
        );
    }
}

#[test]
fn the_rejection_names_the_argument_it_came_from() {
    for field in ["pin", "current_pin", "new_pin"] {
        assert_eq!(
            Pin::parse(field, Some("nope".into())).map(drop),
            Err(ClipError::InvalidInput { field: field.into(), reason: InvalidReason::NotSixDigits })
        );
    }
}

#[test]
fn the_debug_of_a_pin_carries_none_of_its_digits() {
    let pin = match parse("135790") {
        Ok(pin) => pin,
        Err(e) => panic!("the fixture should parse: {e:?}"),
    };
    let rendered = pin.describe();
    assert!(rendered.contains("redacted"), "{rendered}");
    assert!(!rendered.contains("135790"), "{rendered}");
}

#[test]
fn a_rejected_pin_is_not_echoed_in_the_error() {
    let secret = "1234567";
    let error = match parse(secret) {
        Ok(_) => panic!("seven digits should be rejected"),
        Err(error) => error,
    };
    assert!(!error.describe().contains(secret));
    assert!(!format!("{error:?}").contains(secret));
}

#[test]
fn equality_is_by_value() {
    let a = match parse("123456") {
        Ok(pin) => pin,
        Err(e) => panic!("the fixture should parse: {e:?}"),
    };
    let b = match parse("123456") {
        Ok(pin) => pin,
        Err(e) => panic!("the fixture should parse: {e:?}"),
    };
    let c = match parse("123457") {
        Ok(pin) => pin,
        Err(e) => panic!("the fixture should parse: {e:?}"),
    };
    assert!(a == b);
    assert!(a != c);
}

// ---- the counter and the wait ----

#[test]
fn a_clean_counter_has_five_attempts_and_no_wait() {
    let material = fresh();
    assert_eq!(material.attempts_remaining(), 5);
    assert_eq!(material.backoff_remaining_ms(fastclip::crypto::keyfile::now_unix_ms()), None);
}

#[test]
fn the_first_four_failures_count_down_without_a_wait() {
    let mut material = fresh();
    for expected in [4u32, 3, 2, 1] {
        material.record_failure(1_000);
        assert_eq!(material.attempts_remaining(), expected);
        assert_eq!(material.backoff_remaining_ms(1_000), None);
    }
}

#[test]
fn the_fifth_and_every_later_failure_arms_the_same_flat_wait() {
    let mut material = fresh();
    for _ in 0..4 {
        material.record_failure(1_000);
    }
    let mut now = 1_000u64;
    for attempt in 5..=20u32 {
        material.record_failure(now);
        assert_eq!(material.failed_attempts, attempt);
        assert_eq!(material.attempts_remaining(), 0);
        assert_eq!(material.backoff_remaining_ms(now), Some(BACKOFF_MS), "attempt {attempt} must wait exactly 30 seconds");
        now += BACKOFF_MS;
        assert_eq!(material.backoff_remaining_ms(now), None);
    }
}

#[test]
fn a_wait_counts_down_and_then_expires() {
    let mut material = fresh();
    for _ in 0..5 {
        material.record_failure(10_000);
    }
    assert_eq!(material.backoff_remaining_ms(10_000), Some(30_000));
    assert_eq!(material.backoff_remaining_ms(25_000), Some(15_000));
    assert_eq!(material.backoff_remaining_ms(39_999), Some(1));
    assert_eq!(material.backoff_remaining_ms(40_000), None);
    assert_eq!(material.backoff_remaining_ms(u64::MAX), None);
}

#[test]
fn a_success_clears_both_the_counter_and_the_wait() {
    let mut material = fresh();
    for _ in 0..7 {
        material.record_failure(1_000);
    }
    assert_eq!(material.attempts_remaining(), 0);
    assert!(material.backoff_remaining_ms(1_000).is_some());
    material.record_success();
    assert_eq!(material.failed_attempts, 0);
    assert_eq!(material.attempts_remaining(), MAX_ATTEMPTS);
    assert_eq!(material.backoff_remaining_ms(1_000), None);
}

#[test]
fn an_absurd_counter_saturates_rather_than_wrapping() {
    let mut material = fresh();
    material.failed_attempts = u32::MAX;
    material.record_failure(1_000);
    assert_eq!(material.failed_attempts, u32::MAX);
    assert_eq!(material.attempts_remaining(), 0);
    material.locked_until_unix_ms = Some(u64::MAX);
    material.record_failure(u64::MAX);
    assert_eq!(material.backoff_remaining_ms(0), Some(u64::MAX));
}

#[test]
fn a_wrong_pin_keeps_the_wrapped_key() {
    let mut material = cheap_material("123456", &dek_of(9));
    let before = material.wrapped_dek.clone();
    for _ in 0..20 {
        material.record_failure(5);
    }
    assert!(material.wrapped_dek == before);
}

// ---- the file framing ----

#[test]
fn a_framed_blob_unframes_to_itself() {
    let blob = vec![9u8, 8, 7, 6];
    let file = frame(&blob);
    assert_eq!(file[0], KEYFILE_VERSION);
    assert_eq!(unframe(&file), Ok(blob));
    assert_eq!(unframe(&frame(&[])), Ok(Vec::new()));
}

#[test]
fn an_empty_or_zero_versioned_file_is_bad_key_material() {
    assert_eq!(unframe(&[]), Err(ClipError::Crypto { reason: CryptoReason::BadKeyMaterial }));
    assert_eq!(unframe(&[0, 1, 2]), Err(ClipError::Crypto { reason: CryptoReason::BadKeyMaterial }));
}

#[test]
fn a_newer_file_is_an_unsupported_version() {
    assert_eq!(
        unframe(&[2, 1, 2]),
        Err(ClipError::UnsupportedVersion { component: VersionComponent::KeyMaterial, found: 2, supported: 1 })
    );
}

#[test]
fn parsed_material_is_accepted_only_with_runnable_parameters() {
    assert_eq!(accept_parsed(None).map(|_| ()), Err(ClipError::Crypto { reason: CryptoReason::BadKeyMaterial }));
    let good = fresh();
    assert!(accept_parsed(Some(good.clone())) == Ok(good.clone()));
    let mut bad = good;
    bad.kdf.p_cost = 4;
    assert_eq!(
        accept_parsed(Some(bad)).map(|_| ()),
        Err(ClipError::Crypto { reason: CryptoReason::BadKeyMaterial })
    );
}

#[test]
fn created_key_material_has_a_clean_counter_and_the_shipped_cost() {
    let material = match KeyMaterial::create(&pin("424242"), &dek_of(0x31)) {
        Ok(material) => material,
        Err(e) => panic!("the material should create: {e:?}"),
    };
    assert_eq!(material.failed_attempts, 0);
    assert_eq!(material.locked_until_unix_ms, None);
    assert_eq!(material.kdf.m_cost_kib, DEFAULT_M_COST_KIB);
    assert_eq!(material.kdf.t_cost, fastclip::crypto::kdf::DEFAULT_T_COST);
    assert_eq!(material.wrapped_dek.ciphertext.len(), DEK_LEN + 16);
}

#[test]
fn a_wiped_key_or_pin_holds_nothing_of_what_it_held() {
    let mut dek = dek_of(0xAB);
    dek.wipe();
    assert_eq!(dek.expose(), &[0u8; DEK_LEN]);

    let mut value = pin("123456");
    value.wipe();
    assert!(value.expose().is_empty());
}
