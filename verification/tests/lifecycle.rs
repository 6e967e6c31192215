//! The session state machine and the command facade.

use logitech_led::binder::build_table;
use logitech_led::session::{
    complete, complete_config_color, complete_label, NativeCall, Op, Session, SessionFlag,
};
use logitech_led::wide::LABEL_LEN;
use logitech_led::{
    DeviceType, Error, Handle, Key, PercentColor, BITMAP_BYTES_PER_KEY, BITMAP_HEIGHT,
    BITMAP_SIZE, BITMAP_WIDTH,
};

fn fresh_session(flag: &mut SessionFlag) -> Session {
    let addrs: Vec<u64> = (1..=25).collect();
    let table = build_table(addrs).unwrap();
    let handle = Handle::new(0x2000);
    Session::open(flag, table, handle, true).unwrap()
}

#[test]
fn bitmap_dimensions() {
    assert_eq!(BITMAP_WIDTH, 21);
    assert_eq!(BITMAP_HEIGHT, 6);
    assert_eq!(BITMAP_BYTES_PER_KEY, 4);
    assert_eq!(BITMAP_SIZE, 21 * 6 * 4);
}

#[test]
fn second_open_while_live_is_rejected() {
    let mut flag = SessionFlag::new();
    let _session = fresh_session(&mut flag);
    let addrs: Vec<u64> = (1..=25).collect();
    let table = build_table(addrs).unwrap();
    let handle = Handle::new(0x3000);
    assert!(matches!(
        Session::open(&mut flag, table, handle, true),
        Err(Error::AlreadyInitialized)
    ));
}

#[test]
fn failed_native_init_rolls_the_open_back() {
    let mut flag = SessionFlag::new();
    let addrs: Vec<u64> = (1..=25).collect();
    let table = build_table(addrs).unwrap();
    let handle = Handle::new(0x2000);
    assert!(matches!(
        Session::open(&mut flag, table, handle, false),
        Err(Error::Init)
    ));
    let _session = fresh_session(&mut flag);
}

#[test]
fn close_clears_the_flag_and_is_idempotent() {
    let mut flag = SessionFlag::new();
    let mut session = fresh_session(&mut flag);
    assert!(session.close(&mut flag));
    assert!(!session.close(&mut flag));
    let _session = fresh_session(&mut flag);
}

#[test]
fn flag_alone_enforces_the_singleton() {
    let mut flag = SessionFlag::new();
    assert!(flag.try_acquire().is_ok());
    assert!(matches!(
        flag.try_acquire(),
        Err(Error::AlreadyInitialized)
    ));
    flag.release();
    assert!(flag.try_acquire().is_ok());
}

#[test]
fn set_type_marshals_the_device_mask() {
    let mut flag = SessionFlag::new();
    let session = fresh_session(&mut flag);
    assert!(matches!(
        session.set_type(DeviceType::All),
        NativeCall::SetTargetDevice { mask: 0x7 }
    ));
    assert!(matches!(
        session.set_type(DeviceType::PerkeyRgb),
        NativeCall::SetTargetDevice { mask: 0x4 }
    ));
}

#[test]
fn set_lighting_carries_the_triplet() {
    let mut flag = SessionFlag::new();
    let session = fresh_session(&mut flag);
    let c = session.set_lighting(PercentColor::new(100, 0, 55));
    match c {
        NativeCall::SetLighting { color } => {
            assert_eq!(color, PercentColor { r: 100, g: 0, b: 55 })
        }
        _ => panic!("expected the lighting call"),
    }
}

#[test]
fn flash_lighting_encodes_both_durations() {
    let mut flag = SessionFlag::new();
    let session = fresh_session(&mut flag);
    let c = session
        .flash_lighting(PercentColor::new(1, 2, 3), Some((1, 500_000_000)), (0, 250_000_000))
        .unwrap();
    match c {
        NativeCall::FlashLighting { color, duration_ms, interval_ms } => {
            assert_eq!(color, PercentColor { r: 1, g: 2, b: 3 });
            assert_eq!(duration_ms, 1500);
            assert_eq!(interval_ms, 250);
        }
        _ => panic!("expected the flash call"),
    }
}

#[test]
fn flash_lighting_with_no_duration_uses_the_sentinel() {
    let mut flag = SessionFlag::new();
    let session = fresh_session(&mut flag);
    let c = session.flash_lighting(PercentColor::new(1, 2, 3), None, (1, 0)).unwrap();
    match c {
        NativeCall::FlashLighting { duration_ms, interval_ms, .. } => {
            assert_eq!(duration_ms, 0);
            assert_eq!(interval_ms, 1000);
        }
        _ => panic!("expected the flash call"),
    }
}

#[test]
fn overflowing_duration_fails_the_effect_call() {
    let mut flag = SessionFlag::new();
    let session = fresh_session(&mut flag);
    assert!(matches!(
        session.flash_lighting(PercentColor::new(1, 2, 3), Some((u64::MAX, 0)), (0, 0)),
        Err(Error::DurationOverflow)
    ));
    assert!(matches!(
        session.pulse_lighting(PercentColor::new(1, 2, 3), None, (u64::MAX, 0)),
        Err(Error::DurationOverflow)
    ));
    assert!(matches!(
        session.pulse_single_key(
            Key::A,
            PercentColor::new(0, 0, 0),
            PercentColor::new(100, 100, 100),
            Some((u64::MAX, 0)),
            false
        ),
        Err(Error::DurationOverflow)
    ));
}

#[test]
fn short_bitmap_is_rejected_before_any_native_call() {
    let mut flag = SessionFlag::new();
    let session = fresh_session(&mut flag);
    let short = vec![0u8; BITMAP_SIZE - 1];
    assert!(matches!(
        session.set_lighting_from_bitmap(&short),
        Err(Error::BitmapSize)
    ));
    let long = vec![0u8; BITMAP_SIZE + 1];
    assert!(matches!(
        session.set_lighting_from_bitmap(&long),
        Err(Error::BitmapSize)
    ));
}

#[test]
fn exact_bitmap_is_passed_through() {
    let mut flag = SessionFlag::new();
    let session = fresh_session(&mut flag);
    let bitmap: Vec<u8> = (0..BITMAP_SIZE).map(|i| (i % 251) as u8).collect();
    match session.set_lighting_from_bitmap(&bitmap).unwrap() {
        NativeCall::SetLightingFromBitmap { bitmap: b } => assert_eq!(b, bitmap),
        _ => panic!("expected the bitmap call"),
    }
}

#[test]
fn per_key_calls_use_the_scan_codes() {
    let mut flag = SessionFlag::new();
    let session = fresh_session(&mut flag);
    assert!(matches!(
        session.set_lighting_for_key(Key::ESC, PercentColor::new(1, 1, 1)),
        NativeCall::SetLightingForKey { key_code: 0x01, .. }
    ));
    assert!(matches!(
        session.save_lighting_for_key(Key::F1),
        NativeCall::SaveLightingForKey { key_code: 0x3b }
    ));
    assert!(matches!(
        session.restore_lighting_for_key(Key::G_LOGO),
        NativeCall::RestoreLightingForKey { key_code: 0xFFFF1 }
    ));
    assert!(matches!(
        session.stop_effects_on_key(Key::SPACE),
        NativeCall::StopEffectsOnKey { key_code: 0x39 }
    ));
}

#[test]
fn exclusion_list_maps_each_key_in_order() {
    let mut flag = SessionFlag::new();
    let session = fresh_session(&mut flag);
    let keys = [Key::ESC, Key::G_BADGE, Key::NUM_LOCK];
    match session.exclude_keys_from_bitmap(&keys) {
        NativeCall::ExcludeKeysFromBitmap { key_codes } => {
            assert_eq!(key_codes, vec![0x01, 0xFFFF2, 0x45])
        }
        _ => panic!("expected the exclusion call"),
    }
}

#[test]
fn config_calls_carry_the_terminated_path() {
    let mut flag = SessionFlag::new();
    let session = fresh_session(&mut flag);
    match session.config_option_num("player/health").unwrap() {
        NativeCall::GetConfigOptionNumber { path } => {
            assert_eq!(path.last(), Some(&0));
            assert_eq!(path.len(), "player/health".len() + 1);
        }
        _ => panic!("expected the numeric query"),
    }
    assert!(matches!(
        session.config_option_bool("a\0b"),
        Err(Error::NullCharacter)
    ));
    match session.config_option_color("c", PercentColor::new(5, 6, 7)).unwrap() {
        NativeCall::GetConfigOptionColor { path, default } => {
            assert_eq!(path, vec![99, 0]);
            assert_eq!(default, PercentColor { r: 5, g: 6, b: 7 });
        }
        _ => panic!("expected the color query"),
    }
}

#[test]
fn label_call_carries_path_and_bounded_label() {
    let mut flag = SessionFlag::new();
    let session = fresh_session(&mut flag);
    match session.config_option_label("p", "hi").unwrap() {
        NativeCall::SetConfigOptionLabel { path, label } => {
            assert_eq!(path, vec![112, 0]);
            assert_eq!(label.len(), LABEL_LEN);
            assert_eq!(&label[..3], &[104, 105, 0]);
        }
        _ => panic!("expected the label call"),
    }
    assert!(matches!(
        session.config_option_label("p", "h\0i"),
        Err(Error::NullCharacter)
    ));
}

#[test]
fn false_native_answers_become_the_named_errors() {
    assert!(complete(Op::SetLighting, true).is_ok());
    assert!(matches!(
        complete(Op::SetLighting, false),
        Err(Error::SetLighting)
    ));
    assert!(matches!(
        complete(Op::SetTargetDevice, false),
        Err(Error::SetTargetDevice)
    ));
    assert!(matches!(
        complete(Op::SaveCurrentLighting, false),
        Err(Error::SaveCurrentLighting)
    ));
    assert!(matches!(
        complete(Op::RestoreLighting, false),
        Err(Error::RestoreLighting)
    ));
    assert!(matches!(
        complete(Op::FlashLighting, false),
        Err(Error::FlashLighting)
    ));
    assert!(matches!(
        complete(Op::PulseLighting, false),
        Err(Error::PulseLighting)
    ));
    assert!(matches!(
        complete(Op::StopEffects, false),
        Err(Error::StopEffects)
    ));
    assert!(matches!(
        complete(Op::SetLightingFromBitmap, false),
        Err(Error::SetLightingFromBitmap)
    ));
    assert!(matches!(
        complete(Op::SetLightingForKeyWithKeyName, false),
        Err(Error::SetLightingForKeyWithKeyName)
    ));
    assert!(matches!(
        complete(Op::SaveLightingForKey, false),
        Err(Error::SaveLightingForKey)
    ));
    assert!(matches!(
        complete(Op::RestoreLightingForKey, false),
        Err(Error::RestoreLightingForKey)
    ));
    assert!(matches!(
        complete(Op::ExcludeKeysFromBitmap, false),
        Err(Error::ExcludeKeysFromBitmap)
    ));
    assert!(matches!(
        complete(Op::FlashSingleKey, false),
        Err(Error::FlashSingleKey)
    ));
    assert!(matches!(
        complete(Op::PulseSingleKey, false),
        Err(Error::PulseSingleKey)
    ));
    assert!(matches!(
        complete(Op::StopEffectsOnKey, false),
        Err(Error::StopEffectsOnKey)
    ));
    assert!(matches!(
        complete(Op::GetConfigOptionNumber, false),
        Err(Error::GetConfigOptionNumber)
    ));
    assert!(matches!(
        complete(Op::GetConfigOptionBool, false),
        Err(Error::GetConfigOptionBool)
    ));
}

#[test]
fn config_color_answer_is_reclamped() {
    assert!(matches!(
        complete_config_color(false, 1, 2, 3),
        Err(Error::GetConfigOptionColor)
    ));
    assert_eq!(
        complete_config_color(true, 150, -5, 50).unwrap(),
        PercentColor { r: 100, g: 0, b: 50 }
    );
}

#[test]
fn label_answer_is_scanned_and_decoded() {
    let mut buf = vec![0u16; LABEL_LEN];
    assert!(matches!(
        complete_label(false, &buf),
        Err(Error::SetConfigOptionLabel)
    ));
    buf[0] = 111;
    buf[1] = 107;
    assert_eq!(complete_label(true, &buf).unwrap(), "ok");
}

#[test]
fn key_codes_match_the_vendor_scan_space() {
    assert_eq!(Key::ESC.code(), 0x01);
    assert_eq!(Key::A.code(), 0x1E);
    assert_eq!(Key::PRINT_SCREEN.code(), 0x137);
    assert_eq!(Key::G_1.code(), 0xFFF1);
    assert_eq!(Key::G_BADGE.code(), 0xFFFF2);
    assert_eq!(DeviceType::Monochrome.bits(), 0x1);
    assert_eq!(DeviceType::Rgb.bits(), 0x2);
    assert_eq!(DeviceType::PerkeyRgb.bits(), 0x4);
    assert_eq!(DeviceType::All.bits(), 0x7);
}

#[test]
fn load_failure_carries_the_platform_error() {
    let e = Error::LoadLibrary(std::io::Error::new(
        std::io::ErrorKind::NotFound,
        "module not found",
    ));
    assert!(matches!(e, Error::LoadLibrary(_)));
}
