//! Value marshaling: percentage colors, durations, wide-character buffers.

use logitech_led::color::clamp_percent;
use logitech_led::duration::{duration_to_millis, encode_duration, DURATION_INFINITE};
use logitech_led::wide::{decode_label, label_to_wchar, str_to_wchar, LABEL_LEN};
use logitech_led::{Error, PercentColor};

#[test]
fn percent_color_clamps_out_of_range_channels() {
    let c = PercentColor::new(150, -3, 50);
    assert_eq!(c, PercentColor { r: 100, g: 0, b: 50 });
}

#[test]
fn percent_color_keeps_valid_channels() {
    let c = PercentColor::new(0, 100, 55);
    assert_eq!(c, PercentColor { r: 0, g: 100, b: 55 });
}

#[test]
fn clamp_percent_edges() {
    assert_eq!(clamp_percent(-1), 0);
    assert_eq!(clamp_percent(0), 0);
    assert_eq!(clamp_percent(100), 100);
    assert_eq!(clamp_percent(101), 100);
    assert_eq!(clamp_percent(i32::MIN), 0);
    assert_eq!(clamp_percent(i32::MAX), 100);
}

#[test]
fn duration_truncates_to_milliseconds() {
    assert_eq!(duration_to_millis(2, 500_000_000).unwrap(), 2500);
    assert_eq!(duration_to_millis(0, 0).unwrap(), 0);
    assert_eq!(duration_to_millis(0, 999_999).unwrap(), 0);
    assert_eq!(duration_to_millis(1, 1_000_000).unwrap(), 1001);
}

#[test]
fn duration_fills_the_native_range_exactly() {
    assert_eq!(
        duration_to_millis(2_147_483, 647_000_000).unwrap(),
        i32::MAX
    );
    assert!(matches!(
        duration_to_millis(2_147_483, 648_000_000),
        Err(Error::DurationOverflow)
    ));
    assert!(matches!(
        duration_to_millis(u64::MAX, 0),
        Err(Error::DurationOverflow)
    ));
}

#[test]
fn absent_duration_encodes_the_infinite_sentinel() {
    assert_eq!(encode_duration(None).unwrap(), DURATION_INFINITE);
    assert_eq!(encode_duration(Some((1, 0))).unwrap(), 1000);
}

#[test]
fn str_to_wchar_terminates_the_encoding() {
    assert_eq!(str_to_wchar("ab").unwrap(), vec![97, 98, 0]);
    assert_eq!(str_to_wchar("").unwrap(), vec![0]);
}

#[test]
fn str_to_wchar_encodes_surrogate_pairs() {
    assert_eq!(
        str_to_wchar("\u{1F600}").unwrap(),
        vec![0xD83D, 0xDE00, 0]
    );
}

#[test]
fn str_to_wchar_rejects_embedded_nul() {
    assert!(matches!(str_to_wchar("a\0b"), Err(Error::NullCharacter)));
    assert!(matches!(str_to_wchar("\0"), Err(Error::NullCharacter)));
}

#[test]
fn label_buffer_is_padded_to_the_bound() {
    let v = label_to_wchar("hi").unwrap();
    assert_eq!(v.len(), LABEL_LEN);
    assert_eq!(&v[..3], &[104, 105, 0]);
    assert!(v[3..].iter().all(|&u| u == 0));
}

#[test]
fn label_round_trip_reads_back_what_the_native_layer_wrote() {
    let mut buf = label_to_wchar("old label").unwrap();
    for (i, u) in "new".encode_utf16().enumerate() {
        buf[i] = u;
    }
    buf[3] = 0;
    assert_eq!(decode_label(&buf).unwrap(), "new");
}

#[test]
fn decode_label_yields_the_exact_prefix_without_terminator() {
    let mut buf = vec![0u16; LABEL_LEN];
    buf[0] = 104;
    buf[1] = 105;
    assert_eq!(decode_label(&buf).unwrap(), "hi");
    let empty = vec![0u16; LABEL_LEN];
    assert_eq!(decode_label(&empty).unwrap(), "");
}

#[test]
fn decode_label_rebuilds_surrogate_pairs() {
    let mut buf = vec![0u16; LABEL_LEN];
    buf[0] = 0xD83D;
    buf[1] = 0xDE00;
    assert_eq!(decode_label(&buf).unwrap(), "\u{1F600}");
}

#[test]
fn decode_label_without_terminator_fails() {
    let buf = vec![65u16; LABEL_LEN];
    assert!(matches!(decode_label(&buf), Err(Error::NullCharacter)));
}

#[test]
fn decode_label_with_malformed_utf16_fails_distinctly() {
    let mut buf = vec![0u16; LABEL_LEN];
    buf[0] = 0xD800;
    assert!(matches!(decode_label(&buf), Err(Error::Utf16(_))));
}
