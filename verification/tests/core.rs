use photo_frame::caption::strip_corporation;
use photo_frame::classic::{ErrorCategory, FrameError};
use photo_frame::meta::{format_date, Meta};
use photo_frame::orientation::Orientation;

#[test]
fn category_to_exit_code_is_stable() {
    assert_eq!(ErrorCategory::Input.exit_code(), 2);
    assert_eq!(ErrorCategory::Decode.exit_code(), 3);
    assert_eq!(ErrorCategory::Encode.exit_code(), 4);
    assert_eq!(ErrorCategory::Layout.exit_code(), 5);
}

#[test]
fn date_drops_time_and_uses_dashes() {
    assert_eq!(format_date("2026:05:24 13:24:55").as_deref(), Some("2026-05-24"));
}

#[test]
fn date_handles_missing_time() {
    assert_eq!(format_date("2026:05:24").as_deref(), Some("2026-05-24"));
}

#[test]
fn exif_strip_corporation_handles_nikon_form() {
    assert_eq!(strip_corporation("NIKON CORPORATION"), "NIKON");
    assert_eq!(strip_corporation("NIKON Z 8"), "NIKON Z 8");
    assert_eq!(strip_corporation("SONY"), "SONY");
}

#[test]
fn exposure_line_joins_present_facts_only() {
    let meta = Meta {
        focal_length: Some("50mm".into()),
        shutter: Some("1/250s".into()),
        ..Meta::default()
    };
    assert_eq!(meta.exposure_line().as_deref(), Some("50mm  ·  1/250s"));
}

#[test]
fn exposure_line_empty_when_nothing_known() {
    assert_eq!(Meta::default().exposure_line(), None);
}

#[test]
fn meta_is_empty_when_default() {
    assert!(Meta::default().is_empty());
}

#[test]
fn from_raw_accepts_all_eight_known_values() {
    for raw in 1_u16..=8 {
        let _ = Orientation::from_raw(raw);
    }
}

#[test]
fn from_raw_defaults_unknown_to_normal() {
    assert_eq!(Orientation::from_raw(0), Orientation::Normal);
    assert_eq!(Orientation::from_raw(9), Orientation::Normal);
    assert_eq!(Orientation::from_raw(42), Orientation::Normal);
}

#[test]
fn unknown_orientation_value_emits_warning() {
    let _ = Orientation::from_raw(99);
    assert!(Orientation::is_nonconformant(99));
}

#[test]
fn zero_orientation_value_is_silent() {
    let _ = Orientation::from_raw(0);
    assert!(!Orientation::is_nonconformant(0));
}

#[test]
fn valid_orientation_value_is_silent() {
    for raw in 1_u16..=8 {
        let _ = Orientation::from_raw(raw);
        assert!(!Orientation::is_nonconformant(raw));
    }
}

#[test]
fn empty_input_renders_with_byte_count() {
    let err = FrameError::EmptyInput;
    assert_eq!(err.message(), "input is empty (0 bytes)");
    assert_eq!(err.category(), ErrorCategory::Input);
}

#[test]
fn quality_renders_with_bounds() {
    let err = FrameError::QualityOutOfRange { got: 150, valid: 1..=100 };
    assert_eq!(err.message(), "JPEG quality 150 is out of range; must be within 1 ..= 100");
    assert_eq!(err.category(), ErrorCategory::Input);
}

#[test]
fn zero_dimension_includes_both_axes() {
    let err = FrameError::ZeroDimension { width: 0, height: 10 };
    assert_eq!(err.message(), "image dimensions are degenerate after decode: 0 x 10");
    assert_eq!(err.category(), ErrorCategory::Layout);
}
