use photo_frame::category::Category;
use photo_frame::pixels::{PixelError, Pixels};
use photo_frame::preset::QualityPreset;
use photo_frame::primitives::{Dimensions, ExifString, IsoSensitivity, JpegQuality, LongEdge, Rgba8};
use photo_frame::spec::{
    CaptionLayout, FrameStyle, FrameTheme, MetaPolicy, PipelineSpec, Stage, StageEvent,
};
use std::str::FromStr;

#[test]
fn exit_codes_cover_every_variant() {
    for cat in [
        Category::Input,
        Category::Decode,
        Category::Render,
        Category::Encode,
        Category::Internal,
    ] {
        assert!(cat.exit_code() > 0, "category {cat:?} has invalid exit code");
    }
}

#[test]
fn labels_are_lowercase_words() {
    for cat in [
        Category::Input,
        Category::Decode,
        Category::Render,
        Category::Encode,
        Category::Internal,
    ] {
        let label = cat.label();
        assert_eq!(label, label.to_lowercase(), "label must be lowercase: {label}");
        assert!(!label.is_empty(), "label must be non-empty");
    }
}

#[test]
fn input_exits_with_2_by_convention() {
    assert_eq!(Category::Input.exit_code(), 2);
}

#[test]
fn rgba8_roundtrip_through_constructor() {
    let data = vec![0_u8; 2 * 3 * 4];
    let p = Pixels::from_rgba8(2, 3, data.clone()).unwrap();
    assert_eq!(p.dimensions(), (2, 3));
    assert_eq!(p.as_rgba8(), &data[..]);
}

#[test]
fn rgb8_constructor_pads_alpha() {
    let rgb = vec![10, 20, 30, 40, 50, 60];
    let p = Pixels::from_rgb8(2, 1, &rgb).unwrap();
    assert_eq!(p.as_rgba8(), &[10, 20, 30, 0xFF, 40, 50, 60, 0xFF]);
}

#[test]
fn zero_dimension_rejected() {
    assert!(matches!(
        Pixels::from_rgba8(0, 1, vec![]),
        Err(PixelError::ZeroDimension { .. })
    ));
    assert!(matches!(
        Pixels::from_rgb8(1, 0, &[]),
        Err(PixelError::ZeroDimension { .. })
    ));
}

#[test]
fn rgba8_size_mismatch_rejected() {
    let too_small = vec![0_u8; 5];
    assert!(matches!(
        Pixels::from_rgba8(2, 2, too_small),
        Err(PixelError::DataSizeMismatch { expected: 16, got: 5, .. })
    ));
}

#[test]
fn rgb8_size_mismatch_rejected() {
    let too_big = vec![0_u8; 100];
    assert!(matches!(
        Pixels::from_rgb8(2, 2, &too_big),
        Err(PixelError::DataSizeMismatch { expected: 12, got: 100, .. })
    ));
}

#[test]
fn into_parts_round_trip() {
    let data = vec![0xAB_u8; 4];
    let p = Pixels::from_rgba8(1, 1, data.clone()).unwrap();
    let (w, h, out) = p.into_parts();
    assert_eq!((w, h), (1, 1));
    assert_eq!(out, data);
}

#[test]
fn preset_table_is_stable() {
    assert_eq!(QualityPreset::Sns.jpeg_quality(), 78);
    assert_eq!(QualityPreset::Sns.max_long_edge(), Some(2048));
    assert_eq!(QualityPreset::Standard.jpeg_quality(), 92);
    assert_eq!(QualityPreset::Standard.max_long_edge(), None);
    assert_eq!(QualityPreset::Maximum.jpeg_quality(), 98);
    assert_eq!(QualityPreset::Maximum.max_long_edge(), None);
}

#[test]
fn preset_default_is_standard() {
    assert_eq!(QualityPreset::default(), QualityPreset::Standard);
}

#[test]
fn jpeg_quality_accepts_canonical_range() {
    assert_eq!(JpegQuality::new(1).map(JpegQuality::get), Some(1));
    assert_eq!(JpegQuality::new(50).map(JpegQuality::get), Some(50));
    assert_eq!(JpegQuality::new(100).map(JpegQuality::get), Some(100));
}

#[test]
fn jpeg_quality_rejects_out_of_range() {
    assert!(JpegQuality::new(0).is_none());
    assert!(JpegQuality::new(101).is_none());
    assert!(JpegQuality::new(255).is_none());
}

#[test]
fn long_edge_rejects_zero() {
    assert!(LongEdge::new(0).is_none());
    assert_eq!(LongEdge::new(2048).map(LongEdge::get), Some(2048));
}

#[test]
fn exif_string_rejects_empty_and_whitespace() {
    assert!(ExifString::new(String::new()).is_none());
    assert!(ExifString::new("   ".into()).is_none());
    assert_eq!(
        ExifString::new("NIKON Z 5".into()).as_ref().map(ExifString::as_str),
        Some("NIKON Z 5"),
    );
}

#[test]
fn exif_string_keeps_internal_whitespace_verbatim() {
    let raw = "  NIKON   Z 5  ".to_owned();
    let s = ExifString::new(raw.clone()).expect("non-empty after trim");
    assert_eq!(s.as_str(), raw);
}

#[test]
fn iso_sensitivity_rejects_zero() {
    assert!(IsoSensitivity::new(0).is_none());
    assert_eq!(IsoSensitivity::new(6400).map(IsoSensitivity::get), Some(6400));
}

#[test]
fn dimensions_rejects_zero_axis() {
    assert!(Dimensions::new(0, 100).is_none());
    assert!(Dimensions::new(100, 0).is_none());
    assert!(Dimensions::new(0, 0).is_none());
    let d = Dimensions::new(1920, 1080).expect("both axes non-zero");
    assert_eq!(d.width(), 1920);
    assert_eq!(d.height(), 1080);
}

#[test]
fn dimensions_rgba8_byte_count_matches_geometry() {
    let d = Dimensions::new(4, 3).expect("non-zero");
    assert_eq!(d.rgba8_bytes(), 4 * 3 * 4);
}

#[test]
fn rgba8_to_array_matches_construction() {
    let c = Rgba8::new(10, 20, 30, 40);
    assert_eq!(c.to_array(), [10, 20, 30, 40]);
}

#[test]
fn rgba8_predefined_palette_matches_pure_values() {
    assert_eq!(Rgba8::white().to_array(), [255, 255, 255, 255]);
    assert_eq!(Rgba8::black().to_array(), [0, 0, 0, 255]);
}

#[test]
fn labels_match_canonical_kebab_case() {
    assert_eq!(FrameStyle::Standard.label(), "standard");
    assert_eq!(FrameStyle::Polaroid.label(), "polaroid");
}

#[test]
fn all_lists_every_variant_in_declaration_order() {
    assert_eq!(FrameStyle::all(), vec![FrameStyle::Standard, FrameStyle::Polaroid]);
}

#[test]
fn frame_style_default_is_standard() {
    assert_eq!(FrameStyle::default(), FrameStyle::Standard);
}

#[test]
fn from_str_accepts_canonical_labels() {
    assert_eq!(FrameStyle::from_str("standard").unwrap(), FrameStyle::Standard);
    assert_eq!(FrameStyle::from_str("polaroid").unwrap(), FrameStyle::Polaroid);
}

#[test]
fn frame_style_from_str_rejects_unknown_labels_with_actionable_message() {
    let err = FrameStyle::from_str("baroque").unwrap_err();
    assert!(err.contains("baroque"));
    assert!(err.contains("standard"));
    assert!(err.contains("polaroid"));
}

#[test]
fn layout_labels_match_canonical_kebab_case() {
    assert_eq!(CaptionLayout::Edges.label(), "edges");
    assert_eq!(CaptionLayout::Centered.label(), "centered");
}

#[test]
fn layout_all_lists_every_variant_in_declaration_order() {
    assert_eq!(CaptionLayout::all(), vec![CaptionLayout::Edges, CaptionLayout::Centered]);
}

#[test]
fn layout_from_str_accepts_canonical_labels() {
    assert_eq!(CaptionLayout::from_str("edges").unwrap(), CaptionLayout::Edges);
    assert_eq!(CaptionLayout::from_str("centered").unwrap(), CaptionLayout::Centered);
}

#[test]
fn layout_from_str_rejects_unknown_labels_with_actionable_message() {
    let err = CaptionLayout::from_str("polaroid").unwrap_err();
    assert!(err.contains("polaroid"));
    assert!(err.contains("edges"));
    assert!(err.contains("centered"));
}

#[test]
fn sns_preset_pins_jpeg_quality_and_long_edge() {
    let spec = PipelineSpec::sns();
    assert_eq!(spec.jpeg_quality.get(), 78);
    assert_eq!(spec.max_long_edge.map(LongEdge::get), Some(2048));
}

#[test]
fn standard_preset_keeps_full_resolution() {
    let spec = PipelineSpec::standard();
    assert_eq!(spec.jpeg_quality.get(), 92);
    assert!(spec.max_long_edge.is_none());
}

#[test]
fn maximum_preset_keeps_full_resolution() {
    let spec = PipelineSpec::maximum();
    assert_eq!(spec.jpeg_quality.get(), 98);
    assert!(spec.max_long_edge.is_none());
}

#[test]
fn default_resolves_to_standard() {
    assert_eq!(PipelineSpec::default(), PipelineSpec::standard());
}

#[test]
fn with_quality_overrides_existing_value() {
    let spec = PipelineSpec::sns().with_jpeg_quality(JpegQuality::new(85).unwrap());
    assert_eq!(spec.jpeg_quality.get(), 85);
    assert_eq!(spec.max_long_edge.map(LongEdge::get), Some(2048));
}

#[test]
fn with_max_long_edge_clears_with_none() {
    let spec = PipelineSpec::sns().with_max_long_edge(None);
    assert!(spec.max_long_edge.is_none());
    assert_eq!(spec.jpeg_quality.get(), 78);
}

#[test]
fn from_str_resolves_each_named_preset() {
    assert_eq!(PipelineSpec::from_str("sns").unwrap(), PipelineSpec::sns());
    assert_eq!(PipelineSpec::from_str("standard").unwrap(), PipelineSpec::standard());
    assert_eq!(PipelineSpec::from_str("maximum").unwrap(), PipelineSpec::maximum());
}

#[test]
fn pipeline_from_str_rejects_unknown_labels_with_actionable_message() {
    let err = PipelineSpec::from_str("fancy").unwrap_err();
    assert!(err.contains("fancy"));
    assert!(err.contains("sns"));
    assert!(err.contains("standard"));
    assert!(err.contains("maximum"));
}

#[test]
fn presets_table_covers_every_const() {
    let labels: Vec<&str> = PipelineSpec::presets().iter().map(|(l, _)| *l).collect();
    assert_eq!(labels, vec!["sns", "standard", "maximum"]);
    for (_, spec) in PipelineSpec::presets() {
        assert!(spec.jpeg_quality.get() >= 1);
    }
}

#[test]
fn percent_complete_is_monotone_per_stage() {
    assert!(Stage::Decode.percent_complete() < Stage::Frame.percent_complete());
    assert!(Stage::Frame.percent_complete() < Stage::Encode.percent_complete());
    assert_eq!(Stage::Encode.percent_complete(), 100);
}

#[test]
fn new_derives_percent_from_stage() {
    let e = StageEvent::new(Stage::Frame, 2, 10, "photo.jpg".into());
    assert_eq!(e.percent, Stage::Frame.percent_complete());
    assert_eq!(e.index, 2);
    assert_eq!(e.total, 10);
    assert_eq!(e.key, "photo.jpg");
}

#[test]
fn paper_theme_is_pure_white_on_pure_black() {
    assert_eq!(FrameTheme::Paper.background(), Rgba8::white());
    assert_eq!(FrameTheme::Paper.ink(), Rgba8::black());
}

#[test]
fn ink_theme_is_pure_black_on_pure_white() {
    assert_eq!(FrameTheme::Ink.background(), Rgba8::black());
    assert_eq!(FrameTheme::Ink.ink(), Rgba8::white());
}

#[test]
fn theme_labels_match_canonical_kebab_case() {
    assert_eq!(FrameTheme::Paper.label(), "paper");
    assert_eq!(FrameTheme::Ink.label(), "ink");
}

#[test]
fn theme_all_lists_every_variant_in_declaration_order() {
    assert_eq!(FrameTheme::all(), vec![FrameTheme::Paper, FrameTheme::Ink]);
}

#[test]
fn meta_policy_labels_match_canonical_kebab_case() {
    assert_eq!(MetaPolicy::Auto.label(), "auto");
    assert_eq!(MetaPolicy::Never.label(), "never");
}

#[test]
fn theme_from_str_accepts_canonical_labels() {
    assert_eq!(FrameTheme::from_str("paper").unwrap(), FrameTheme::Paper);
    assert_eq!(FrameTheme::from_str("ink").unwrap(), FrameTheme::Ink);
}

#[test]
fn theme_from_str_rejects_unknown_labels_with_actionable_message() {
    let err = FrameTheme::from_str("midnight").unwrap_err();
    assert!(err.contains("midnight"));
    assert!(err.contains("paper"));
    assert!(err.contains("ink"));
}

#[test]
fn meta_policy_from_str_accepts_canonical_labels() {
    assert_eq!(MetaPolicy::from_str("auto").unwrap(), MetaPolicy::Auto);
    assert_eq!(MetaPolicy::from_str("never").unwrap(), MetaPolicy::Never);
}
