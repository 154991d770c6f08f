use photo_frame::caption::{format_date, strip_corporation};
use photo_frame::geometry::{bottom_for, line_gap_for, pad_top_for, side_for, MIN_SIDE_PX};
use photo_frame::options::FrameOptions;
use photo_frame::provenance::DateTime;
use photo_frame::spec::{CaptionLayout, FrameStyle, FrameTheme, MetaPolicy};

const REF_H: u32 = 2000;
const REF_SIDE: u32 = 111;
const REF_BOTTOM: u32 = 291;
const REF_PAD_TOP: u32 = 69;
const REF_LINE_GAP: u32 = 26;

#[test]
fn date_uses_iso_dashes() {
    let dt = DateTime { year: 2026, month: 5, day: 24, ..Default::default() };
    assert_eq!(format_date(dt), "2026-05-24");
}

#[test]
fn date_zero_pads_single_digit_components() {
    let dt = DateTime { year: 2026, month: 3, day: 7, ..Default::default() };
    assert_eq!(format_date(dt), "2026-03-07");
}

#[test]
fn format_strip_corporation_handles_nikon_form() {
    assert_eq!(strip_corporation("NIKON CORPORATION"), "NIKON");
    assert_eq!(strip_corporation("NIKON Z 8"), "NIKON Z 8");
    assert_eq!(strip_corporation("SONY"), "SONY");
}

#[test]
fn side_locked_table_value() {
    assert_eq!(side_for(REF_H), REF_SIDE);
}

#[test]
fn bottom_locked_table_value() {
    assert_eq!(bottom_for(REF_SIDE), REF_BOTTOM);
}

#[test]
fn pad_top_is_side_over_phi() {
    assert_eq!(pad_top_for(REF_SIDE), REF_PAD_TOP);
}

#[test]
fn line_gap_is_side_over_phi_cubed() {
    assert_eq!(line_gap_for(REF_SIDE), REF_LINE_GAP);
}

#[test]
fn min_side_kicks_in_for_tiny_images() {
    assert_eq!(side_for(40), MIN_SIDE_PX);
}

#[test]
fn default_options_are_standard_paper_edges_auto_meta_no_downscale() {
    let opts = FrameOptions::default();
    assert_eq!(opts.frame_style, FrameStyle::Standard);
    assert_eq!(opts.theme, FrameTheme::Paper);
    assert_eq!(opts.layout, CaptionLayout::Edges);
    assert_eq!(opts.meta_policy, MetaPolicy::Auto);
    assert!(opts.max_long_edge.is_none());
}
