use image::{codecs::jpeg::JpegEncoder, ExtendedColorType, ImageEncoder, Rgb, RgbImage};
use photo_frame::cache::{cached_or_decode, fingerprint, PhotoCache};
use photo_frame::caption::Caption;
use photo_frame::classic::{caption_draws, compose, Anchor, Background, FontWeight, FrameOptions as ClassicOptions};
use photo_frame::decode::{from_bytes, DecodeError};
use photo_frame::encode::{jpeg, JpegOptions};
use photo_frame::geometry::MetaLayout;
use photo_frame::meta::Meta;
use photo_frame::options::FrameOptions;
use photo_frame::orientation::Orientation;
use photo_frame::photograph::{Photograph, Provenance};
use photo_frame::pixels::Pixels;
use photo_frame::render::prepare;
use photo_frame::spec::FrameTheme;

fn solid(w: u32, h: u32, rgba: [u8; 4]) -> Pixels {
    let data: Vec<u8> = (0..w * h).flat_map(|_| rgba).collect();
    Pixels::from_rgba8(w, h, data).unwrap()
}

fn small_jpeg() -> Vec<u8> {
    let img = RgbImage::from_pixel(6, 4, Rgb([120, 30, 200]));
    let mut out = Vec::new();
    JpegEncoder::new_with_quality(&mut out, 90).write_image(&img, 6, 4, ExtendedColorType::Rgb8).unwrap();
    out
}

fn empty_caption() -> Caption {
    Caption { top_left: None, top_right: None, bottom_left: None, bottom_right: None }
}

#[test]
fn jpeg_encodes_every_valid_small_image() {
    let bytes = jpeg(&solid(3, 2, [1, 2, 3, 255]), &JpegOptions { quality: 80 }).expect("encodes");
    let back = image::load_from_memory(&bytes).unwrap();
    assert_eq!((back.width(), back.height()), (3, 2));
}

#[test]
fn jpeg_from_zune_reports_the_header_size() {
    let photo = from_bytes(&small_jpeg()).expect("decodes");
    assert_eq!((photo.pixels.width(), photo.pixels.height()), (6, 4));
}

#[test]
fn truncated_jpeg_is_refused_by_zune() {
    let bytes = small_jpeg();
    assert!(matches!(from_bytes(&bytes[..20]), Err(DecodeError::JpegDecode(_))));
}

#[test]
fn cache_decodes_once_then_serves_the_stored_photo() {
    let bytes = small_jpeg();
    let mut cache = PhotoCache::new();
    let first = cached_or_decode(&mut cache, &bytes).expect("decodes");
    let stored = cache.lookup(fingerprint(&bytes)).expect("stored under the fingerprint");
    assert_eq!(stored.pixels.as_rgba8(), first.pixels.as_rgba8());
    let second = cached_or_decode(&mut cache, &bytes).expect("hit");
    assert_eq!(second.pixels.as_rgba8(), first.pixels.as_rgba8());
}

#[test]
fn cache_keeps_its_entry_when_decoding_fails() {
    let bytes = small_jpeg();
    let mut cache = PhotoCache::new();
    cached_or_decode(&mut cache, &bytes).expect("decodes");
    assert!(cached_or_decode(&mut cache, &[]).is_err());
    assert!(cache.lookup(fingerprint(&bytes)).is_some());
}

#[test]
fn compose_paints_the_frame_with_the_background_and_lays_the_photo_at_the_origin() {
    let opts = ClassicOptions { background: Background::from_rgb(9, 8, 7), ..ClassicOptions::default() };
    let plan = compose(solid(40, 30, [200, 100, 50, 255]), Orientation::Normal, None, &opts).expect("fits");
    let (cw, _) = plan.layout.canvas_size;
    let (ox, oy) = plan.layout.photo_origin;
    assert_eq!(&plan.canvas[0..3], &[9, 8, 7]);
    let at = ((oy * cw + ox) * 3) as usize;
    assert_eq!(&plan.canvas[at..at + 3], &[200, 100, 50]);
}

#[test]
fn prepare_paints_the_theme_colour_after_a_downscale() {
    let photo = Photograph::new(solid(400, 300, [10, 200, 10, 255]), Provenance::default());
    let opts = FrameOptions { theme: FrameTheme::Ink, max_long_edge: Some(100), ..FrameOptions::default() };
    let plan = prepare(&photo, &opts, empty_caption()).expect("fits");
    assert_eq!(plan.composition.photo_size, (100, 75));
    assert_eq!(&plan.canvas.as_rgba8()[0..4], &[0, 0, 0, 255]);
}

#[test]
fn caption_draws_come_in_order_anchored_on_both_edges() {
    let ml = MetaLayout { pad_x: 10, top_line_y: 100, bottom_line_y: 120, font_height: 12 };
    let meta = Meta {
        camera: Some("X100V".into()),
        lens: Some("23mm".into()),
        iso: Some("ISO 200".into()),
        date: Some("2024-01-02".into()),
        ..Meta::default()
    };
    let draws = caption_draws(&ml, &meta, 300);
    let seen: Vec<(&str, Anchor, u32, u32, FontWeight)> =
        draws.iter().map(|d| (d.text.as_str(), d.anchor, d.x, d.top_y, d.weight)).collect();
    assert_eq!(
        seen,
        vec![
            ("X100V", Anchor::Left, 10, 100, FontWeight::Medium),
            ("23mm", Anchor::Right, 290, 100, FontWeight::Medium),
            ("ISO 200", Anchor::Left, 10, 120, FontWeight::Regular),
            ("2024-01-02", Anchor::Right, 290, 120, FontWeight::Regular),
        ]
    );
}

#[test]
fn caption_draws_skip_unknown_facts() {
    let ml = MetaLayout { pad_x: 10, top_line_y: 100, bottom_line_y: 120, font_height: 12 };
    let meta = Meta { lens: Some("50mm".into()), ..Meta::default() };
    let draws = caption_draws(&ml, &meta, 5);
    assert_eq!(draws.len(), 1);
    assert_eq!((draws[0].anchor, draws[0].x), (Anchor::Right, 0));
}

#[test]
fn both_jpeg_encoders_frame_their_output_with_soi_and_eoi() {
    let a = jpeg(&solid(5, 3, [9, 9, 9, 255]), &JpegOptions { quality: 90 }).unwrap();
    let b = photo_frame::classic::jpeg(&[7u8; 5 * 3 * 3], 5, 3, 90).unwrap();
    for bytes in [a, b] {
        assert_eq!(&bytes[..2], &[0xFF, 0xD8]);
        assert_eq!(&bytes[bytes.len() - 2..], &[0xFF, 0xD9]);
    }
}

#[test]
fn classic_downscale_takes_the_resampler_size() {
    let out = photo_frame::classic::downscale(solid(400, 300, [1, 2, 3, 255]), Some(100));
    assert_eq!((out.width(), out.height()), (100, 75));
}

#[test]
fn noise_fixture_decodes_to_its_size() {
    let f = photo_frame::fixtures::synth_noise_jpeg("tiny", 16, 8, 85);
    let img = image::load_from_memory(&f.bytes).unwrap();
    assert_eq!((img.width(), img.height()), (16, 8));
    assert_eq!(&f.bytes[..2], &[0xFF, 0xD8]);
}

fn png_of(w: u32, h: u32) -> (Vec<u8>, Vec<u8>) {
    let rgba: Vec<u8> = (0..w * h * 4).map(|i| (i * 7 % 251) as u8).collect();
    let img = image::RgbaImage::from_raw(w, h, rgba.clone()).unwrap();
    let mut out = std::io::Cursor::new(Vec::new());
    img.write_to(&mut out, image::ImageFormat::Png).unwrap();
    (out.into_inner(), rgba)
}

#[test]
fn png_decodes_to_exactly_its_samples() {
    let (bytes, rgba) = png_of(5, 3);
    let photo = from_bytes(&bytes).expect("decodes");
    assert_eq!(photo.pixels.as_rgba8(), rgba.as_slice());
    let (pixels, _) = photo_frame::classic::decode(&bytes).expect("decodes");
    assert_eq!(pixels.as_rgba8(), rgba.as_slice());
}

#[test]
fn cache_miss_gives_what_a_fresh_decode_gives() {
    let bytes = small_jpeg();
    let mut cache = PhotoCache::new();
    let cached = cached_or_decode(&mut cache, &bytes).expect("decodes");
    let fresh = from_bytes(&bytes).expect("decodes");
    assert_eq!(cached.pixels.as_rgba8(), fresh.pixels.as_rgba8());
    assert_eq!((cached.pixels.width(), cached.pixels.height()), (fresh.pixels.width(), fresh.pixels.height()));
}
