use image::{codecs::jpeg::JpegEncoder, ExtendedColorType, ImageEncoder, Rgb, RgbImage};
use photo_frame::batch::{batch_exit_code, exit_code_for, first_error_category, resolve_jobs};
use photo_frame::cache::{fingerprint, PhotoCache};
use photo_frame::category::Category;
use photo_frame::classic::{
    check_input, compose, decode, downscale, jpeg, render_canvas, Background, ErrorCategory,
    FrameError, FrameOptions,
};
use photo_frame::exif::{read_raw, ExifReadOutcome};
use photo_frame::exposure::{ApertureSource, FocalSource, ShutterSource};
use photo_frame::geometry;
use photo_frame::meta::{extract, orientation_of, Meta};
use photo_frame::orientation::{normalize, Orientation};
use photo_frame::photograph::{Photograph, Provenance};
use photo_frame::pixels::Pixels;

fn coded() -> Pixels {
    let mut buf = Vec::new();
    for y in 0..2u32 {
        for x in 0..4u32 {
            buf.extend_from_slice(&[(x * 60) as u8, (y * 120) as u8, 0, 255]);
        }
    }
    Pixels::from_rgba8(4, 2, buf).expect("pixels")
}

fn pixel(p: &Pixels, x: u32, y: u32) -> [u8; 4] {
    let i = ((y * p.width() + x) * 4) as usize;
    let b = p.as_rgba8();
    [b[i], b[i + 1], b[i + 2], b[i + 3]]
}

fn one_pixel_jpeg() -> Vec<u8> {
    let img = RgbImage::from_pixel(1, 1, Rgb([0, 0, 0]));
    let mut out = Vec::new();
    JpegEncoder::new_with_quality(&mut out, 90)
        .write_image(img.as_raw(), 1, 1, ExtendedColorType::Rgb8)
        .expect("encoding a 1x1 black JPEG cannot fail");
    out
}

fn jpeg_with_orientation(w: u32, h: u32, orientation: u16) -> Vec<u8> {
    let solid: RgbImage = RgbImage::from_pixel(w, h, Rgb([200, 60, 60]));
    let mut jpeg = Vec::new();
    JpegEncoder::new_with_quality(&mut jpeg, 90)
        .write_image(&solid, w, h, ExtendedColorType::Rgb8)
        .expect("jpeg encode");
    // Big-endian TIFF with one IFD0 entry: Orientation (SHORT).
    let mut exif = b"Exif\x00\x00MM\x00\x2A\x00\x00\x00\x08\x00\x01".to_vec();
    exif.extend_from_slice(&[0x01, 0x12, 0x00, 0x03, 0x00, 0x00, 0x00, 0x01]);
    exif.extend_from_slice(&orientation.to_be_bytes());
    exif.extend_from_slice(&[0, 0, 0, 0, 0, 0]);
    let mut out = Vec::new();
    out.extend_from_slice(&jpeg[..2]);
    out.push(0xFF);
    out.push(0xE1);
    out.extend_from_slice(&u16::try_from(exif.len() + 2).unwrap().to_be_bytes());
    out.extend_from_slice(&exif);
    out.extend_from_slice(&jpeg[2..]);
    out
}

/// The pipeline without caption type: decode, turn upright, compose,
/// encode; returns the framed JPEG's size as read back.
fn frame_without_text(bytes: &[u8], opts: &FrameOptions) -> Result<(u32, u32), FrameError> {
    check_input(bytes)?;
    let (pixels, exif) = decode(bytes)?;
    let o = orientation_of(exif.as_ref());
    let plan = compose(pixels, o, None, opts).expect("canvas fits");
    let (w, h) = plan.layout.canvas_size;
    let out = jpeg(&plan.canvas, w, h, opts.jpeg_quality)?;
    let img = image::load_from_memory(&out).expect("framed output decodes");
    Ok((img.width(), img.height()))
}

// ── orientation of the classic pipeline ─────────────────────────────────

#[test]
fn normal_is_identity() {
    let src = coded();
    let out = normalize(src.clone(), Orientation::Normal);
    assert_eq!(pixel(&src, 0, 0), pixel(&out, 0, 0));
    assert_eq!(pixel(&src, 3, 1), pixel(&out, 3, 1));
}

#[test]
fn fliph_mirrors_horizontally() {
    let src = coded();
    let out = normalize(src.clone(), Orientation::FlipH);
    assert_eq!(pixel(&src, 0, 0), pixel(&out, 3, 0));
    assert_eq!(pixel(&src, 3, 1), pixel(&out, 0, 1));
}

#[test]
fn rotate180_swaps_opposite_corners() {
    let src = coded();
    let out = normalize(src.clone(), Orientation::Rotate180);
    assert_eq!(pixel(&src, 0, 0), pixel(&out, 3, 1));
    assert_eq!(pixel(&src, 3, 1), pixel(&out, 0, 0));
}

#[test]
fn flipv_mirrors_vertically() {
    let src = coded();
    let out = normalize(src.clone(), Orientation::FlipV);
    assert_eq!(pixel(&src, 0, 0), pixel(&out, 0, 1));
    assert_eq!(pixel(&src, 3, 1), pixel(&out, 3, 0));
}

#[test]
fn rotate90cw_changes_dimensions_and_corners() {
    let src = coded();
    let out = normalize(src.clone(), Orientation::Rotate90Cw);
    assert_eq!(out.width(), 2);
    assert_eq!(out.height(), 4);
    assert_eq!(pixel(&src, 0, 0), pixel(&out, 1, 0));
    assert_eq!(pixel(&src, 3, 1), pixel(&out, 0, 3));
}

#[test]
fn rotate270cw_changes_dimensions_and_corners() {
    let src = coded();
    let out = normalize(src.clone(), Orientation::Rotate270Cw);
    assert_eq!(out.width(), 2);
    assert_eq!(out.height(), 4);
    assert_eq!(pixel(&src, 0, 0), pixel(&out, 0, 3));
    assert_eq!(pixel(&src, 3, 1), pixel(&out, 1, 0));
}

#[test]
fn transpose_and_transverse_change_dimensions() {
    let src = coded();
    let t = normalize(src.clone(), Orientation::Transpose);
    let tv = normalize(src, Orientation::Transverse);
    assert_eq!((t.width(), t.height()), (2, 4));
    assert_eq!((tv.width(), tv.height()), (2, 4));
}

#[test]
fn normal_orientation_does_not_swap_axes() {
    let input = jpeg_with_orientation(24, 16, 1);
    assert_eq!(frame_without_text(&input, &FrameOptions::default()).unwrap(), (40, 32));
}

#[test]
fn classic_pipeline_turns_portrait_source_upright() {
    let input = jpeg_with_orientation(16, 24, 6);
    assert_eq!(frame_without_text(&input, &FrameOptions::default()).unwrap(), (40, 32));
    let input = jpeg_with_orientation(16, 24, 8);
    assert_eq!(frame_without_text(&input, &FrameOptions::default()).unwrap(), (40, 32));
}

// ── pipeline errors ──────────────────────────────────────────────────────

#[test]
fn empty_input_is_rejected_with_named_variant() {
    let err = check_input(&[]).expect_err("must reject empty input");
    assert!(matches!(err, FrameError::EmptyInput));
    assert_eq!(err.category(), ErrorCategory::Input);
    assert_eq!(err.message(), "input is empty (0 bytes)");
}

#[test]
fn quality_out_of_range_is_caught_by_the_encoder() {
    let opts = FrameOptions { jpeg_quality: 0, ..FrameOptions::default() };
    let err = frame_without_text(&one_pixel_jpeg(), &opts).expect_err("quality 0 must be rejected");
    match err {
        FrameError::QualityOutOfRange { got, ref valid } => {
            assert_eq!(got, 0);
            assert_eq!(*valid.start(), 1);
            assert_eq!(*valid.end(), 100);
            assert_eq!(err.category(), ErrorCategory::Input);
        },
        other => panic!("unexpected variant: {other:?}"),
    }
}

#[test]
fn quality_above_one_hundred_is_also_caught() {
    let opts = FrameOptions { jpeg_quality: 101, ..FrameOptions::default() };
    let err = frame_without_text(&one_pixel_jpeg(), &opts).expect_err("quality 101 must be rejected");
    assert!(matches!(err, FrameError::QualityOutOfRange { got: 101, .. }));
}

#[test]
fn unrecognised_bytes_surface_as_decode_error_with_source() {
    let garbage = vec![0xDE, 0xAD, 0xBE, 0xEF, 0xCA, 0xFE, 0xBA, 0xBE];
    let err = frame_without_text(&garbage, &FrameOptions::default()).expect_err("decode must fail");
    assert!(matches!(err, FrameError::Decode(_)), "got {err:?}");
    assert_eq!(err.category(), ErrorCategory::Decode);
}

#[test]
fn category_round_trip_covers_every_known_variant() {
    let cases = [
        (FrameError::EmptyInput, ErrorCategory::Input),
        (FrameError::QualityOutOfRange { got: 0, valid: 1..=100 }, ErrorCategory::Input),
        (FrameError::ZeroDimension { width: 0, height: 0 }, ErrorCategory::Layout),
    ];
    for (err, expected) in cases {
        assert_eq!(err.category(), expected, "{err:?}");
    }
}

// ── caption facts and their fallbacks ────────────────────────────────────

fn build_tiff_exif_ifd(entries: &[(u16, u16, u32, Vec<u8>)], ifd0: &[(u16, u16, u32, Vec<u8>)]) -> Vec<u8> {
    // Minimal big-endian TIFF: IFD0 (with an Exif pointer when needed), then
    // the Exif IFD, then out-of-line values.
    let has_exif = !entries.is_empty();
    let n0 = ifd0.len() + usize::from(has_exif);
    let ifd0_size = 2 + 12 * n0 + 4;
    let exif_off = 8 + ifd0_size;
    let exif_size = if has_exif { 2 + 12 * entries.len() + 4 } else { 0 };
    let mut ext_cursor = exif_off + exif_size;
    let mut ext = Vec::new();
    let mut render = |list: &[(u16, u16, u32, Vec<u8>)], out: &mut Vec<(u16, u16, u32, [u8; 4])>| {
        for (tag, ty, count, data) in list {
            let mut v = [0u8; 4];
            if data.len() <= 4 {
                v[..data.len()].copy_from_slice(data);
            } else {
                v = (ext_cursor as u32).to_be_bytes();
                ext_cursor += data.len();
                ext.extend_from_slice(data);
            }
            out.push((*tag, *ty, *count, v));
        }
    };
    let mut r0 = Vec::new();
    render(ifd0, &mut r0);
    let mut r1 = Vec::new();
    render(entries, &mut r1);
    if has_exif {
        r0.push((0x8769, 4, 1, (exif_off as u32).to_be_bytes()));
    }
    r0.sort_by_key(|e| e.0);
    r1.sort_by_key(|e| e.0);
    let mut out = b"MM\x00\x2A\x00\x00\x00\x08".to_vec();
    for list in [&r0, &r1] {
        if list.is_empty() {
            continue;
        }
        out.extend_from_slice(&(list.len() as u16).to_be_bytes());
        for (tag, ty, count, v) in list.iter() {
            out.extend_from_slice(&tag.to_be_bytes());
            out.extend_from_slice(&ty.to_be_bytes());
            out.extend_from_slice(&count.to_be_bytes());
            out.extend_from_slice(v);
        }
        out.extend_from_slice(&[0, 0, 0, 0]);
    }
    out.extend_from_slice(&ext);
    out
}

fn short(tag: u16, v: u16) -> (u16, u16, u32, Vec<u8>) {
    (tag, 3, 1, v.to_be_bytes().to_vec())
}

fn rational(tag: u16, n: u32, d: u32) -> (u16, u16, u32, Vec<u8>) {
    let mut data = n.to_be_bytes().to_vec();
    data.extend_from_slice(&d.to_be_bytes());
    (tag, 5, 1, data)
}

fn srational(tag: u16, n: i32, d: i32) -> (u16, u16, u32, Vec<u8>) {
    let mut data = n.to_be_bytes().to_vec();
    data.extend_from_slice(&d.to_be_bytes());
    (tag, 10, 1, data)
}

fn ascii(tag: u16, s: &str) -> (u16, u16, u32, Vec<u8>) {
    let mut data = s.as_bytes().to_vec();
    data.push(0);
    let n = data.len() as u32;
    (tag, 2, n, data)
}

// The display forms the caller formats the chosen sources into.
fn fmt_aperture(a: ApertureSource) -> String {
    let f = match a {
        ApertureSource::FNumber(r) => r.num as f64 / r.den as f64,
        ApertureSource::Apex(r) => (r.num as f64 / r.den as f64 / 2.0).exp2(),
    };
    if (f - f.round()).abs() < 0.05 { format!("f/{f:.0}") } else { format!("f/{f:.1}") }
}

fn fmt_shutter(s: ShutterSource) -> String {
    let t = match s {
        ShutterSource::Seconds(r) => r.num as f64 / r.den as f64,
        ShutterSource::Apex(r) => (-(r.num as f64 / r.den as f64)).exp2(),
    };
    if t >= 1.0 { format!("{t:.0}s") } else { format!("1/{:.0}s", 1.0 / t) }
}

fn fmt_focal(f: FocalSource) -> String {
    let mm = match f {
        FocalSource::Lens(r) => r.num as f64 / r.den as f64,
        FocalSource::Film35(v) => f64::from(v),
    };
    format!("{mm:.0}mm")
}

fn meta_from(ifd0: Vec<(u16, u16, u32, Vec<u8>)>, exif_ifd: Vec<(u16, u16, u32, Vec<u8>)>) -> Meta {
    let exif = match read_raw(&build_tiff_exif_ifd(&exif_ifd, &ifd0)) {
        ExifReadOutcome::Parsed(e) => e,
        _ => panic!("synthesized TIFF parses"),
    };
    let focal = photo_frame::exposure::focal_length(&exif).map(fmt_focal);
    let aperture = photo_frame::exposure::aperture(&exif).map(fmt_aperture);
    let shutter = photo_frame::exposure::shutter_seconds(&exif).map(fmt_shutter);
    extract(&exif, focal, aperture, shutter)
}

#[test]
fn builder_round_trips_primary_tags() {
    let meta = meta_from(
        vec![ascii(0x0110, "NIKON Z 5")],
        vec![rational(0x829D, 18, 10), rational(0x829A, 1, 250)],
    );
    assert_eq!(meta.camera.as_deref(), Some("NIKON Z 5"));
    assert_eq!(meta.aperture.as_deref(), Some("f/1.8"));
    assert_eq!(meta.shutter.as_deref(), Some("1/250s"));
}

#[test]
fn aperture_falls_back_to_apex_value() {
    let meta = meta_from(vec![], vec![rational(0x9202, 4, 1)]);
    assert_eq!(meta.aperture.as_deref(), Some("f/4"));
}

#[test]
fn shutter_falls_back_to_apex_value() {
    let meta = meta_from(vec![], vec![srational(0x9201, 8, 1)]);
    assert_eq!(meta.shutter.as_deref(), Some("1/256s"));
}

#[test]
fn focal_length_falls_back_to_35mm_equivalent() {
    let meta = meta_from(vec![], vec![short(0xA405, 50)]);
    assert_eq!(meta.focal_length.as_deref(), Some("50mm"));
}

#[test]
fn iso_falls_back_to_recommended_exposure_index() {
    let meta = meta_from(vec![], vec![short(0x8832, 800)]);
    assert_eq!(meta.iso.as_deref(), Some("ISO 800"));
}

#[test]
fn iso_falls_back_to_iso_speed() {
    let meta = meta_from(vec![], vec![short(0x8833, 1600)]);
    assert_eq!(meta.iso.as_deref(), Some("ISO 1600"));
}

#[test]
fn date_falls_back_to_digitized() {
    let meta = meta_from(vec![], vec![ascii(0x9004, "2026:05:24 10:00:00")]);
    assert_eq!(meta.date.as_deref(), Some("2026-05-24"));
}

#[test]
fn date_falls_back_to_ifd0_datetime() {
    let meta = meta_from(vec![ascii(0x0132, "2026:05:24 10:00:00")], vec![]);
    assert_eq!(meta.date.as_deref(), Some("2026-05-24"));
}

#[test]
fn primary_tag_wins_over_fallback() {
    let meta = meta_from(vec![], vec![rational(0x829D, 18, 10), rational(0x9202, 4, 1)]);
    assert_eq!(meta.aperture.as_deref(), Some("f/1.8"));
}

// ── own: composition, encoding, batch decisions, the cache ──────────────

#[test]
fn render_canvas_lays_rgb_photo_on_background() {
    let photo = Pixels::from_rgba8(2, 1, vec![1, 2, 3, 4, 5, 6, 7, 8]).unwrap();
    let layout = geometry::compute((2, 1), false);
    let canvas = render_canvas(&layout, &photo, Background::from_rgb(9, 8, 7));
    let (cw, _) = layout.canvas_size;
    let (ox, oy) = layout.photo_origin;
    let at = |x: u32, y: u32| {
        let i = ((y * cw + x) * 3) as usize;
        [canvas[i], canvas[i + 1], canvas[i + 2]]
    };
    assert_eq!(at(0, 0), [9, 8, 7]);
    assert_eq!(at(ox, oy), [1, 2, 3]);
    assert_eq!(at(ox + 1, oy), [5, 6, 7]);
}

#[test]
fn compose_hides_empty_caption_facts() {
    let photo = Pixels::from_rgba8(30, 20, vec![0; 30 * 20 * 4]).unwrap();
    let with_facts = Meta { camera: Some("Z 5".into()), ..Meta::default() };
    let plan = compose(photo.clone(), Orientation::Normal, Some(with_facts), &FrameOptions::default()).unwrap();
    assert!(plan.meta.is_some());
    assert!(plan.layout.meta.is_some());
    let plan = compose(photo.clone(), Orientation::Normal, Some(Meta::default()), &FrameOptions::default()).unwrap();
    assert!(plan.meta.is_none());
    let never = FrameOptions { meta_policy: photo_frame::classic::MetaPolicy::Never, ..FrameOptions::default() };
    let plan = compose(photo, Orientation::Normal, Some(Meta { lens: Some("50mm".into()), ..Meta::default() }), &never).unwrap();
    assert!(plan.meta.is_none());
}

#[test]
fn downscale_fits_inside_the_cap() {
    let photo = Pixels::from_rgba8(40, 20, vec![5; 40 * 20 * 4]).unwrap();
    let out = downscale(photo.clone(), Some(10));
    assert!(out.width() <= 10 && out.height() <= 5);
    assert_eq!(downscale(photo.clone(), None), photo);
    assert_eq!(downscale(photo.clone(), Some(40)), photo);
}

#[test]
fn jpeg_refuses_oversized_axes() {
    let canvas = vec![0u8; 70000 * 3];
    let err = jpeg(&canvas, 70000, 1, 90).expect_err("axis over 65535");
    assert!(matches!(err, FrameError::Encode(_)));
    assert_eq!(err.category(), ErrorCategory::Encode);
}

#[test]
fn jobs_clamp_to_inputs_and_at_least_one() {
    assert_eq!(resolve_jobs(3, Some(8)), 3);
    assert_eq!(resolve_jobs(10, Some(4)), 4);
    assert_eq!(resolve_jobs(5, Some(0)), 1);
    assert_eq!(resolve_jobs(0, Some(7)), 1);
    let n = resolve_jobs(2, None);
    assert!((1..=2).contains(&n));
}

#[test]
fn exit_code_follows_first_categorised_cause() {
    assert_eq!(exit_code_for(&vec![None, Some(Category::Decode), Some(Category::Input)]), 3);
    assert_eq!(exit_code_for(&vec![None, None]), 1);
    assert_eq!(exit_code_for(&vec![]), 1);
    assert_eq!(first_error_category(&vec![Some(Category::Encode)]), Some(Category::Encode));
    assert_eq!(batch_exit_code(&vec![true, true]), 0);
    assert_eq!(batch_exit_code(&vec![true, false, true]), 6);
    assert_eq!(batch_exit_code(&vec![]), 0);
}

#[test]
fn cache_gives_back_what_was_stored() {
    let mut cache = PhotoCache::new();
    let pixels = Pixels::from_rgba8(1, 1, vec![1, 2, 3, 4]).unwrap();
    let fp = fingerprint(b"some input bytes");
    assert!(cache.lookup(fp).is_none());
    cache.store(fp, Photograph::new(pixels.clone(), Provenance::default()));
    let hit = cache.lookup(fp).expect("hit");
    assert_eq!(hit.pixels, pixels);
    assert!(cache.lookup(fp.wrapping_add(1)).is_none());
}

#[test]
fn fingerprint_reads_only_length_and_ends() {
    let mut a = vec![7u8; 100];
    let mut b = a.clone();
    a[50] = 1;
    b[50] = 2;
    assert_eq!(fingerprint(&a), fingerprint(&b));
    b[99] = 3;
    assert_ne!(fingerprint(&a), fingerprint(&b));
    assert_ne!(fingerprint(&a[..99]), fingerprint(&a));
}
