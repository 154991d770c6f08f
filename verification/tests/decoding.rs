use image::{codecs::jpeg::JpegEncoder, codecs::png::PngEncoder, ExtendedColorType, ImageEncoder, RgbImage, RgbaImage};
use photo_frame::category::{Categorize, Category};
use photo_frame::decode::{apply, from_bytes, DecodeError};
use photo_frame::exif::{orientation_value, read, read_raw, ExifReadOutcome};
use photo_frame::exposure::{exposure, ApertureSource, FocalSource, Ratio, ShutterSource};
use photo_frame::format::{detect, name, DetectedFormat, ImageFormatKind};
use photo_frame::pixels::Pixels;

// ── input builders ───────────────────────────────────────────────────────

struct Field {
    tag: u16,
    ty: u16,
    count: u32,
    data: Vec<u8>,
}

impl Field {
    fn short(tag: u16, value: u16) -> Self {
        Self { tag, ty: 3, count: 1, data: value.to_be_bytes().to_vec() }
    }

    fn rational(tag: u16, num: u32, denom: u32) -> Self {
        let mut data = num.to_be_bytes().to_vec();
        data.extend_from_slice(&denom.to_be_bytes());
        Self { tag, ty: 5, count: 1, data }
    }

    fn srational(tag: u16, num: i32, denom: i32) -> Self {
        let mut data = num.to_be_bytes().to_vec();
        data.extend_from_slice(&denom.to_be_bytes());
        Self { tag, ty: 10, count: 1, data }
    }

    fn ascii(tag: u16, s: &str) -> Self {
        let mut data = s.as_bytes().to_vec();
        data.push(0);
        let count = u32::try_from(data.len()).expect("ascii field fits u32");
        Self { tag, ty: 2, count, data }
    }
}

fn allocate_externals(fields: &[Field], start: u32) -> (Vec<Option<u32>>, u32) {
    let mut cursor = start;
    let mut offsets = Vec::with_capacity(fields.len());
    for f in fields {
        if f.data.len() <= 4 {
            offsets.push(None);
        } else {
            offsets.push(Some(cursor));
            cursor += u32::try_from(f.data.len()).unwrap();
        }
    }
    (offsets, cursor - start)
}

fn value_field(f: &Field, external_offset: Option<u32>) -> [u8; 4] {
    match external_offset {
        Some(off) => off.to_be_bytes(),
        None => {
            let mut v = [0_u8; 4];
            let n = f.data.len().min(4);
            v[..n].copy_from_slice(&f.data[..n]);
            v
        },
    }
}

fn write_ifd(out: &mut Vec<u8>, entries: &[(u16, u16, u32, [u8; 4])]) {
    let count = u16::try_from(entries.len()).expect("IFD entry count fits u16");
    out.extend_from_slice(&count.to_be_bytes());
    for (tag, ty, ct, val) in entries {
        out.extend_from_slice(&tag.to_be_bytes());
        out.extend_from_slice(&ty.to_be_bytes());
        out.extend_from_slice(&ct.to_be_bytes());
        out.extend_from_slice(val);
    }
    out.extend_from_slice(&0_u32.to_be_bytes());
}

fn build_tiff(mut ifd0: Vec<Field>, mut exif: Vec<Field>) -> Vec<u8> {
    ifd0.sort_by_key(|f| f.tag);
    exif.sort_by_key(|f| f.tag);
    let has_exif_ifd = !exif.is_empty();
    let ifd0_entry_count = ifd0.len() + usize::from(has_exif_ifd);
    let ifd0_size = 2 + 12 * ifd0_entry_count + 4;
    let ifd0_offset: u32 = 8;
    let ifd0_ext_start = ifd0_offset + u32::try_from(ifd0_size).unwrap();
    let (ifd0_offsets, ifd0_ext_size) = allocate_externals(&ifd0, ifd0_ext_start);
    let exif_ifd_offset = ifd0_ext_start + ifd0_ext_size;
    let exif_ifd_size = if has_exif_ifd { 2 + 12 * exif.len() + 4 } else { 0 };
    let exif_ext_start = exif_ifd_offset + u32::try_from(exif_ifd_size).unwrap();
    let (exif_offsets, _) = allocate_externals(&exif, exif_ext_start);

    let mut out = Vec::new();
    out.extend_from_slice(b"MM");
    out.extend_from_slice(&0x002A_u16.to_be_bytes());
    out.extend_from_slice(&ifd0_offset.to_be_bytes());
    let mut ifd0_rendered: Vec<(u16, u16, u32, [u8; 4])> = ifd0
        .iter()
        .zip(&ifd0_offsets)
        .map(|(f, off)| (f.tag, f.ty, f.count, value_field(f, *off)))
        .collect();
    if has_exif_ifd {
        ifd0_rendered.push((0x8769, 4, 1, exif_ifd_offset.to_be_bytes()));
        ifd0_rendered.sort_by_key(|&(tag, _, _, _)| tag);
    }
    write_ifd(&mut out, &ifd0_rendered);
    for (f, off) in ifd0.iter().zip(&ifd0_offsets) {
        if off.is_some() {
            out.extend_from_slice(&f.data);
        }
    }
    if has_exif_ifd {
        let exif_rendered: Vec<(u16, u16, u32, [u8; 4])> = exif
            .iter()
            .zip(&exif_offsets)
            .map(|(f, off)| (f.tag, f.ty, f.count, value_field(f, *off)))
            .collect();
        write_ifd(&mut out, &exif_rendered);
        for (f, off) in exif.iter().zip(&exif_offsets) {
            if off.is_some() {
                out.extend_from_slice(&f.data);
            }
        }
    }
    out
}

fn tiff_with_orientation(orientation: u16) -> Vec<u8> {
    let mut body = b"Exif\x00\x00".to_vec();
    body.extend_from_slice(&build_tiff(vec![Field::short(0x0112, orientation)], vec![]));
    body
}

fn jpeg_solid(w: u32, h: u32) -> Vec<u8> {
    let solid = RgbImage::from_pixel(w, h, image::Rgb([200, 60, 60]));
    let mut out = Vec::new();
    JpegEncoder::new_with_quality(&mut out, 90)
        .write_image(&solid, w, h, ExtendedColorType::Rgb8)
        .expect("jpeg encode");
    out
}

fn jpeg_with_app1(w: u32, h: u32, exif_body: &[u8]) -> Vec<u8> {
    let jpeg = jpeg_solid(w, h);
    let mut out = Vec::with_capacity(jpeg.len() + exif_body.len() + 4);
    out.extend_from_slice(&jpeg[..2]);
    out.push(0xFF);
    out.push(0xE1);
    let segment_len = u16::try_from(exif_body.len() + 2).expect("APP1 length fits u16");
    out.extend_from_slice(&segment_len.to_be_bytes());
    out.extend_from_slice(exif_body);
    out.extend_from_slice(&jpeg[2..]);
    out
}

fn tiny_png(w: u32, h: u32) -> Vec<u8> {
    let img = RgbaImage::from_pixel(w, h, image::Rgba([10, 20, 30, 255]));
    let mut out = Vec::new();
    PngEncoder::new(&mut out)
        .write_image(&img, w, h, ExtendedColorType::Rgba8)
        .expect("png encode");
    out
}

fn parse_exif(ifd0: Vec<Field>, exif_ifd: Vec<Field>) -> exif::Exif {
    match read_raw(&build_tiff(ifd0, exif_ifd)) {
        ExifReadOutcome::Parsed(e) => e,
        _ => panic!("synthesized TIFF parses"),
    }
}

/// 4×2 image where each pixel encodes its (x, y).
fn coded() -> Pixels {
    let mut buf = Vec::new();
    for y in 0..2u8 {
        for x in 0..4u8 {
            buf.extend_from_slice(&[x, y, 0xAA, 0xFF]);
        }
    }
    Pixels::from_rgba8(4, 2, buf).expect("pixels")
}

fn pixel(p: &Pixels, x: u32, y: u32) -> [u8; 4] {
    let i = ((y * p.width() + x) * 4) as usize;
    let b = p.as_rgba8();
    [b[i], b[i + 1], b[i + 2], b[i + 3]]
}

fn ratio_value(r: Ratio) -> f64 {
    r.num as f64 / r.den as f64
}

fn aperture_value(a: ApertureSource) -> f64 {
    match a {
        ApertureSource::FNumber(r) => ratio_value(r),
        ApertureSource::Apex(r) => (ratio_value(r) / 2.0).exp2(),
    }
}

fn shutter_value(s: ShutterSource) -> f64 {
    match s {
        ShutterSource::Seconds(r) => ratio_value(r),
        ShutterSource::Apex(r) => (-ratio_value(r)).exp2(),
    }
}

fn focal_value(f: FocalSource) -> f64 {
    match f {
        FocalSource::Lens(r) => ratio_value(r),
        FocalSource::Film35(v) => f64::from(v),
    }
}

fn ftyp(brand: [u8; 4]) -> Vec<u8> {
    let mut v = vec![0u8, 0, 0, 0x20];
    v.extend_from_slice(b"ftyp");
    v.extend_from_slice(&brand);
    v.extend(std::iter::repeat(0u8).take(16));
    v
}

// ── format detection ─────────────────────────────────────────────────────

#[test]
fn detect_jpeg_via_image_guess() {
    let bytes = [0xFF, 0xD8, 0xFF, 0xE0];
    assert_eq!(detect(&bytes), DetectedFormat::Image(ImageFormatKind::Jpeg));
}

#[test]
fn detect_png_via_image_guess() {
    let bytes = [0x89, 0x50, 0x4E, 0x47, 0x0D, 0x0A, 0x1A, 0x0A];
    assert_eq!(detect(&bytes), DetectedFormat::Image(ImageFormatKind::Png));
}

#[test]
fn detect_heic_ftypheic() {
    assert_eq!(detect(&ftyp(*b"heic")), DetectedFormat::Heic);
}

#[test]
fn detect_heic_ftypheix() {
    assert_eq!(detect(&ftyp(*b"heix")), DetectedFormat::Heic);
}

#[test]
fn detect_heic_ftyphevc() {
    assert_eq!(detect(&ftyp(*b"hevc")), DetectedFormat::Heic);
}

#[test]
fn detect_heic_ftypmif1() {
    assert_eq!(detect(&ftyp(*b"mif1")), DetectedFormat::Heic);
}

#[test]
fn detect_avif_is_unknown() {
    assert_eq!(detect(&ftyp(*b"avif")), DetectedFormat::Unknown);
}

#[test]
fn detect_empty_is_unknown() {
    assert_eq!(detect(&[]), DetectedFormat::Unknown);
}

#[test]
fn detect_random_bytes_is_unknown() {
    let bytes = b"This is plainly not an image file.";
    assert_eq!(detect(bytes), DetectedFormat::Unknown);
}

#[test]
fn detect_short_ftyp_is_not_heic() {
    let bytes = [0, 0, 0, 0, b'f', b't', b'y', b'p'];
    assert_eq!(detect(&bytes), DetectedFormat::Unknown);
}

#[test]
fn name_covers_known_formats() {
    assert_eq!(name(DetectedFormat::Heic), "heic");
    assert_eq!(name(DetectedFormat::Image(ImageFormatKind::Jpeg)), "jpeg");
    assert_eq!(name(DetectedFormat::Image(ImageFormatKind::Png)), "png");
    assert_eq!(name(DetectedFormat::Image(ImageFormatKind::Tiff)), "tiff");
    assert_eq!(name(DetectedFormat::Image(ImageFormatKind::Bmp)), "bmp");
    assert_eq!(name(DetectedFormat::Image(ImageFormatKind::WebP)), "webp");
    assert_eq!(name(DetectedFormat::Unknown), "unknown");
}

// ── EXIF container reading ───────────────────────────────────────────────

#[test]
fn read_absent_when_no_exif_in_container() {
    let png = [0x89, 0x50, 0x4E, 0x47, 0x0D, 0x0A, 0x1A, 0x0A];
    let outcome = read(&png);
    assert!(matches!(outcome, ExifReadOutcome::Absent));
    assert!(!outcome.was_present());
    assert!(outcome.as_parsed().is_none());
}

#[test]
fn read_parses_jpeg_with_exif() {
    let bytes = jpeg_with_app1(8, 8, &tiff_with_orientation(6));
    let outcome = read(&bytes);
    let exif = outcome.as_parsed().expect("parsed");
    assert_eq!(orientation_value(Some(exif)), Some(6));
    assert!(outcome.was_present());
}

#[test]
fn read_malformed_emits_warn() {
    let mut body = b"Exif\x00\x00".to_vec();
    body.extend_from_slice(b"\x00\x01\x02\x03\x04");
    let bytes = jpeg_with_app1(8, 8, &body);
    let outcome = read(&bytes);
    assert!(matches!(outcome, ExifReadOutcome::Malformed(_)));
    assert!(outcome.was_present());
}

// ── orientation ──────────────────────────────────────────────────────────

#[test]
fn none_raw_is_identity() {
    let original = coded();
    let img = apply(original.clone(), None);
    assert_eq!(img, original);
}

#[test]
fn raw_zero_is_silent_identity() {
    let original = coded();
    let img = apply(original.clone(), Some(0));
    assert_eq!(img, original);
}

#[test]
fn raw_1_is_identity() {
    let original = coded();
    let img = apply(original.clone(), Some(1));
    assert_eq!(img, original);
}

#[test]
fn raw_2_flips_horizontally() {
    let img = apply(coded(), Some(2));
    assert_eq!(pixel(&img, 0, 0), [3, 0, 0xAA, 0xFF]);
    assert_eq!(pixel(&img, 3, 0), [0, 0, 0xAA, 0xFF]);
}

#[test]
fn raw_3_rotates_180() {
    let img = apply(coded(), Some(3));
    assert_eq!(pixel(&img, 0, 0), [3, 1, 0xAA, 0xFF]);
    assert_eq!(pixel(&img, 3, 1), [0, 0, 0xAA, 0xFF]);
}

#[test]
fn raw_6_rotates_to_portrait() {
    let img = apply(coded(), Some(6));
    assert_eq!(img.width(), 2);
    assert_eq!(img.height(), 4);
}

#[test]
fn raw_8_rotates_to_portrait_other_way() {
    let img = apply(coded(), Some(8));
    assert_eq!(img.width(), 2);
    assert_eq!(img.height(), 4);
}

#[test]
fn unknown_raw_emits_warn_and_is_identity() {
    let original = coded();
    let img = apply(original.clone(), Some(99));
    assert_eq!(img, original);
}

#[test]
fn raw_overflow_u8_emits_warn_and_is_identity() {
    let original = coded();
    let img = apply(original.clone(), Some(99_999));
    assert_eq!(img, original);
}

#[test]
fn raw_zero_does_not_warn() {
    let img = apply(coded(), Some(0));
    assert_eq!(img.dimensions(), (4, 2));
}

// ── exposure facts ───────────────────────────────────────────────────────

#[test]
fn focal_length_primary_wins() {
    let exif = parse_exif(vec![], vec![Field::rational(0x920A, 50, 1), Field::short(0xA405, 75)]);
    let exp = exposure(&exif).expect("present");
    assert_eq!(exp.focal_length.map(focal_value), Some(50.0));
}

#[test]
fn focal_length_falls_back_to_35mm() {
    let exif = parse_exif(vec![], vec![Field::short(0xA405, 50)]);
    let exp = exposure(&exif).expect("present");
    assert_eq!(exp.focal_length.map(focal_value), Some(50.0));
}

#[test]
fn aperture_primary_wins() {
    let exif = parse_exif(vec![], vec![Field::rational(0x829D, 18, 10), Field::rational(0x9202, 4, 1)]);
    let exp = exposure(&exif).expect("present");
    assert_eq!(exp.aperture.map(aperture_value), Some(1.8));
}

#[test]
fn aperture_falls_back_to_apex() {
    let exif = parse_exif(vec![], vec![Field::rational(0x9202, 4, 1)]);
    let exp = exposure(&exif).expect("present");
    let v = aperture_value(exp.aperture.expect("present"));
    assert!((v - 4.0).abs() < 1e-9);
}

#[test]
fn shutter_primary_wins() {
    let exif = parse_exif(vec![], vec![Field::rational(0x829A, 1, 250), Field::srational(0x9201, 8, 1)]);
    let exp = exposure(&exif).expect("present");
    let v = shutter_value(exp.shutter.expect("present"));
    assert!((v - (1.0 / 250.0)).abs() < 1e-9);
}

#[test]
fn shutter_falls_back_to_apex() {
    let exif = parse_exif(vec![], vec![Field::srational(0x9201, 8, 1)]);
    let exp = exposure(&exif).expect("present");
    let v = shutter_value(exp.shutter.expect("present"));
    assert!((v - (1.0 / 256.0)).abs() < 1e-9);
}

#[test]
fn iso_primary_tag() {
    let exif = parse_exif(vec![], vec![Field::short(0x8827, 400)]);
    let exp = exposure(&exif).expect("present");
    assert_eq!(exp.iso.map(|i| i.get()), Some(400));
}

#[test]
fn iso_falls_back_to_8832() {
    let exif = parse_exif(vec![], vec![Field::short(0x8832, 800)]);
    let exp = exposure(&exif).expect("present");
    assert_eq!(exp.iso.map(|i| i.get()), Some(800));
}

#[test]
fn iso_falls_back_to_8833() {
    let exif = parse_exif(vec![], vec![Field::short(0x8833, 1600)]);
    let exp = exposure(&exif).expect("present");
    assert_eq!(exp.iso.map(|i| i.get()), Some(1600));
}

#[test]
fn exposure_all_none_collapses_to_none() {
    let exif = parse_exif(vec![], vec![]);
    assert!(exposure(&exif).is_none());
}

#[test]
fn exposure_partial_present_returns_some_with_nones() {
    let exif = parse_exif(vec![], vec![Field::rational(0x829D, 28, 10)]);
    let exp = exposure(&exif).expect("present");
    assert_eq!(exp.aperture.map(aperture_value), Some(2.8));
    assert!(exp.focal_length.is_none());
    assert!(exp.shutter.is_none());
    assert!(exp.iso.is_none());
}

#[test]
fn negative_focal_length_is_dropped() {
    let exif = parse_exif(vec![], vec![Field::srational(0x9201, -1, 250)]);
    let exp = exposure(&exif);
    assert!(exp.is_some());
}

#[test]
fn nan_aperture_is_dropped() {
    let exif = parse_exif(vec![], vec![Field::rational(0x9202, 1, 0)]);
    let exp = exposure(&exif);
    assert!(exp.is_none());
}

// ── end to end ───────────────────────────────────────────────────────────

#[test]
fn tiny_jpeg_round_trips_to_photograph() {
    let bytes = jpeg_solid(8, 6);
    let photo = from_bytes(&bytes).expect("decode");
    assert_eq!(photo.pixels.width(), 8);
    assert_eq!(photo.pixels.height(), 6);
    assert_eq!(photo.pixels.as_rgba8().len(), 8 * 6 * 4);
    assert!(photo.provenance.is_empty());
}

#[test]
fn jpeg_with_full_exif_populates_provenance() {
    let mut body = b"Exif\x00\x00".to_vec();
    body.extend_from_slice(&build_tiff(
        vec![
            Field::ascii(0x010F, "NIKON CORPORATION"),
            Field::ascii(0x0110, "NIKON Z 5"),
            Field::ascii(0x0132, "2026:05:24 10:00:00"),
        ],
        vec![
            Field::ascii(0xA434, "NIKKOR Z 50mm f/1.8 S"),
            Field::rational(0x920A, 50, 1),
            Field::rational(0x829D, 18, 10),
            Field::rational(0x829A, 1, 250),
            Field::short(0x8827, 200),
        ],
    ));
    let bytes = jpeg_with_app1(8, 6, &body);
    let photo = from_bytes(&bytes).expect("decode");
    let prov = &photo.provenance;

    let cam = prov.camera.as_ref().expect("camera");
    assert_eq!(cam.make.as_ref().map(|s| s.as_str()), Some("NIKON CORPORATION"));
    assert_eq!(cam.model.as_ref().map(|s| s.as_str()), Some("NIKON Z 5"));

    let lens = prov.lens.as_ref().expect("lens");
    assert_eq!(lens.model.as_ref().map(|s| s.as_str()), Some("NIKKOR Z 50mm f/1.8 S"));

    let exp = prov.exposure.as_ref().expect("exposure");
    assert_eq!(exp.focal_length.map(focal_value), Some(50.0));
    assert_eq!(exp.aperture.map(aperture_value), Some(1.8));
    assert!(exp.shutter.map(shutter_value).is_some_and(|v| (v - 1.0 / 250.0).abs() < 1e-9));
    assert_eq!(exp.iso.map(|i| i.get()), Some(200));

    let dt = prov.captured_at.as_ref().expect("datetime");
    assert_eq!((dt.year, dt.month, dt.day), (2026, 5, 24));
}

#[test]
fn tiny_png_returns_default_provenance() {
    let bytes = tiny_png(4, 3);
    let photo = from_bytes(&bytes).expect("decode");
    assert_eq!(photo.pixels.width(), 4);
    assert_eq!(photo.pixels.height(), 3);
    assert!(photo.provenance.is_empty());
}

#[test]
fn png_pixels_are_rgba_packed() {
    let bytes = tiny_png(2, 1);
    let photo = from_bytes(&bytes).expect("decode");
    let buf = photo.pixels.as_rgba8();
    assert_eq!(buf.len(), 2 * 4);
    assert_eq!(&buf[..4], &[10, 20, 30, 255]);
}

#[test]
fn empty_input_returns_empty_input_variant() {
    let err = from_bytes(&[]).expect_err("empty input must fail");
    assert!(matches!(err, DecodeError::EmptyInput));
}

#[test]
fn random_bytes_return_unknown_format() {
    let bytes = b"this is not an image, just plain text bytes";
    let err = from_bytes(bytes).expect_err("unknown format must fail");
    assert!(matches!(err, DecodeError::UnknownFormat));
}

#[test]
fn truncated_jpeg_returns_jpeg_decode_variant_with_source_chain() {
    let mut jpeg = jpeg_solid(8, 8);
    jpeg.truncate(jpeg.len() / 2);
    let err = from_bytes(&jpeg).expect_err("truncated JPEG must fail decode");
    assert!(matches!(err, DecodeError::JpegDecode(_)));
    assert_eq!(err.category(), Category::Decode);
}

#[test]
fn corrupt_exif_does_not_fail_decode() {
    let mut body = b"Exif\x00\x00".to_vec();
    body.extend_from_slice(b"\x00\x01\x02\x03\x04");
    let bytes = jpeg_with_app1(8, 8, &body);
    let photo = from_bytes(&bytes).expect("decode succeeds even with corrupt EXIF");
    assert!(photo.provenance.is_empty());
}

#[test]
fn heic_bytes_without_heif_feature_return_heif_feature_disabled() {
    let mut bytes = vec![0u8, 0, 0, 0x20];
    bytes.extend_from_slice(b"ftypheic");
    bytes.extend_from_slice(&[0u8; 16]);
    let err = from_bytes(&bytes).expect_err("HEIC without heif feature must fail");
    assert!(matches!(err, DecodeError::HeifFeatureDisabled));
}

#[test]
fn orientation_pipeline_portrait_jpeg_with_orientation_6_comes_out_upright() {
    let bytes = jpeg_with_app1(16, 24, &tiff_with_orientation(6));
    let photo = from_bytes(&bytes).expect("decode");
    assert_eq!((photo.pixels.width(), photo.pixels.height()), (24, 16));
}

#[test]
fn orientation_pipeline_portrait_jpeg_with_orientation_8_comes_out_upright() {
    let bytes = jpeg_with_app1(16, 24, &tiff_with_orientation(8));
    let photo = from_bytes(&bytes).expect("decode");
    assert_eq!((photo.pixels.width(), photo.pixels.height()), (24, 16));
}

#[test]
fn landscape_jpeg_with_orientation_1_stays_landscape() {
    let bytes = jpeg_with_app1(24, 16, &tiff_with_orientation(1));
    let photo = from_bytes(&bytes).expect("decode");
    assert_eq!((photo.pixels.width(), photo.pixels.height()), (24, 16));
}

#[test]
fn orientation_3_keeps_dimensions_but_rotates_180() {
    let bytes = jpeg_with_app1(24, 16, &tiff_with_orientation(3));
    let photo = from_bytes(&bytes).expect("decode");
    assert_eq!((photo.pixels.width(), photo.pixels.height()), (24, 16));
}

// ── own: categories and the orientation laws on concrete pixels ──────────

#[test]
fn decode_error_categories() {
    assert_eq!(DecodeError::EmptyInput.category(), Category::Input);
    assert_eq!(DecodeError::UnknownFormat.category(), Category::Input);
    assert_eq!(DecodeError::HeifFeatureDisabled.category(), Category::Input);
    let err = from_bytes(&tiny_png(1, 1)[..20]).expect_err("truncated PNG");
    assert!(matches!(err, DecodeError::Decode(_)));
    assert_eq!(err.category(), Category::Decode);
}

#[test]
fn quarter_turns_undo_each_other() {
    let original = coded();
    let turned = apply(original.clone(), Some(6));
    assert_eq!(pixel(&turned, 1, 0), [0, 0, 0xAA, 0xFF]);
    let back = apply(turned, Some(8));
    assert_eq!(back, original);
    let twice = apply(apply(original.clone(), Some(5)), Some(5));
    assert_eq!(twice.dimensions(), (4, 2));
    assert_eq!(twice, original);
}
