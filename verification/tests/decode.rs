use photo_frame::exif::orientation_value;
use photo_frame::heif::{copy_rgba_with_stride, strip_heif_exif_prefix};
use photo_frame::provenance::{camera, captured_at, lens, parse, resolve_captured_at, DateSource, DateTime};

struct Field {
    tag: u16,
    ty: u16,
    count: u32,
    data: Vec<u8>,
}

impl Field {
    fn ascii(tag: u16, s: &str) -> Self {
        let mut data = s.as_bytes().to_vec();
        data.push(0);
        let count = u32::try_from(data.len()).expect("ascii field fits u32");
        Self { tag, ty: 2, count, data }
    }
}

fn allocate_externals(fields: &[Field], start: u32) -> (Vec<Option<u32>>, u32) {
    let mut cursor = start;
    let mut offsets = Vec::with_capacity(fields.len());
    for f in fields {
        if f.data.len() <= 4 {
            offsets.push(None);
        } else {
            offsets.push(Some(cursor));
            cursor += u32::try_from(f.data.len()).unwrap();
        }
    }
    (offsets, cursor - start)
}

fn value_field(f: &Field, external_offset: Option<u32>) -> [u8; 4] {
    match external_offset {
        Some(off) => off.to_be_bytes(),
        None => {
            let mut v = [0_u8; 4];
            let n = f.data.len().min(4);
            v[..n].copy_from_slice(&f.data[..n]);
            v
        }
    }
}

fn write_ifd(out: &mut Vec<u8>, entries: &[(u16, u16, u32, [u8; 4])]) {
    let count = u16::try_from(entries.len()).expect("IFD entry count fits u16");
    out.extend_from_slice(&count.to_be_bytes());
    for (tag, ty, ct, val) in entries {
        out.extend_from_slice(&tag.to_be_bytes());
        out.extend_from_slice(&ty.to_be_bytes());
        out.extend_from_slice(&ct.to_be_bytes());
        out.extend_from_slice(val);
    }
    out.extend_from_slice(&0_u32.to_be_bytes());
}

fn build_tiff(mut ifd0: Vec<Field>, mut exif: Vec<Field>) -> Vec<u8> {
    ifd0.sort_by_key(|f| f.tag);
    exif.sort_by_key(|f| f.tag);
    let has_exif_ifd = !exif.is_empty();
    let ifd0_entry_count = ifd0.len() + usize::from(has_exif_ifd);
    let ifd0_size = 2 + 12 * ifd0_entry_count + 4;
    let ifd0_offset: u32 = 8;
    let ifd0_ext_start = ifd0_offset + u32::try_from(ifd0_size).unwrap();
    let (ifd0_offsets, ifd0_ext_size) = allocate_externals(&ifd0, ifd0_ext_start);
    let exif_ifd_offset = ifd0_ext_start + ifd0_ext_size;
    let exif_ifd_size = if has_exif_ifd { 2 + 12 * exif.len() + 4 } else { 0 };
    let exif_ext_start = exif_ifd_offset + u32::try_from(exif_ifd_size).unwrap();
    let (exif_offsets, _) = allocate_externals(&exif, exif_ext_start);

    let mut out = Vec::new();
    out.extend_from_slice(b"MM");
    out.extend_from_slice(&0x002A_u16.to_be_bytes());
    out.extend_from_slice(&ifd0_offset.to_be_bytes());
    let mut ifd0_rendered: Vec<(u16, u16, u32, [u8; 4])> = ifd0
        .iter()
        .zip(&ifd0_offsets)
        .map(|(f, off)| (f.tag, f.ty, f.count, value_field(f, *off)))
        .collect();
    if has_exif_ifd {
        ifd0_rendered.push((0x8769, 4, 1, exif_ifd_offset.to_be_bytes()));
        ifd0_rendered.sort_by_key(|&(tag, _, _, _)| tag);
    }
    write_ifd(&mut out, &ifd0_rendered);
    for (f, off) in ifd0.iter().zip(&ifd0_offsets) {
        if off.is_some() {
            out.extend_from_slice(&f.data);
        }
    }
    if has_exif_ifd {
        let exif_rendered: Vec<(u16, u16, u32, [u8; 4])> = exif
            .iter()
            .zip(&exif_offsets)
            .map(|(f, off)| (f.tag, f.ty, f.count, value_field(f, *off)))
            .collect();
        write_ifd(&mut out, &exif_rendered);
        for (f, off) in exif.iter().zip(&exif_offsets) {
            if off.is_some() {
                out.extend_from_slice(&f.data);
            }
        }
    }
    out
}

fn parse_exif(ifd0: Vec<Field>, exif_ifd: Vec<Field>) -> exif::Exif {
    exif::Reader::new()
        .read_raw(build_tiff(ifd0, exif_ifd))
        .expect("synthesized TIFF parses")
}

#[test]
fn orientation_value_returns_none_for_no_exif() {
    assert_eq!(orientation_value(None), None);
}

#[test]
fn strips_4byte_prefix() {
    let blob = [0u8, 0, 0, 8, 0x4D, 0x4D, 0, 42];
    let stripped = strip_heif_exif_prefix(&blob).expect("present");
    assert_eq!(stripped, &[0x4D, 0x4D, 0, 42]);
}

#[test]
fn strip_too_short_returns_none() {
    assert!(strip_heif_exif_prefix(&[]).is_none());
    assert!(strip_heif_exif_prefix(&[0, 0, 0]).is_none());
}

#[test]
fn strip_exactly_4_bytes_returns_empty_slice() {
    let stripped = strip_heif_exif_prefix(&[0, 0, 0, 0]).expect("present");
    assert!(stripped.is_empty());
}

#[test]
fn copy_packed_buffer_is_identity() {
    let data: Vec<u8> = (0..32).collect();
    let out = copy_rgba_with_stride(&data, 16, 4, 2);
    assert_eq!(out, data);
}

#[test]
fn copy_strided_buffer_drops_padding() {
    let mut src = vec![0u8; 32];
    for (i, byte) in src.iter_mut().take(12).enumerate() {
        *byte = u8::try_from(i + 1).unwrap();
    }
    for (i, byte) in src.iter_mut().skip(16).take(12).enumerate() {
        *byte = u8::try_from(100 + i).unwrap();
    }
    let out = copy_rgba_with_stride(&src, 16, 3, 2);
    assert_eq!(out.len(), 3 * 2 * 4);
    assert_eq!(&out[..12], &(1u8..=12).collect::<Vec<_>>()[..]);
    let expected_row1: Vec<u8> = (100u8..=111).collect();
    assert_eq!(&out[12..], &expected_row1[..]);
}

#[test]
fn copy_truncated_source_stops_early_without_panic() {
    let src = vec![0u8; 32];
    let out = copy_rgba_with_stride(&src, 16, 4, 4);
    assert_eq!(out.len(), 32);
}

#[test]
fn camera_make_and_model_present() {
    let exif = parse_exif(
        vec![Field::ascii(0x010F, "NIKON CORPORATION"), Field::ascii(0x0110, "NIKON Z 5")],
        vec![],
    );
    let cam = camera(&exif).expect("present");
    assert_eq!(cam.make.as_ref().map(|s| s.as_str()), Some("NIKON CORPORATION"));
    assert_eq!(cam.model.as_ref().map(|s| s.as_str()), Some("NIKON Z 5"));
}

#[test]
fn camera_make_only_returns_some() {
    let exif = parse_exif(vec![Field::ascii(0x010F, "SONY")], vec![]);
    let cam = camera(&exif).expect("present");
    assert_eq!(cam.make.as_ref().map(|s| s.as_str()), Some("SONY"));
    assert!(cam.model.is_none());
}

#[test]
fn camera_with_neither_returns_none() {
    let exif = parse_exif(vec![], vec![]);
    assert!(camera(&exif).is_none());
}

#[test]
fn lens_model_only() {
    let exif = parse_exif(vec![], vec![Field::ascii(0xA434, "NIKKOR Z 50mm f/1.8 S")]);
    let l = lens(&exif).expect("present");
    assert_eq!(l.model.as_ref().map(|s| s.as_str()), Some("NIKKOR Z 50mm f/1.8 S"));
    assert!(l.make.is_none());
}

#[test]
fn lens_with_neither_returns_none() {
    let exif = parse_exif(vec![], vec![]);
    assert!(lens(&exif).is_none());
}

#[test]
fn parse_full_datetime() {
    let dt = parse("2026:05:24 13:24:55").expect("present");
    assert_eq!(
        dt,
        DateTime { year: 2026, month: 5, day: 24, hour: 13, minute: 24, second: 55 }
    );
}

#[test]
fn parse_date_only_zeroes_hms() {
    let dt = parse("2026:05:24").expect("present");
    assert_eq!(dt.year, 2026);
    assert_eq!(dt.month, 5);
    assert_eq!(dt.day, 24);
    assert_eq!(dt.hour, 0);
    assert_eq!(dt.minute, 0);
    assert_eq!(dt.second, 0);
}

#[test]
fn parse_garbage_returns_none() {
    assert!(parse("not a date").is_none());
}

#[test]
fn parse_out_of_range_month_returns_none() {
    assert!(parse("2026:1300:24 10:00:00").is_none());
}

#[test]
fn captured_at_primary_wins() {
    let exif = parse_exif(
        vec![Field::ascii(0x0132, "1990:01:01 00:00:00")],
        vec![Field::ascii(0x9003, "2026:05:24 10:00:00")],
    );
    let dt = captured_at(&exif).expect("present");
    assert_eq!(dt.year, 2026);
}

#[test]
fn captured_at_falls_back_to_digitized() {
    let exif = parse_exif(vec![], vec![Field::ascii(0x9004, "2026:05:24 10:00:00")]);
    let dt = captured_at(&exif).expect("present");
    assert_eq!((dt.year, dt.month, dt.day), (2026, 5, 24));
}

#[test]
fn captured_at_falls_back_to_ifd0_datetime() {
    let exif = parse_exif(vec![Field::ascii(0x0132, "2026:05:24 10:00:00")], vec![]);
    let dt = captured_at(&exif).expect("present");
    assert_eq!((dt.year, dt.month, dt.day), (2026, 5, 24));
}

#[test]
fn captured_at_returns_none_when_absent() {
    let exif = parse_exif(vec![], vec![]);
    assert!(captured_at(&exif).is_none());
}

#[test]
fn captured_at_fallback_emits_debug_event() {
    let exif = parse_exif(vec![], vec![Field::ascii(0x9004, "2026:05:24 10:00:00")]);
    let (_, source) = resolve_captured_at(&exif).expect("present");
    assert_eq!(source, DateSource::Digitized);
}
