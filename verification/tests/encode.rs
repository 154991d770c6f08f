use photo_frame::encode::{jpeg, EncodeError, JpegOptions, DEFAULT_QUALITY};
use photo_frame::pixels::Pixels;

fn solid_pixels(w: u32, h: u32) -> Pixels {
    let mut buf = Vec::new();
    for _ in 0..(w * h) {
        buf.extend_from_slice(&[200, 60, 60, 255]);
    }
    Pixels::from_rgba8(w, h, buf).expect("pixels")
}

#[test]
fn default_quality_is_92() {
    assert_eq!(JpegOptions::default().quality, 92);
    assert_eq!(DEFAULT_QUALITY, 92);
}

#[test]
fn quality_zero_is_rejected() {
    let p = solid_pixels(4, 4);
    match jpeg(&p, &JpegOptions { quality: 0 }) {
        Err(EncodeError::InvalidQuality { got }) => assert_eq!(got, 0),
        _ => panic!("expected InvalidQuality"),
    }
}

#[test]
fn quality_above_max_is_rejected() {
    let p = solid_pixels(4, 4);
    assert!(matches!(
        jpeg(&p, &JpegOptions { quality: 101 }),
        Err(EncodeError::InvalidQuality { .. })
    ));
}

#[test]
fn output_starts_with_jpeg_soi_marker() {
    let p = solid_pixels(4, 4);
    let bytes = match jpeg(&p, &JpegOptions::default()) {
        Ok(b) => b,
        Err(_) => panic!("encode"),
    };
    assert_eq!(&bytes[..2], &[0xFF, 0xD8], "JPEG SOI marker");
}

#[test]
fn smaller_quality_produces_smaller_output() {
    let p = solid_pixels(128, 128);
    let q10 = match jpeg(&p, &JpegOptions { quality: 10 }) {
        Ok(b) => b,
        Err(_) => panic!("q10"),
    };
    let q95 = match jpeg(&p, &JpegOptions { quality: 95 }) {
        Ok(b) => b,
        Err(_) => panic!("q95"),
    };
    assert!(q10.len() <= q95.len(), "q10={} q95={}", q10.len(), q95.len());
}
