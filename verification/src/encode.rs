//! Encode a pixel grid as JPEG (through jpeg-encoder).

use vstd::prelude::*;
use crate::category::{Categorize, Category};
use crate::pixels::{rgba_at, Pixels};

verus! {

#[verifier::external_type_specification]
#[verifier::external_body]
pub struct ExEncodingError(jpeg_encoder::EncodingError);

/// JPEG encodes each axis in 16 bits.
pub const MAX_DIMENSION: u32 = 65535;

/// The default JPEG quality.
pub const DEFAULT_QUALITY: u8 = 92;

/// Knobs for [`jpeg`].
#[derive(Copy, Clone, Debug, PartialEq, Eq, Structural)]
pub struct JpegOptions {
    /// JPEG quality, `1..=100`.
    pub quality: u8,
}

impl Default for JpegOptions {
    fn default() -> (o: Self)
        ensures
            o.quality == DEFAULT_QUALITY,
    {
        JpegOptions { quality: DEFAULT_QUALITY }
    }
}

/// Why encoding failed.
#[derive(Debug)]
pub enum EncodeError {
    /// The quality is outside `1..=100`.
    InvalidQuality { got: u8 },
    /// An axis exceeds JPEG's 16-bit limit.
    DimensionOverflow { got: u32, max: u32 },
    /// jpeg-encoder failed.
    Encode(jpeg_encoder::EncodingError),
}

impl Categorize for EncodeError {
    fn category(&self) -> (c: Category)
        ensures
            c == match self {
                EncodeError::Encode(_) => Category::Encode,
                _ => Category::Input,
            },
    {
        match self {
            EncodeError::InvalidQuality { .. } | EncodeError::DimensionOverflow { .. } => Category::Input,
            EncodeError::Encode(_) => Category::Encode,
        }
    }
}

/// Pixel `j` of an RGB8 buffer.
pub open spec fn rgb_at(data: Seq<u8>, j: int) -> (u8, u8, u8) {
    (data[3 * j], data[3 * j + 1], data[3 * j + 2])
}

/// Pack an RGBA8 buffer into RGB8 by dropping every alpha sample.
pub fn drop_alpha(pixels: &Pixels) -> (out: Vec<u8>)
    ensures
        ({
            let n = pixels.spec_width() * pixels.spec_height();
            &&& out@.len() == 3 * n
            &&& forall|j: int|
                0 <= j < n ==> #[trigger] rgb_at(out@, j) == (
                    rgba_at(pixels.spec_data(), j).0,
                    rgba_at(pixels.spec_data(), j).1,
                    rgba_at(pixels.spec_data(), j).2,
                )
        }),
{
    let rgba = pixels.as_rgba8();
    let w = pixels.width() as usize;
    let h = pixels.height() as usize;
    let ghost n = w * h;
    assert(rgba@.len() == 4 * n);
    let total = rgba.len();
    let pixel_count = total / 4;
    let mut out: Vec<u8> = Vec::new();
    let mut k: usize = 0;
    while k < pixel_count
        invariant
            pixel_count == n,
            total == rgba@.len(),
            rgba@.len() == 4 * n,
            rgba@ == pixels.spec_data(),
            k <= n,
            out@.len() == 3 * k,
            forall|j: int|
                0 <= j < k ==> #[trigger] rgb_at(out@, j) == (
                    rgba_at(rgba@, j).0,
                    rgba_at(rgba@, j).1,
                    rgba_at(rgba@, j).2,
                ),
        decreases pixel_count - k,
    {
        let base = 4 * k;
        let ghost before = out@;
        out.push(rgba[base]);
        out.push(rgba[base + 1]);
        out.push(rgba[base + 2]);
        assert forall|j: int| 0 <= j < k + 1 implies #[trigger] rgb_at(out@, j) == (
            rgba_at(rgba@, j).0,
            rgba_at(rgba@, j).1,
            rgba_at(rgba@, j).2,
        ) by {
            if j < k {
                assert(rgb_at(before, j) == rgb_at(out@, j));
            }
        }
        k = k + 1;
    }
    out
}

/// What the encoder is handed: packed RGB8 samples, the two axes, and
/// the quality.
pub struct JpegInput {
    pub rgb: Vec<u8>,
    pub width: u16,
    pub height: u16,
    pub quality: u8,
}

/// Check the options and dimensions and pack the samples for the encoder.
pub fn prepare_jpeg(pixels: &Pixels, opts: &JpegOptions) -> (r: Result<JpegInput, EncodeError>)
    ensures
        !(1 <= opts.quality <= 100) ==> (r matches Err(EncodeError::InvalidQuality { got })
            && got == opts.quality),
        (1 <= opts.quality <= 100 && pixels.spec_width() > MAX_DIMENSION) ==> (r matches Err(
            EncodeError::DimensionOverflow { got, max },
        ) && got == pixels.spec_width() && max == MAX_DIMENSION),
        (1 <= opts.quality <= 100 && pixels.spec_width() <= MAX_DIMENSION && pixels.spec_height()
            > MAX_DIMENSION) ==> (r matches Err(EncodeError::DimensionOverflow { got, max })
            && got == pixels.spec_height() && max == MAX_DIMENSION),
        r is Ok <==> (1 <= opts.quality <= 100 && pixels.spec_width() <= MAX_DIMENSION
            && pixels.spec_height() <= MAX_DIMENSION),
        r matches Ok(input) ==> {
            let n = pixels.spec_width() * pixels.spec_height();
            &&& input.width == pixels.spec_width()
            &&& input.height == pixels.spec_height()
            &&& input.quality == opts.quality
            &&& input.rgb@.len() == 3 * n
            &&& forall|j: int|
                0 <= j < n ==> #[trigger] rgb_at(input.rgb@, j) == (
                    rgba_at(pixels.spec_data(), j).0,
                    rgba_at(pixels.spec_data(), j).1,
                    rgba_at(pixels.spec_data(), j).2,
                )
        },
{
    if !(1 <= opts.quality && opts.quality <= 100) {
        return Err(EncodeError::InvalidQuality { got: opts.quality });
    }
    let width = pixels.width();
    let height = pixels.height();
    if width > MAX_DIMENSION {
        return Err(EncodeError::DimensionOverflow { got: width, max: MAX_DIMENSION });
    }
    if height > MAX_DIMENSION {
        return Err(EncodeError::DimensionOverflow { got: height, max: MAX_DIMENSION });
    }
    let rgb = drop_alpha(pixels);
    Ok(JpegInput { rgb, width: width as u16, height: height as u16, quality: opts.quality })
}

/// A JPEG stream's frame: at least four bytes, opening with the SOI
/// marker `FF D8` and closing with the EOI marker `FF D9`.
pub open spec fn jpeg_framed(b: Seq<u8>) -> bool {
    &&& b.len() >= 4
    &&& b[0] == 0xFFu8 && b[1] == 0xD8u8
    &&& b[b.len() - 2] == 0xFFu8 && b[b.len() - 1] == 0xD9u8
}

/// The bytes jpeg-encoder writes for `width × height` RGB8 samples `rgb`
/// at `quality`: a function of these alone (the crate is built without
/// its run-time SIMD paths).
pub uninterp spec fn jpeg_encoded(rgb: Seq<u8>, width: u16, height: u16, quality: u8) -> Seq<u8>;

/// `rgb` is the RGBA8 samples of `pixels` packed as RGB8, every alpha
/// sample dropped.
pub open spec fn packs_rgb(rgb: Seq<u8>, pixels: Pixels) -> bool {
    let n = pixels.spec_width() * pixels.spec_height();
    &&& rgb.len() == 3 * n
    &&& forall|j: int|
        0 <= j < n ==> #[trigger] rgb_at(rgb, j) == (
            rgba_at(pixels.spec_data(), j).0,
            rgba_at(pixels.spec_data(), j).1,
            rgba_at(pixels.spec_data(), j).2,
        )
}

/// jpeg-encoder: `Encoder::new(&mut out, quality).encode(rgb, width,
/// height, ColorType::Rgb)` into an in-memory buffer. The encoder refuses
/// only short sample data and a zero axis; its writer is a `Vec`, which
/// never fails, so every other input is encoded. The bytes are named by
/// [`jpeg_encoded`]; the encoder writes the SOI marker first and the EOI
/// marker last.
#[verifier::external_body]
fn encode_rgb(rgb: &[u8], width: u16, height: u16, quality: u8) -> (r: Result<
    Vec<u8>,
    jpeg_encoder::EncodingError,
>)
    requires
        width * height * 3 <= usize::MAX,
    ensures
        r is Ok <==> (width > 0 && height > 0 && rgb@.len() >= width * height * 3),
        r matches Ok(b) ==> b@ == jpeg_encoded(rgb@, width, height, quality) && jpeg_framed(b@),
{
    let mut out = Vec::with_capacity(rgb.len() / 4);
    jpeg_encoder::Encoder::new(&mut out, quality).encode(rgb, width, height, jpeg_encoder::ColorType::Rgb)?;
    Ok(out)
}

/// Encode `pixels` as JPEG: the checks of [`prepare_jpeg`], then the
/// encoder on the packed RGB samples.
pub fn jpeg(pixels: &Pixels, opts: &JpegOptions) -> (r: Result<Vec<u8>, EncodeError>)
    ensures
        !(1 <= opts.quality <= 100) ==> (r matches Err(EncodeError::InvalidQuality { got })
            && got == opts.quality),
        (1 <= opts.quality <= 100 && pixels.spec_width() > MAX_DIMENSION) ==> (r matches Err(
            EncodeError::DimensionOverflow { got, max },
        ) && got == pixels.spec_width() && max == MAX_DIMENSION),
        (1 <= opts.quality <= 100 && pixels.spec_width() <= MAX_DIMENSION && pixels.spec_height()
            > MAX_DIMENSION) ==> (r matches Err(EncodeError::DimensionOverflow { got, max })
            && got == pixels.spec_height() && max == MAX_DIMENSION),
        (1 <= opts.quality <= 100 && pixels.spec_width() <= MAX_DIMENSION && pixels.spec_height()
            <= MAX_DIMENSION) ==> r is Ok,
        r matches Ok(b) ==> jpeg_framed(b@) && exists|rgb: Seq<u8>| packs_rgb(rgb, *pixels)
            && b@ == jpeg_encoded(rgb, pixels.spec_width() as u16, pixels.spec_height() as u16, opts.quality),
{
    let (w, h) = pixels.dimensions();
    let input = prepare_jpeg(pixels, opts)?;
    let n: usize = input.rgb.len();
    assert(input.width * input.height * 3 == n) by (nonlinear_arith)
        requires
            input.width == w,
            input.height == h,
            n == 3 * (w * h),
    ;
    assert(packs_rgb(input.rgb@, *pixels));
    match encode_rgb(input.rgb.as_slice(), input.width, input.height, input.quality) {
        Ok(bytes) => Ok(bytes),
        Err(e) => Err(EncodeError::Encode(e)),
    }
}

} // verus!
