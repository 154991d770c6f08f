//! Input bytes to a canonical [`Photograph`]: format detection, pixel
//! decoding, EXIF orientation and provenance.
//!
//! JPEG goes through zune-jpeg, every other raster format through the
//! `image` crate; HEIC needs a decoder this build does not carry.

use vstd::prelude::*;
use zune_core::bytestream::ZCursor;
use zune_core::colorspace::ColorSpace;
use zune_core::options::DecoderOptions;
use zune_jpeg::JpegDecoder;
use crate::category::{Categorize, Category};
use crate::exif::{orientation_value, read, container_outcome, spec_uint, ExifReadOutcome, ExifTag, TagContext, TAG_ORIENTATION};
use crate::format::{detect, guessed_format, lemma_detect_decodable_formats, spec_detect, spec_is_heic, DetectedFormat, ImageFormatKind};
use crate::orientation::{normalize, spec_orientation, upright, upright_size, Orientation};
use crate::photograph::{extract, provenance_of, Photograph, Provenance};
use crate::pixels::{PixelError, Pixels};

verus! {

#[verifier::external_type_specification]
#[verifier::external_body]
pub struct ExJpegDecodeErrors(zune_jpeg::errors::DecodeErrors);

/// Every reason [`from_bytes`] fails.
#[derive(Debug)]
pub enum DecodeError {
    /// The input is empty.
    EmptyInput,
    /// No supported format recognised the bytes.
    UnknownFormat,
    /// HEIC/HEIF input, which this build cannot decode.
    HeifFeatureDisabled,
    /// The `image` crate rejected the bytes.
    Decode(image::ImageError),
    /// zune-jpeg rejected the bytes.
    JpegDecode(zune_jpeg::errors::DecodeErrors),
    /// The decoder's buffer disagrees with its dimensions.
    InvalidPixels(PixelError),
}

/// The category of each decode failure.
pub open spec fn decode_category(e: DecodeError) -> Category {
    match e {
        DecodeError::EmptyInput | DecodeError::UnknownFormat | DecodeError::HeifFeatureDisabled => Category::Input,
        DecodeError::Decode(_) | DecodeError::JpegDecode(_) => Category::Decode,
        DecodeError::InvalidPixels(_) => Category::Internal,
    }
}

impl Categorize for DecodeError {
    /// Input for bad or unsupported bytes, Decode for a decoder's
    /// refusal, Internal for an inconsistent buffer.
    fn category(&self) -> (c: Category)
        ensures
            c == decode_category(*self),
    {
        match self {
            DecodeError::EmptyInput | DecodeError::UnknownFormat | DecodeError::HeifFeatureDisabled => Category::Input,
            DecodeError::Decode(_) | DecodeError::JpegDecode(_) => Category::Decode,
            DecodeError::InvalidPixels(_) => Category::Internal,
        }
    }
}

/// The turn a raw EXIF `Orientation` value asks for: absent, `0`, out of
/// range and `1` leave the pixels as they are.
pub open spec fn orientation_for(raw: Option<u32>) -> Orientation {
    match raw {
        Some(v) => spec_orientation(v as int),
        None => Orientation::Normal,
    }
}

/// Apply the EXIF orientation value to the pixels.
pub fn apply(pixels: Pixels, raw: Option<u32>) -> (out: Pixels)
    ensures
        (out.spec_width() as int, out.spec_height() as int) == upright_size(
            orientation_for(raw),
            pixels.spec_width() as int,
            pixels.spec_height() as int,
        ),
        out.spec_data() == upright(
            orientation_for(raw),
            pixels.spec_width() as int,
            pixels.spec_height() as int,
            pixels.spec_data(),
        ),
{
    let o = match raw {
        Some(v) => if v <= 8 {
            Orientation::from_raw(v as u16)
        } else {
            Orientation::Normal
        },
        None => Orientation::Normal,
    };
    normalize(pixels, o)
}

/// The raw `Orientation` value of the EXIF the container holds.
pub open spec fn container_orientation(bytes: Seq<u8>) -> Option<u32> {
    match container_outcome(bytes) {
        ExifReadOutcome::Parsed(e) => spec_uint(e, ExifTag { context: TagContext::Tiff, number: TAG_ORIENTATION }),
        _ => None,
    }
}

/// `p` is the photograph whose decoded, not yet upright, pixels are the
/// `width × height` RGBA8 buffer `rgba`, read out of the container
/// `bytes`: the pixels turned as its EXIF says, with its provenance.
pub open spec fn assembled(bytes: Seq<u8>, width: u32, height: u32, rgba: Seq<u8>, p: Photograph) -> bool {
    let o = orientation_for(container_orientation(bytes));
    &&& (p.pixels.spec_width() as int, p.pixels.spec_height() as int) == upright_size(o, width as int, height as int)
    &&& p.pixels.spec_data() == upright(o, width as int, height as int, rgba)
    &&& match container_outcome(bytes) {
        ExifReadOutcome::Parsed(e) => provenance_of(e, p.provenance),
        _ => p.provenance == Provenance { camera: None, lens: None, exposure: None, captured_at: None },
    }
}

/// Build the photograph out of a decoder's `width × height` RGBA8 output
/// for `bytes`: EXIF orientation applied, provenance read; a buffer of
/// the wrong size is an internal error.
pub fn assemble(bytes: &[u8], width: u32, height: u32, rgba: Vec<u8>) -> (r: Result<Photograph, DecodeError>)
    requires
        width * height * 4 <= usize::MAX,
    ensures
        r is Ok <==> (width > 0 && height > 0 && rgba@.len() == width * height * 4),
        r matches Ok(p) ==> assembled(bytes@, width, height, rgba@, p),
        r matches Err(e) ==> e is InvalidPixels,
{
    let pixels = match Pixels::from_rgba8(width, height, rgba) {
        Ok(p) => p,
        Err(e) => return Err(DecodeError::InvalidPixels(e)),
    };
    let outcome = read(bytes);
    let raw = orientation_value(outcome.as_parsed());
    let upright_pixels = apply(pixels, raw);
    let provenance = match outcome.as_parsed() {
        Some(e) => extract(e),
        None => Provenance { camera: None, lens: None, exposure: None, captured_at: None },
    };
    Ok(Photograph::new(upright_pixels, provenance))
}

/// What zune-jpeg decodes `bytes` to with RGBA output (width, height and
/// samples), or `None` where it refuses them: a function of the bytes
/// alone. Its SIMD kernels (IDCT, upsampling, colour conversion) compute
/// the same integer formulas as its scalar ones.
pub uninterp spec fn zune_decoded(bytes: Seq<u8>) -> Option<(u32, u32, Seq<u8>)>;

/// zune-jpeg `JpegDecoder::decode` with RGBA output: the image's width,
/// height and pixel bytes, or zune's error, as named by
/// [`zune_decoded`]. zune-jpeg refuses a zero axis in the frame header,
/// reads each axis as 16 bits, and allocates exactly `width · height · 4`
/// bytes for RGBA output.
#[verifier::external_body]
fn zune_decode_rgba8(bytes: &[u8]) -> (r: Result<(u32, u32, Vec<u8>), zune_jpeg::errors::DecodeErrors>)
    ensures
        r is Ok <==> zune_decoded(bytes@) is Some,
        r matches Ok(d) ==> zune_decoded(bytes@) == Some((d.0, d.1, d.2@)),
        r matches Ok(d) ==> 1 <= d.0 <= 65535 && 1 <= d.1 <= 65535 && d.2@.len() == d.0 * d.1 * 4,
{
    let options = DecoderOptions::default().jpeg_set_out_colorspace(ColorSpace::RGBA);
    let mut decoder = JpegDecoder::new_with_options(ZCursor::new(bytes), options);
    let rgba = decoder.decode()?;
    let info = decoder.info().expect("zune-jpeg: info populated after successful decode");
    Ok((u32::from(info.width), u32::from(info.height), rgba))
}

/// What the `image` crate decodes `bytes` to, converted to RGBA8 (width,
/// height and samples), or `None` where it refuses them: a function of
/// the bytes alone.
pub uninterp spec fn image_decoded(bytes: Seq<u8>) -> Option<(u32, u32, Seq<u8>)>;

/// `image::load_from_memory` (format guessed from the magic bytes, as
/// `image::guess_format` does), converted to RGBA8: width, height and
/// pixel bytes, or the `image` error, as named by [`image_decoded`]. The
/// decoders allocate exactly `width · height · bytes-per-pixel`, and the
/// conversion keeps or rebuilds an exactly sized buffer.
#[verifier::external_body]
pub(crate) fn image_decode_rgba8(bytes: &[u8]) -> (r: Result<(u32, u32, Vec<u8>), image::ImageError>)
    ensures
        r is Ok <==> image_decoded(bytes@) is Some,
        r matches Ok(d) ==> image_decoded(bytes@) == Some((d.0, d.1, d.2@)),
        r matches Ok(d) ==> d.2@.len() == d.0 * d.1 * 4,
{
    let rgba = image::load_from_memory(bytes)?.into_rgba8();
    let (width, height) = rgba.dimensions();
    Ok((width, height, rgba.into_raw()))
}

/// What decoding `bytes` gives (see [`from_bytes`]): the library's own
/// refusals, then whether the decoder accepts the bytes, and the
/// photograph assembled from exactly what it decoded.
pub open spec fn decode_outcome(bytes: Seq<u8>, r: Result<Photograph, DecodeError>) -> bool {
    let jpeg = DetectedFormat::Image(ImageFormatKind::Jpeg);
    &&& (bytes.len() == 0 ==> r matches Err(DecodeError::EmptyInput))
    &&& (bytes.len() > 0 && spec_detect(bytes) is Unknown ==> r matches Err(DecodeError::UnknownFormat))
    &&& (bytes.len() > 0 && spec_detect(bytes) is Heic ==> r matches Err(DecodeError::HeifFeatureDisabled))
    &&& (bytes.len() > 0 && spec_detect(bytes) == jpeg ==> {
        &&& (r is Ok || r matches Err(DecodeError::JpegDecode(_)))
        &&& (r is Ok <==> zune_decoded(bytes) is Some)
        &&& (r matches Ok(p) ==> (zune_decoded(bytes) matches Some((w, h, rgba))
            && assembled(bytes, w, h, rgba, p)))
    })
    &&& (bytes.len() > 0 && spec_detect(bytes) is Image && spec_detect(bytes) != jpeg ==> {
        &&& (r is Ok || r matches Err(DecodeError::Decode(_)) || r matches Err(DecodeError::InvalidPixels(_)))
        &&& (r matches Err(DecodeError::Decode(_)) <==> image_decoded(bytes) is None)
        &&& (r is Ok <==> (image_decoded(bytes) matches Some((w, h, _)) && w > 0 && h > 0))
        &&& (r matches Ok(p) ==> (image_decoded(bytes) matches Some((w, h, rgba))
            && assembled(bytes, w, h, rgba, p)))
    })
    &&& (r matches Ok(p) ==> exists|w: u32, h: u32, rgba: Seq<u8>| assembled(bytes, w, h, rgba, p))
}

/// A non-empty, non-HEIC input whose magic bytes name JPEG, PNG, TIFF, BMP
/// or WebP is never refused as an unknown format: it succeeds exactly when
/// its decoder (zune-jpeg for JPEG, the `image` crate otherwise) accepts it.
pub proof fn lemma_supported_inputs_reach_decoder(bytes: Seq<u8>, r: Result<Photograph, DecodeError>)
    requires
        decode_outcome(bytes, r),
        bytes.len() > 0,
        !spec_is_heic(bytes),
        guessed_format(bytes) matches Some(f) && (f == ImageFormatKind::Jpeg || f == ImageFormatKind::Png
            || f == ImageFormatKind::Tiff || f == ImageFormatKind::Bmp || f == ImageFormatKind::WebP),
    ensures
        !(r matches Err(DecodeError::UnknownFormat)),
        !(r matches Err(DecodeError::HeifFeatureDisabled)),
        guessed_format(bytes) == Some(ImageFormatKind::Jpeg) ==> (r is Ok <==> zune_decoded(bytes) is Some),
        guessed_format(bytes) != Some(ImageFormatKind::Jpeg) ==> (r is Ok <==> (image_decoded(bytes) matches Some((w, h, _))
            && w > 0 && h > 0)),
{
    lemma_detect_decodable_formats(bytes);
}

/// Decoding is determined by the bytes: two outcomes of the same bytes
/// agree on whether they succeed, and when they do, hold the same pixels.
pub proof fn lemma_decode_outcome_determined(
    bytes: Seq<u8>,
    r1: Result<Photograph, DecodeError>,
    r2: Result<Photograph, DecodeError>,
)
    requires
        decode_outcome(bytes, r1),
        decode_outcome(bytes, r2),
    ensures
        r1 is Ok <==> r2 is Ok,
        r1 matches Ok(p1) ==> r2 matches Ok(p2) && {
            &&& p1.pixels.spec_width() == p2.pixels.spec_width()
            &&& p1.pixels.spec_height() == p2.pixels.spec_height()
            &&& p1.pixels.spec_data() == p2.pixels.spec_data()
        },
{
}

/// Decode an image into a [`Photograph`]: RGBA8, row-major, EXIF
/// orientation applied, provenance read (malformed or missing EXIF gives
/// an empty provenance, never an error). JPEG goes through zune-jpeg,
/// every other raster format through the `image` crate.
pub fn from_bytes(bytes: &[u8]) -> (r: Result<Photograph, DecodeError>)
    ensures
        decode_outcome(bytes@, r),
{
    if bytes.len() == 0 {
        return Err(DecodeError::EmptyInput);
    }
    match detect(bytes) {
        DetectedFormat::Heic => Err(DecodeError::HeifFeatureDisabled),
        DetectedFormat::Unknown => Err(DecodeError::UnknownFormat),
        DetectedFormat::Image(fmt) => {
            let decoded = if fmt == ImageFormatKind::Jpeg {
                match zune_decode_rgba8(bytes) {
                    Ok(d) => d,
                    Err(e) => return Err(DecodeError::JpegDecode(e)),
                }
            } else {
                match image_decode_rgba8(bytes) {
                    Ok(d) => d,
                    Err(e) => return Err(DecodeError::Decode(e)),
                }
            };
            let (width, height, rgba) = decoded;
            let n: usize = rgba.len();
            let ghost data = rgba@;
            let r = assemble(bytes, width, height, rgba);
            proof {
                if r is Ok {
                    let p = r->Ok_0;
                    assert(assembled(bytes@, width, height, data, p));
                }
            }
            r
        },
    }
}

} // verus!
