//! Sniff the input format from its first bytes.
//!
//! The HEIC family (an ISO BMFF `ftyp` box) is checked first, because the
//! `image` crate does not recognise it; everything else goes through
//! `image::guess_format`, filtered to the formats this build decodes.

use vstd::prelude::*;

verus! {

/// The formats `image` can name, one for one with `image::ImageFormat`.
#[derive(Copy, Clone, Debug, PartialEq, Eq, Structural, Hash)]
pub enum ImageFormatKind {
    Png,
    Jpeg,
    Gif,
    WebP,
    Pnm,
    Tiff,
    Tga,
    Dds,
    Bmp,
    Ico,
    Hdr,
    OpenExr,
    Farbfeld,
    Avif,
    Qoi,
    /// Any other variant of `image::ImageFormat`, those added later too.
    Unlisted,
}

/// What the sniffing concluded.
#[derive(Copy, Clone, Debug, PartialEq, Eq, Structural, Hash)]
pub enum DetectedFormat {
    /// HEIC / HEIF family.
    Heic,
    /// A format the `image` crate decodes in this build.
    Image(ImageFormatKind),
    /// Anything else.
    Unknown,
}

/// The format `image::guess_format` reads from the leading magic bytes.
pub uninterp spec fn guessed_format(bytes: Seq<u8>) -> Option<ImageFormatKind>;

/// `image::guess_format`, its format converted variant by variant.
#[verifier::external_body]
fn guess_format(bytes: &[u8]) -> (r: Option<ImageFormatKind>)
    ensures
        r == guessed_format(bytes@),
{
    Some(match image::guess_format(bytes).ok()? {
        image::ImageFormat::Png => ImageFormatKind::Png, image::ImageFormat::Jpeg => ImageFormatKind::Jpeg,
        image::ImageFormat::Gif => ImageFormatKind::Gif, image::ImageFormat::WebP => ImageFormatKind::WebP,
        image::ImageFormat::Pnm => ImageFormatKind::Pnm, image::ImageFormat::Tiff => ImageFormatKind::Tiff,
        image::ImageFormat::Tga => ImageFormatKind::Tga, image::ImageFormat::Dds => ImageFormatKind::Dds,
        image::ImageFormat::Bmp => ImageFormatKind::Bmp, image::ImageFormat::Ico => ImageFormatKind::Ico,
        image::ImageFormat::Hdr => ImageFormatKind::Hdr, image::ImageFormat::OpenExr => ImageFormatKind::OpenExr,
        image::ImageFormat::Farbfeld => ImageFormatKind::Farbfeld, image::ImageFormat::Avif => ImageFormatKind::Avif,
        image::ImageFormat::Qoi => ImageFormatKind::Qoi,
        _ => ImageFormatKind::Unlisted,
    })
}

/// The formats this build decodes through `image`.
pub open spec fn spec_is_supported(fmt: ImageFormatKind) -> bool {
    fmt == ImageFormatKind::Jpeg || fmt == ImageFormatKind::Png || fmt == ImageFormatKind::Tiff
        || fmt == ImageFormatKind::Bmp || fmt == ImageFormatKind::WebP
}

/// `true` for JPEG, PNG, TIFF, BMP and WebP.
pub fn is_supported(fmt: ImageFormatKind) -> (b: bool)
    ensures
        b == spec_is_supported(fmt),
{
    match fmt {
        ImageFormatKind::Jpeg | ImageFormatKind::Png | ImageFormatKind::Tiff
        | ImageFormatKind::Bmp | ImageFormatKind::WebP => true,
        _ => false,
    }
}

/// The HEIF major brands treated as HEIC (AVIF is deliberately not one).
pub open spec fn is_heic_brand(b: Seq<u8>) -> bool {
    ||| b == seq![0x68u8, 0x65u8, 0x69u8, 0x63u8]  // "heic"
    ||| b == seq![0x68u8, 0x65u8, 0x69u8, 0x78u8]  // "heix"
    ||| b == seq![0x68u8, 0x65u8, 0x76u8, 0x63u8]  // "hevc"
    ||| b == seq![0x68u8, 0x65u8, 0x76u8, 0x78u8]  // "hevx"
    ||| b == seq![0x68u8, 0x65u8, 0x69u8, 0x6du8]  // "heim"
    ||| b == seq![0x68u8, 0x65u8, 0x69u8, 0x73u8]  // "heis"
    ||| b == seq![0x68u8, 0x65u8, 0x76u8, 0x6du8]  // "hevm"
    ||| b == seq![0x68u8, 0x65u8, 0x76u8, 0x73u8]  // "hevs"
    ||| b == seq![0x6du8, 0x69u8, 0x66u8, 0x31u8]  // "mif1"
    ||| b == seq![0x6du8, 0x73u8, 0x66u8, 0x31u8]  // "msf1"
}

/// An ISO BMFF `ftyp` box with a HEIC major brand: `bytes[4..8]` is
/// `"ftyp"` and `bytes[8..12]` a HEIC brand.
pub open spec fn spec_is_heic(bytes: Seq<u8>) -> bool {
    &&& bytes.len() >= 12
    &&& bytes.subrange(4, 8) == seq![0x66u8, 0x74u8, 0x79u8, 0x70u8]  // "ftyp"
    &&& is_heic_brand(bytes.subrange(8, 12))
}

fn brand_is(bytes: &[u8], a: u8, b: u8, c: u8, d: u8) -> (r: bool)
    requires
        bytes@.len() >= 12,
    ensures
        r == (bytes@.subrange(8, 12) == seq![a, b, c, d]),
{
    let r = bytes[8] == a && bytes[9] == b && bytes[10] == c && bytes[11] == d;
    proof {
        if r {
            assert(bytes@.subrange(8, 12) =~= seq![a, b, c, d]);
        } else if bytes@.subrange(8, 12) == seq![a, b, c, d] {
            assert(bytes@.subrange(8, 12)[0] == bytes@[8]);
            assert(bytes@.subrange(8, 12)[1] == bytes@[9]);
            assert(bytes@.subrange(8, 12)[2] == bytes@[10]);
            assert(bytes@.subrange(8, 12)[3] == bytes@[11]);
        }
    }
    r
}

/// The `ftyp`-box check (see [`spec_is_heic`]).
pub fn is_heic(bytes: &[u8]) -> (b: bool)
    ensures
        b == spec_is_heic(bytes@),
{
    if bytes.len() < 12 {
        return false;
    }
    let ftyp = bytes[4] == 0x66u8 && bytes[5] == 0x74u8 && bytes[6] == 0x79u8 && bytes[7] == 0x70u8;
    proof {
        if ftyp {
            assert(bytes@.subrange(4, 8) =~= seq![0x66u8, 0x74u8, 0x79u8, 0x70u8]);
        } else if bytes@.subrange(4, 8) == seq![0x66u8, 0x74u8, 0x79u8, 0x70u8] {
            assert(bytes@.subrange(4, 8)[0] == bytes@[4]);
            assert(bytes@.subrange(4, 8)[1] == bytes@[5]);
            assert(bytes@.subrange(4, 8)[2] == bytes@[6]);
            assert(bytes@.subrange(4, 8)[3] == bytes@[7]);
        }
    }
    if !ftyp {
        return false;
    }
    brand_is(bytes, 0x68u8, 0x65u8, 0x69u8, 0x63u8) || brand_is(bytes, 0x68u8, 0x65u8, 0x69u8, 0x78u8)
        || brand_is(bytes, 0x68u8, 0x65u8, 0x76u8, 0x63u8) || brand_is(bytes, 0x68u8, 0x65u8, 0x76u8, 0x78u8)
        || brand_is(bytes, 0x68u8, 0x65u8, 0x69u8, 0x6du8) || brand_is(bytes, 0x68u8, 0x65u8, 0x69u8, 0x73u8)
        || brand_is(bytes, 0x68u8, 0x65u8, 0x76u8, 0x6du8) || brand_is(bytes, 0x68u8, 0x65u8, 0x76u8, 0x73u8)
        || brand_is(bytes, 0x6du8, 0x69u8, 0x66u8, 0x31u8) || brand_is(bytes, 0x6du8, 0x73u8, 0x66u8, 0x31u8)
}

/// HEIC first; then what `image` recognises, if this build decodes it.
pub open spec fn spec_detect(bytes: Seq<u8>) -> DetectedFormat {
    if spec_is_heic(bytes) {
        DetectedFormat::Heic
    } else {
        match guessed_format(bytes) {
            Some(fmt) => if spec_is_supported(fmt) {
                DetectedFormat::Image(fmt)
            } else {
                DetectedFormat::Unknown
            },
            None => DetectedFormat::Unknown,
        }
    }
}

/// Sniff the format of `bytes` (see [`spec_detect`]).
pub fn detect(bytes: &[u8]) -> (d: DetectedFormat)
    ensures
        d == spec_detect(bytes@),
{
    if is_heic(bytes) {
        return DetectedFormat::Heic;
    }
    match guess_format(bytes) {
        Some(fmt) => if is_supported(fmt) {
            DetectedFormat::Image(fmt)
        } else {
            DetectedFormat::Unknown
        },
        None => DetectedFormat::Unknown,
    }
}

/// The decodable formats are exactly JPEG, PNG, TIFF, BMP and WebP: an
/// input that is not HEIC and whose magic bytes name one of these goes to
/// the decoder as that format, and nothing else does.
pub proof fn lemma_detect_decodable_formats(bytes: Seq<u8>)
    requires
        !spec_is_heic(bytes),
    ensures
        forall|f: ImageFormatKind|
            guessed_format(bytes) == Some(f) && (f == ImageFormatKind::Jpeg || f == ImageFormatKind::Png
                || f == ImageFormatKind::Tiff || f == ImageFormatKind::Bmp || f == ImageFormatKind::WebP)
                ==> spec_detect(bytes) == DetectedFormat::Image(f),
        spec_detect(bytes) matches DetectedFormat::Image(f) ==> {
            &&& guessed_format(bytes) == Some(f)
            &&& (f == ImageFormatKind::Jpeg || f == ImageFormatKind::Png || f == ImageFormatKind::Tiff
                || f == ImageFormatKind::Bmp || f == ImageFormatKind::WebP)
        },
        spec_detect(bytes) != DetectedFormat::Heic,
{
}

/// The stable short name of each detected format.
pub open spec fn format_name(d: DetectedFormat) -> Seq<char> {
    match d {
        DetectedFormat::Heic => "heic"@,
        DetectedFormat::Image(ImageFormatKind::Jpeg) => "jpeg"@,
        DetectedFormat::Image(ImageFormatKind::Png) => "png"@,
        DetectedFormat::Image(ImageFormatKind::Tiff) => "tiff"@,
        DetectedFormat::Image(ImageFormatKind::Bmp) => "bmp"@,
        DetectedFormat::Image(ImageFormatKind::WebP) => "webp"@,
        DetectedFormat::Unknown => "unknown"@,
        DetectedFormat::Image(_) => "other"@,
    }
}

/// Short, stable name used in events: `jpeg`, `png`, `tiff`, `bmp`,
/// `webp`, `heic`, `unknown` (`other` for a format `detect` never yields).
pub fn name(detected: DetectedFormat) -> (s: &'static str)
    ensures
        s@ == format_name(detected),
{
    match detected {
        DetectedFormat::Heic => "heic",
        DetectedFormat::Image(ImageFormatKind::Jpeg) => "jpeg",
        DetectedFormat::Image(ImageFormatKind::Png) => "png",
        DetectedFormat::Image(ImageFormatKind::Tiff) => "tiff",
        DetectedFormat::Image(ImageFormatKind::Bmp) => "bmp",
        DetectedFormat::Image(ImageFormatKind::WebP) => "webp",
        DetectedFormat::Unknown => "unknown",
        DetectedFormat::Image(_) => "other",
    }
}

/// `detect` never names a format this build cannot decode.
pub proof fn lemma_detect_only_supported(bytes: Seq<u8>)
    ensures
        spec_detect(bytes) matches DetectedFormat::Image(fmt) ==> spec_is_supported(fmt),
        spec_detect(bytes) matches DetectedFormat::Image(fmt) ==> format_name(spec_detect(bytes))
            != "other"@,
{
    reveal_strlit("other");
    reveal_strlit("jpeg");
    reveal_strlit("png");
    reveal_strlit("tiff");
    reveal_strlit("bmp");
    reveal_strlit("webp");
    assert("other"@.len() == 5);
    assert("other"@[0] != "jpeg"@[0]);
    assert("other"@.len() != "png"@.len());
    assert("other"@[0] != "tiff"@[0]);
    assert("other"@.len() != "bmp"@.len());
    assert("other"@[0] != "webp"@[0]);
}

} // verus!
