//! The classic one-call framing pipeline: decode → upright → downscale →
//! caption choice → layout → compose → JPEG.
//!
//! The pixel work (decoding, turning, resampling, drawing text, encoding)
//! is done by the caller between these steps; this module holds every
//! decision the pipeline takes and the errors it reports.

use std::ops::RangeInclusive;
use vstd::prelude::*;
use image::imageops::FilterType;
use crate::canvas::{paste_on_background, pasted};
use crate::decode::{image_decode_rgba8, image_decoded};
use crate::encode::{drop_alpha, jpeg_framed, rgb_at};
use crate::exif::{read, ExifReadOutcome};
use crate::geometry::{
    canvas_fits, compute, is_layout_for, layout_fits, lemma_bottom_for_mono, lemma_side_for_mono,
    min_int, spec_side_for, spec_strip_for, Layout,
};
use crate::caption::opt_chars;
use crate::text::{decimal, push_decimal, push_str};
use crate::geometry::MetaLayout;
use crate::meta::{meta_is_empty, spec_exposure_line, Meta};
use crate::orientation::{normalize, upright, upright_size, Orientation};
use crate::pixels::{rgba_at, Pixels};
pub use crate::spec::MetaPolicy;

verus! {

#[verifier::external_type_specification]
#[verifier::external_body]
pub struct ExImageError(image::ImageError);

/// Stable error category; the numbers are the CLI exit codes.
#[derive(Copy, Clone, Debug, PartialEq, Eq, Structural)]
pub enum ErrorCategory {
    /// Invalid arguments or options.
    Input,
    /// The input bytes are not a supported image.
    Decode,
    /// The output image could not be produced.
    Encode,
    /// A geometry / layout dead end.
    Layout,
}

/// The exit code of each category.
pub open spec fn category_code(c: ErrorCategory) -> i32 {
    match c {
        ErrorCategory::Input => 2,
        ErrorCategory::Decode => 3,
        ErrorCategory::Encode => 4,
        ErrorCategory::Layout => 5,
    }
}

impl ErrorCategory {
    /// The exit code: 2 input, 3 decode, 4 encode, 5 layout.
    pub fn exit_code(self) -> (code: i32)
        ensures
            code == category_code(self),
    {
        match self {
            ErrorCategory::Input => 2,
            ErrorCategory::Decode => 3,
            ErrorCategory::Encode => 4,
            ErrorCategory::Layout => 5,
        }
    }
}

/// Every way the pipeline fails.
#[derive(Debug)]
pub enum FrameError {
    /// The input is empty.
    EmptyInput,
    /// JPEG quality outside its range.
    QualityOutOfRange { got: u8, valid: RangeInclusive<u8> },
    /// The image decoder rejected the input.
    Decode(image::ImageError),
    /// The (downscaled) image has a zero axis.
    ZeroDimension { width: u32, height: u32 },
    /// The JPEG encoder failed.
    Encode(image::ImageError),
}

/// The category of each error.
pub open spec fn frame_error_category(e: FrameError) -> ErrorCategory {
    match e {
        FrameError::EmptyInput | FrameError::QualityOutOfRange { .. } => ErrorCategory::Input,
        FrameError::Decode(_) => ErrorCategory::Decode,
        FrameError::ZeroDimension { .. } => ErrorCategory::Layout,
        FrameError::Encode(_) => ErrorCategory::Encode,
    }
}

/// std's `RangeInclusive::start`: the lower bound the range was built
/// with.
pub assume_specification<Idx>[ RangeInclusive::<Idx>::start ](range: &RangeInclusive<Idx>) -> (s: &Idx)
    ensures
        *s == range@.start,
;

/// std's `RangeInclusive::end`: the upper bound the range was built
/// with.
pub assume_specification<Idx>[ RangeInclusive::<Idx>::end ](range: &RangeInclusive<Idx>) -> (e: &Idx)
    ensures
        *e == range@.end,
;

/// The text each error reads as.
pub open spec fn frame_error_text(e: FrameError) -> Seq<char> {
    match e {
        FrameError::EmptyInput => "input is empty (0 bytes)"@,
        FrameError::QualityOutOfRange { got, valid } => "JPEG quality "@ + decimal(got as nat)
            + " is out of range; must be within "@ + decimal(valid@.start as nat) + " ..= "@
            + decimal(valid@.end as nat),
        FrameError::Decode(_) => "failed to decode input image as JPEG/PNG"@,
        FrameError::ZeroDimension { width, height } => "image dimensions are degenerate after decode: "@
            + decimal(width as nat) + " x "@ + decimal(height as nat),
        FrameError::Encode(_) => "failed to encode output JPEG"@,
    }
}

impl FrameError {
    /// The error's message (see [`frame_error_text`]).
    pub fn message(&self) -> (m: String)
        ensures
            m@ == frame_error_text(*self),
    {
        let mut m = String::new();
        match self {
            FrameError::EmptyInput => push_str(&mut m, "input is empty (0 bytes)"),
            FrameError::QualityOutOfRange { got, valid } => {
                push_str(&mut m, "JPEG quality ");
                push_decimal(&mut m, *got as u32);
                push_str(&mut m, " is out of range; must be within ");
                push_decimal(&mut m, *valid.start() as u32);
                push_str(&mut m, " ..= ");
                push_decimal(&mut m, *valid.end() as u32);
            },
            FrameError::Decode(_) => push_str(&mut m, "failed to decode input image as JPEG/PNG"),
            FrameError::ZeroDimension { width, height } => {
                push_str(&mut m, "image dimensions are degenerate after decode: ");
                push_decimal(&mut m, *width);
                push_str(&mut m, " x ");
                push_decimal(&mut m, *height);
            },
            FrameError::Encode(_) => push_str(&mut m, "failed to encode output JPEG"),
        }
        proof {
            assert(m@ =~= frame_error_text(*self));
        }
        m
    }

    /// Stable category, mapped to the CLI exit code.
    pub fn category(&self) -> (c: ErrorCategory)
        ensures
            c == frame_error_category(*self),
    {
        match self {
            FrameError::EmptyInput => ErrorCategory::Input,
            FrameError::QualityOutOfRange { .. } => ErrorCategory::Input,
            FrameError::Decode(_) => ErrorCategory::Decode,
            FrameError::ZeroDimension { .. } => ErrorCategory::Layout,
            FrameError::Encode(_) => ErrorCategory::Encode,
        }
    }
}

/// Solid RGB frame colour.
#[derive(Copy, Clone, Debug, PartialEq, Eq)]
pub struct Background([u8; 3]);

impl Background {
    /// The channels.
    pub closed spec fn channels(self) -> Seq<u8> {
        self.0@
    }

    /// Paper white.
    pub fn white() -> (b: Self)
        ensures
            b.channels() == seq![255u8, 255u8, 255u8],
    {
        Background([255, 255, 255])
    }

    /// From explicit channels.
    pub fn from_rgb(r: u8, g: u8, b: u8) -> (bg: Self)
        ensures
            bg.channels() == seq![r, g, b],
    {
        Background([r, g, b])
    }

    /// The channels as `[r, g, b]`.
    pub fn rgb(self) -> (c: [u8; 3])
        ensures
            c@ == self.channels(),
    {
        self.0
    }
}

impl Default for Background {
    fn default() -> (b: Self)
        ensures
            b.channels() == seq![255u8, 255u8, 255u8],
    {
        Background::white()
    }
}

/// Options of the one-call pipeline.
#[derive(Clone, Debug)]
pub struct FrameOptions {
    /// JPEG quality, `1..=100`.
    pub jpeg_quality: u8,
    /// Frame fill colour.
    pub background: Background,
    /// Whether the metadata strip is drawn.
    pub meta_policy: MetaPolicy,
    /// Downscale so the longer edge is at most this many pixels.
    pub max_long_edge: Option<u32>,
}

impl Default for FrameOptions {
    fn default() -> (o: Self)
        ensures
            o.jpeg_quality == 92,
            o.background.channels() == seq![255u8, 255u8, 255u8],
            o.meta_policy == MetaPolicy::Auto,
            o.max_long_edge is None,
    {
        FrameOptions {
            jpeg_quality: 92,
            background: Background::white(),
            meta_policy: MetaPolicy::Auto,
            max_long_edge: None,
        }
    }
}

/// An empty input is refused before any decoding.
pub fn check_input(bytes: &[u8]) -> (r: Result<(), FrameError>)
    ensures
        bytes@.len() == 0 ==> r matches Err(FrameError::EmptyInput),
        bytes@.len() > 0 ==> r is Ok,
{
    if bytes.len() == 0 {
        Err(FrameError::EmptyInput)
    } else {
        Ok(())
    }
}

/// JPEG quality must be within `1..=100`.
pub fn check_quality(quality: u8) -> (r: Result<(), FrameError>)
    ensures
        (1 <= quality <= 100) ==> r is Ok,
        !(1 <= quality <= 100) ==> (r matches Err(FrameError::QualityOutOfRange { got, valid })
            && got == quality && valid@.start == 1 && valid@.end == 100),
{
    if 1 <= quality && quality <= 100 {
        Ok(())
    } else {
        Err(FrameError::QualityOutOfRange { got: quality, valid: RangeInclusive::new(1, 100) })
    }
}

/// The bytes image's JPEG encoder writes for `width × height` RGB8
/// samples `rgb` at `quality`: a function of these alone.
pub uninterp spec fn image_jpeg_encoded(rgb: Seq<u8>, width: u32, height: u32, quality: u8) -> Seq<u8>;

/// image's `JpegEncoder::new_with_quality(&mut out, quality)` (quality
/// clamped to `1..=100` by the encoder) then
/// `write_image(rgb, width, height, ExtendedColorType::Rgb8)` into an
/// in-memory buffer. The source panics on a buffer of the wrong length,
/// which `requires` excludes, refuses an axis outside `1..=65535`, and
/// cannot fail writing to a `Vec`. The bytes are named by
/// [`image_jpeg_encoded`]; the encoder writes the SOI marker first and
/// the EOI marker last.
#[verifier::external_body]
pub(crate) fn encode_rgb8_jpeg(rgb: &[u8], width: u32, height: u32, quality: u8) -> (r: Result<Vec<u8>, image::ImageError>)
    requires
        rgb@.len() == width * height * 3,
    ensures
        r is Ok <==> (1 <= width <= 65535 && 1 <= height <= 65535),
        r matches Ok(b) ==> b@ == image_jpeg_encoded(rgb@, width, height, quality) && jpeg_framed(b@),
{
    let mut out = Vec::new();
    let encoder = image::codecs::jpeg::JpegEncoder::new_with_quality(&mut out, quality);
    image::ImageEncoder::write_image(encoder, rgb, width, height, image::ExtendedColorType::Rgb8)?;
    Ok(out)
}

/// `round(v · max / long)` with ties up, at least 1.
pub open spec fn scaled_axis(v: int, max: int, long: int) -> int {
    let r = (2 * v * max + long) / (2 * long);
    if r < 1 { 1 } else { r }
}

/// The size after the optional downscale: unchanged without a cap or
/// when the longer edge already fits; otherwise both axes scaled by
/// `max / long` and rounded, never below 1.
pub open spec fn spec_downscale(w: int, h: int, max_long_edge: Option<u32>) -> (int, int) {
    let long = if w >= h { w } else { h };
    match max_long_edge {
        Some(max) if long > max => (scaled_axis(w, max as int, long), scaled_axis(h, max as int, long)),
        _ => (w, h),
    }
}

/// Downscaling never grows an axis, never empties one, and brings the
/// longer edge within the cap (a cap of 0 still leaves one pixel).
pub proof fn lemma_downscale_bounds(w: int, h: int, max_long_edge: Option<u32>)
    requires
        w >= 1,
        h >= 1,
    ensures
        1 <= spec_downscale(w, h, max_long_edge).0 <= w,
        1 <= spec_downscale(w, h, max_long_edge).1 <= h,
        max_long_edge matches Some(max) ==> {
            &&& spec_downscale(w, h, max_long_edge).0 <= if max >= 1 { max as int } else { 1 }
            &&& spec_downscale(w, h, max_long_edge).1 <= if max >= 1 { max as int } else { 1 }
        },
{
    let long = if w >= h { w } else { h };
    if let Some(max) = max_long_edge {
        if long > max {
            lemma_scaled_axis_bounds(w, max as int, long);
            lemma_scaled_axis_bounds(h, max as int, long);
        }
    }
}

/// `1 <= scaled_axis(v, max, long) <= min(v, max)` (or `1` when `max` is
/// `0`) for `1 <= v <= long` and `max < long`.
proof fn lemma_scaled_axis_bounds(v: int, max: int, long: int)
    requires
        1 <= v <= long,
        0 <= max < long,
    ensures
        1 <= scaled_axis(v, max, long) <= v,
        scaled_axis(v, max, long) <= if max >= 1 { max } else { 1 },
{
    let q = (2 * v * max + long) / (2 * long);
    assert(q <= v) by (nonlinear_arith)
        requires
            q == (2 * v * max + long) / (2 * long),
            1 <= v <= long,
            0 <= max < long,
    {
        assert(2 * v * max + long < 2 * long * (v + 1));
    }
    assert(q <= max) by (nonlinear_arith)
        requires
            q == (2 * v * max + long) / (2 * long),
            1 <= v <= long,
            0 <= max < long,
    {
        assert(2 * v * max + long < 2 * long * (max + 1));
    }
}

fn scale_axis(v: u32, max: u32, long: u32) -> (r: u32)
    requires
        v <= long,
        max < long,
    ensures
        r == scaled_axis(v as int, max as int, long as int),
        1 <= r <= max || r == 1,
{
    let vv = v as u128;
    let mm = max as u128;
    let ll = long as u128;
    assert(vv * mm <= ll * mm && ll * mm < 0x1_0000_0000 * 0x1_0000_0000) by (nonlinear_arith)
        requires
            vv <= ll,
            mm < ll,
            ll < 0x1_0000_0000,
    ;
    let num = 2 * (vv * mm) + ll;
    let den = 2 * ll;
    let q = num / den;
    assert(q <= mm) by (nonlinear_arith)
        requires
            q == num / den,
            num == 2 * (vv * mm) + ll,
            den == 2 * ll,
            vv <= ll,
            mm < ll,
    ;
    assert(num == 2 * v * max + long) by (nonlinear_arith)
        requires
            num == 2 * (vv * mm) + ll,
            vv == v,
            mm == max,
            ll == long,
    ;
    if q < 1 {
        1
    } else {
        q as u32
    }
}

/// The size to resample to before framing (see [`spec_downscale`]).
pub fn downscale_dims(w: u32, h: u32, max_long_edge: Option<u32>) -> (d: (u32, u32))
    ensures
        d.0 == spec_downscale(w as int, h as int, max_long_edge).0,
        d.1 == spec_downscale(w as int, h as int, max_long_edge).1,
{
    let long = if w >= h { w } else { h };
    match max_long_edge {
        Some(max) => {
            if long > max {
                (scale_axis(w, max, long), scale_axis(h, max, long))
            } else {
                (w, h)
            }
        },
        None => (w, h),
    }
}

/// The caption facts that will be drawn: none under `Never`, and under
/// `Auto` only a non-empty set.
pub fn choose_visible_meta<'a>(policy: MetaPolicy, meta: Option<&'a Meta>) -> (r: Option<&'a Meta>)
    ensures
        policy == MetaPolicy::Never ==> r is None,
        policy == MetaPolicy::Auto ==> r == match meta {
            Some(m) => if meta_is_empty(*m) {
                None
            } else {
                Some(m)
            },
            None => None,
        },
{
    match policy {
        MetaPolicy::Never => None,
        MetaPolicy::Auto => match meta {
            Some(m) => if m.is_empty() {
                None
            } else {
                Some(m)
            },
            None => None,
        },
    }
}

/// Decode the input with the `image` crate (format guessed from the
/// magic bytes) into RGBA8, and read its EXIF if it holds one. The
/// pixels are exactly what the decoder gives (see [`image_decoded`]); a
/// decoded image with a zero axis is refused as such.
pub fn decode(bytes: &[u8]) -> (r: Result<(Pixels, Option<exif::Exif>), FrameError>)
    ensures
        r matches Ok((p, e)) ==> match crate::exif::container_outcome(bytes@) {
            ExifReadOutcome::Parsed(x) => e == Some(x),
            _ => e is None,
        },
        r matches Err(err) ==> err is Decode || err is ZeroDimension,
        r matches Err(FrameError::Decode(_)) <==> image_decoded(bytes@) is None,
        r is Ok <==> (image_decoded(bytes@) matches Some((w, h, _)) && w > 0 && h > 0),
        r matches Ok((p, _)) ==> image_decoded(bytes@) == Some((p.spec_width(), p.spec_height(), p.spec_data())),
{
    let (width, height, rgba) = match image_decode_rgba8(bytes) {
        Ok(d) => d,
        Err(e) => return Err(FrameError::Decode(e)),
    };
    let n: usize = rgba.len();
    let pixels = match Pixels::from_rgba8(width, height, rgba) {
        Ok(p) => p,
        Err(_) => return Err(FrameError::ZeroDimension { width, height }),
    };
    let exif = match read(bytes) {
        ExifReadOutcome::Parsed(e) => Some(e),
        _ => None,
    };
    Ok((pixels, exif))
}

/// The size image's `DynamicImage::resize` gives a `width × height`
/// image asked to fit `new_width × new_height` (its `resize_dimensions`
/// without fill): a function of these four alone.
pub uninterp spec fn image_resized_size(width: u32, height: u32, new_width: u32, new_height: u32) -> (u32, u32);

/// image's `DynamicImage::resize` with the Lanczos3 filter on an RGBA8
/// image: the image scaled, aspect ratio kept, to the largest size that
/// fits in `new_width × new_height` (each axis at least 1), as width,
/// height and the exactly sized RGBA8 buffer. The size is named by
/// [`image_resized_size`]; nothing is claimed of the resampled samples,
/// whose kernel rests on platform-dependent `f32::sin`.
#[verifier::external_body]
fn resize_to_fit_rgba8(src: &[u8], width: u32, height: u32, new_width: u32, new_height: u32) -> (r: (u32, u32, Vec<u8>))
    requires
        src@.len() == width * height * 4,
        width > 0 && height > 0,
        new_width > 0 && new_height > 0,
        (new_width, new_height) != (width, height),
    ensures
        (r.0, r.1) == image_resized_size(width, height, new_width, new_height),
        1 <= r.0 <= new_width,
        1 <= r.1 <= new_height,
        r.2@.len() == r.0 * r.1 * 4,
{
    let image = image::RgbaImage::from_raw(width, height, src.to_vec()).expect("sized by the caller");
    let resized = image::DynamicImage::ImageRgba8(image).resize(new_width, new_height, FilterType::Lanczos3).into_rgba8();
    let (w, h) = resized.dimensions();
    (w, h, resized.into_raw())
}

/// Downscale so the longer edge is at most `max_long_edge`; a photo that
/// already fits is returned as it is. The resampler keeps the aspect
/// ratio inside the [`spec_downscale`] box.
pub fn downscale(img: Pixels, max_long_edge: Option<u32>) -> (out: Pixels)
    ensures
        ({
            let d = spec_downscale(img.spec_width() as int, img.spec_height() as int, max_long_edge);
            &&& d == (img.spec_width() as int, img.spec_height() as int) ==> out == img
            &&& d != (img.spec_width() as int, img.spec_height() as int) ==> (out.spec_width(), out.spec_height())
                == image_resized_size(img.spec_width(), img.spec_height(), d.0 as u32, d.1 as u32)
            &&& 1 <= out.spec_width() <= d.0
            &&& 1 <= out.spec_height() <= d.1
        }),
{
    let (w, h) = img.dimensions();
    let (nw, nh) = downscale_dims(w, h, max_long_edge);
    proof {
        lemma_downscale_bounds(w as int, h as int, max_long_edge);
    }
    if nw == w && nh == h {
        return img;
    }
    let src = img.as_rgba8();
    let n: usize = src.len();
    let (rw, rh, data) = resize_to_fit_rgba8(src, w, h, nw, nh);
    let m: usize = data.len();
    match Pixels::from_rgba8(rw, rh, data) {
        Ok(p) => p,
        Err(_) => {
            assert(false);
            img
        },
    }
}

/// `canvas` is the RGB8 canvas of `layout` before captions: `bg`
/// everywhere, with the `pw × ph` RGBA8 photo `rgba`, alpha dropped,
/// laid at the layout's photo origin.
#[verifier::opaque]
pub open spec fn framed_canvas(canvas: Seq<u8>, layout: Layout, bg: Background, pw: int, ph: int, rgba: Seq<u8>) -> bool {
    exists|rgb: Seq<u8>| {
        &&& rgb.len() == pw * ph * 3
        &&& (forall|j: int| 0 <= j < pw * ph ==> #[trigger] rgb_at(rgb, j) == (
            rgba_at(rgba, j).0,
            rgba_at(rgba, j).1,
            rgba_at(rgba, j).2,
        ))
        &&& canvas == pasted(
            layout.canvas_size.0 as int,
            layout.canvas_size.1 as int,
            bg.channels(),
            rgb,
            pw,
            ph,
            layout.photo_origin.0 as int,
            layout.photo_origin.1 as int,
        )
    }
}

/// The framed canvas before captions: RGB8, the photo (alpha dropped)
/// laid on the background at the layout's origin.
pub fn render_canvas(layout: &Layout, photo: &Pixels, bg: Background) -> (canvas: Vec<u8>)
    requires
        layout.photo_origin.0 + photo.spec_width() <= layout.canvas_size.0,
        layout.photo_origin.1 + photo.spec_height() <= layout.canvas_size.1,
        layout.canvas_size.0 * layout.canvas_size.1 * 3 <= usize::MAX,
    ensures
        canvas@.len() == layout.canvas_size.0 * layout.canvas_size.1 * 3,
        framed_canvas(
            canvas@,
            *layout,
            bg,
            photo.spec_width() as int,
            photo.spec_height() as int,
            photo.spec_data(),
        ),
{
    let rgb = drop_alpha(photo);
    let colour = bg.rgb();
    let (w, h) = photo.dimensions();
    assert(rgb@.len() == w * h * 3);
    let canvas = paste_on_background(layout.canvas_size, &colour, rgb.as_slice(), (w, h), layout.photo_origin);
    assert(canvas@.len() == layout.canvas_size.0 * layout.canvas_size.1 * 3);
    proof {
        reveal(framed_canvas);
    }
    canvas
}

/// Everything the pipeline decided for one photo, ready for captions and
/// encoding: the RGB8 canvas, its layout and the caption facts to draw.
pub struct ClassicPlan {
    pub canvas: Vec<u8>,
    pub layout: Layout,
    pub meta: Option<Meta>,
    /// The size of the photo laid out: upright, downscaled.
    pub photo_size: (u32, u32),
}

/// Whether the caption facts are drawn: under `Auto`, when there are
/// some.
pub open spec fn shows_meta(policy: MetaPolicy, meta: Option<Meta>) -> bool {
    policy == MetaPolicy::Auto && match meta {
        Some(m) => !meta_is_empty(m),
        None => false,
    }
}

/// The framed canvas of a `w × h` photo (with or without the strip) fits
/// in `u32` pixels per axis, and its RGB8 bytes fit in memory.
pub open spec fn plan_fits(w: int, h: int, show_meta: bool) -> bool {
    let side = spec_side_for(min_int(w, h));
    let cw = w + 2 * side;
    let ch = h + side + spec_strip_for(side, show_meta);
    &&& layout_fits(w, h, show_meta)
    &&& cw * ch * 3 <= usize::MAX
}

/// A photo no larger on either axis frames to a canvas no larger on
/// either axis, so whatever fits for the larger photo fits for the
/// smaller one.
pub proof fn lemma_plan_fits_mono(w1: int, h1: int, w2: int, h2: int, show_meta: bool)
    requires
        1 <= w1 <= w2,
        1 <= h1 <= h2,
        plan_fits(w2, h2, show_meta),
    ensures
        plan_fits(w1, h1, show_meta),
{
    let s1 = spec_side_for(min_int(w1, h1));
    let s2 = spec_side_for(min_int(w2, h2));
    lemma_side_for_mono(min_int(w1, h1), min_int(w2, h2));
    lemma_bottom_for_mono(s1, s2);
    let cw1 = w1 + 2 * s1;
    let ch1 = h1 + s1 + spec_strip_for(s1, show_meta);
    let cw2 = w2 + 2 * s2;
    let ch2 = h2 + s2 + spec_strip_for(s2, show_meta);
    assert(cw1 * ch1 * 3 <= cw2 * ch2 * 3) by (nonlinear_arith)
        requires
            0 <= cw1 <= cw2,
            0 <= ch1 <= ch2,
    ;
}

/// Turn upright, downscale, choose the caption facts, lay out and
/// compose. `None` exactly when the framed canvas would not fit in
/// `u32` pixels per axis or in memory; it always fits when the canvas of
/// the downscaling box does.
#[verifier::spinoff_prover]
pub fn compose(photo: Pixels, orientation: Orientation, meta: Option<Meta>, opts: &FrameOptions) -> (r: Option<ClassicPlan>)
    ensures
        ({
            let u = upright_size(orientation, photo.spec_width() as int, photo.spec_height() as int);
            let d = spec_downscale(u.0, u.1, opts.max_long_edge);
            plan_fits(d.0, d.1, shows_meta(opts.meta_policy, meta)) ==> r is Some
        }),
        r matches Some(plan) ==> {
            &&& (plan.meta is Some <==> shows_meta(opts.meta_policy, meta))
            &&& (plan.meta is Some ==> plan.meta == meta)
            &&& plan.layout.meta is Some <==> plan.meta is Some
            &&& plan_fits(plan.photo_size.0 as int, plan.photo_size.1 as int, plan.meta is Some)
            &&& plan.canvas@.len() == plan.layout.canvas_size.0 * plan.layout.canvas_size.1 * 3
            &&& is_layout_for(plan.layout, plan.photo_size.0 as int, plan.photo_size.1 as int, plan.meta is Some)
            &&& exists|rgba: Seq<u8>| framed_canvas(
                plan.canvas@,
                plan.layout,
                opts.background,
                plan.photo_size.0 as int,
                plan.photo_size.1 as int,
                rgba,
            )
            &&& ({
                let u = upright_size(orientation, photo.spec_width() as int, photo.spec_height() as int);
                let d = spec_downscale(u.0, u.1, opts.max_long_edge);
                &&& 1 <= plan.photo_size.0 <= d.0
                &&& 1 <= plan.photo_size.1 <= d.1
                &&& (d == u ==> plan.photo_size == (u.0 as u32, u.1 as u32))
                &&& (d != u ==> plan.photo_size == image_resized_size(u.0 as u32, u.1 as u32, d.0 as u32, d.1 as u32))
            })
        },
        // without a downscale the photo laid on the canvas is the upright input
        r matches Some(plan) ==> ({
            let u = upright_size(orientation, photo.spec_width() as int, photo.spec_height() as int);
            spec_downscale(u.0, u.1, opts.max_long_edge) == u ==> framed_canvas(
                plan.canvas@,
                plan.layout,
                opts.background,
                u.0,
                u.1,
                upright(orientation, photo.spec_width() as int, photo.spec_height() as int, photo.spec_data()),
            )
        }),
{
    let upright_photo = normalize(photo, orientation);
    let small = downscale(upright_photo, opts.max_long_edge);
    let show = choose_visible_meta(opts.meta_policy, meta.as_ref()).is_some();
    let visible = if show { meta } else { None };
    let (w, h) = small.dimensions();
    let ghost d = spec_downscale(
        upright_photo.spec_width() as int,
        upright_photo.spec_height() as int,
        opts.max_long_edge,
    );
    proof {
        if plan_fits(d.0, d.1, show) {
            lemma_plan_fits_mono(w as int, h as int, d.0, d.1, show);
        }
    }
    if !canvas_fits((w, h), show) {
        return None;
    }
    let layout = compute((w, h), show);
    let (cw, ch) = layout.canvas_size;
    proof {
        let side = spec_side_for(min_int(w as int, h as int));
        lemma_bottom_for_mono(side, side);
        assert(layout.photo_origin.0 + w <= cw && layout.photo_origin.1 + h <= ch);
    }
    assert((cw as u128) * (ch as u128) * 3 <= 0x1_0000_0000 * 0x1_0000_0000 * 3) by (nonlinear_arith)
        requires
            cw <= u32::MAX,
            ch <= u32::MAX,
    ;
    if (cw as u128) * (ch as u128) * 3 > (usize::MAX as u128) {
        return None;
    }
    let canvas = render_canvas(&layout, &small, opts.background);
    let ghost rgba = small.spec_data();
    assert(framed_canvas(canvas@, layout, opts.background, w as int, h as int, rgba));
    proof {
        let u = upright_size(orientation, photo.spec_width() as int, photo.spec_height() as int);
        if d == u {
            assert(rgba == upright(
                orientation,
                photo.spec_width() as int,
                photo.spec_height() as int,
                photo.spec_data(),
            ));
        }
    }
    let plan = ClassicPlan { canvas, layout, meta: visible, photo_size: (w, h) };
    assert(framed_canvas(plan.canvas@, plan.layout, opts.background, w as int, h as int, rgba));
    Some(plan)
}

/// The edge of its row a caption text is anchored to.
#[derive(Copy, Clone, Debug, PartialEq, Eq, Structural)]
pub enum Anchor {
    /// The text's left edge is at `x`.
    Left,
    /// The text's right edge is at `x`.
    Right,
}

/// The weight a caption text is set in.
#[derive(Copy, Clone, Debug, PartialEq, Eq, Structural)]
pub enum FontWeight {
    Regular,
    Medium,
}

/// One caption text to draw, its box top at `top_y`, at the strip's
/// font height.
#[derive(Clone, Debug)]
pub struct TextDraw {
    pub text: String,
    pub anchor: Anchor,
    pub x: u32,
    pub top_y: u32,
    pub weight: FontWeight,
}

/// A text draw as plain values: text, anchor, `x`, `top_y`, weight.
pub open spec fn draw_view(d: TextDraw) -> (Seq<char>, Anchor, u32, u32, FontWeight) {
    (d.text@, d.anchor, d.x, d.top_y, d.weight)
}

/// `s` with the draw appended when `text` is known.
pub open spec fn push_known(
    s: Seq<(Seq<char>, Anchor, u32, u32, FontWeight)>,
    text: Option<Seq<char>>,
    anchor: Anchor,
    x: u32,
    top_y: u32,
    weight: FontWeight,
) -> Seq<(Seq<char>, Anchor, u32, u32, FontWeight)> {
    match text {
        Some(t) => s.push((t, anchor, x, top_y, weight)),
        None => s,
    }
}

/// The caption's draws in order: camera (top row, left, medium), lens
/// (top row, right, medium), the exposure line (bottom row, left,
/// regular) and the date (bottom row, right, regular), each only when
/// known. Left texts start at the side border; right texts end one side
/// border in from the canvas's right edge (at 0 on a narrower canvas).
pub open spec fn spec_caption_draws(ml: MetaLayout, meta: Meta, canvas_w: u32) -> Seq<(Seq<char>, Anchor, u32, u32, FontWeight)> {
    let right_x = if canvas_w >= ml.pad_x { (canvas_w - ml.pad_x) as u32 } else { 0u32 };
    let exposure = spec_exposure_line(meta);
    let s0 = push_known(Seq::empty(), opt_chars(meta.camera), Anchor::Left, ml.pad_x, ml.top_line_y, FontWeight::Medium);
    let s1 = push_known(s0, opt_chars(meta.lens), Anchor::Right, right_x, ml.top_line_y, FontWeight::Medium);
    let s2 = push_known(s1, exposure, Anchor::Left, ml.pad_x, ml.bottom_line_y, FontWeight::Regular);
    push_known(s2, opt_chars(meta.date), Anchor::Right, right_x, ml.bottom_line_y, FontWeight::Regular)
}

/// Appending a known text puts its draw in the list and keeps every draw
/// already there; an unknown one leaves the list as it is.
proof fn lemma_push_known(
    s: Seq<(Seq<char>, Anchor, u32, u32, FontWeight)>,
    text: Option<Seq<char>>,
    anchor: Anchor,
    x: u32,
    top_y: u32,
    weight: FontWeight,
)
    ensures
        push_known(s, text, anchor, x, top_y, weight).len() == s.len() + if text is Some { 1int } else { 0 },
        forall|d| #[trigger] s.contains(d) ==> push_known(s, text, anchor, x, top_y, weight).contains(d),
        text matches Some(t) ==> push_known(s, text, anchor, x, top_y, weight).contains((t, anchor, x, top_y, weight)),
{
    if let Some(t) = text {
        let s2 = s.push((t, anchor, x, top_y, weight));
        assert(s2[s.len() as int] == (t, anchor, x, top_y, weight));
        assert forall|d| #[trigger] s.contains(d) implies s2.contains(d) by {
            let i = choose|i: int| 0 <= i < s.len() && s[i] == d;
            assert(s2[i] == d);
        }
    }
}

/// The classic caption draws each known fact where the frame puts it:
/// camera top-left and lens top-right in medium, the exposure line
/// ([`Meta::exposure_line`]) bottom-left and the date bottom-right in
/// regular; left texts start at the side border, right texts end one
/// side border in from the canvas's right edge. Nothing else is drawn.
pub proof fn lemma_caption_draws_show_each_fact(ml: MetaLayout, meta: Meta, canvas_w: u32)
    ensures
        ({
            let draws = spec_caption_draws(ml, meta, canvas_w);
            let right_x = if canvas_w >= ml.pad_x { (canvas_w - ml.pad_x) as u32 } else { 0u32 };
            let count = (if meta.camera is Some { 1int } else { 0 }) + (if meta.lens is Some { 1int } else { 0 })
                + (if spec_exposure_line(meta) is Some { 1int } else { 0 }) + (if meta.date is Some { 1int } else { 0 });
            &&& draws.len() == count
            &&& (meta.camera matches Some(t) ==> draws.contains((t@, Anchor::Left, ml.pad_x, ml.top_line_y, FontWeight::Medium)))
            &&& (meta.lens matches Some(t) ==> draws.contains((t@, Anchor::Right, right_x, ml.top_line_y, FontWeight::Medium)))
            &&& (spec_exposure_line(meta) matches Some(t) ==> draws.contains(
                (t, Anchor::Left, ml.pad_x, ml.bottom_line_y, FontWeight::Regular),
            ))
            &&& (meta.date matches Some(t) ==> draws.contains((t@, Anchor::Right, right_x, ml.bottom_line_y, FontWeight::Regular)))
        }),
{
    let right_x = if canvas_w >= ml.pad_x { (canvas_w - ml.pad_x) as u32 } else { 0u32 };
    let e: Seq<(Seq<char>, Anchor, u32, u32, FontWeight)> = Seq::empty();
    let s0 = push_known(e, opt_chars(meta.camera), Anchor::Left, ml.pad_x, ml.top_line_y, FontWeight::Medium);
    let s1 = push_known(s0, opt_chars(meta.lens), Anchor::Right, right_x, ml.top_line_y, FontWeight::Medium);
    let s2 = push_known(s1, spec_exposure_line(meta), Anchor::Left, ml.pad_x, ml.bottom_line_y, FontWeight::Regular);
    lemma_push_known(e, opt_chars(meta.camera), Anchor::Left, ml.pad_x, ml.top_line_y, FontWeight::Medium);
    lemma_push_known(s0, opt_chars(meta.lens), Anchor::Right, right_x, ml.top_line_y, FontWeight::Medium);
    lemma_push_known(s1, spec_exposure_line(meta), Anchor::Left, ml.pad_x, ml.bottom_line_y, FontWeight::Regular);
    lemma_push_known(s2, opt_chars(meta.date), Anchor::Right, right_x, ml.bottom_line_y, FontWeight::Regular);
}

fn push_draw(
    draws: &mut Vec<TextDraw>,
    text: Option<String>,
    anchor: Anchor,
    x: u32,
    top_y: u32,
    weight: FontWeight,
)
    ensures
        final(draws)@.map_values(|d: TextDraw| draw_view(d)) == push_known(
            old(draws)@.map_values(|d: TextDraw| draw_view(d)),
            opt_chars(text),
            anchor,
            x,
            top_y,
            weight,
        ),
{
    let ghost before = draws@;
    if let Some(t) = text {
        draws.push(TextDraw { text: t, anchor, x, top_y, weight });
        assert(draws@.map_values(|d: TextDraw| draw_view(d)) =~= before.map_values(
            |d: TextDraw| draw_view(d),
        ).push(draw_view(draws@.last())));
    }
}

/// The texts the classic caption strip draws, in drawing order (see
/// [`spec_caption_draws`]).
pub fn caption_draws(ml: &MetaLayout, meta: &Meta, canvas_w: u32) -> (r: Vec<TextDraw>)
    ensures
        r@.map_values(|d: TextDraw| draw_view(d)) == spec_caption_draws(*ml, *meta, canvas_w),
{
    let right_x = canvas_w.saturating_sub(ml.pad_x);
    let mut draws: Vec<TextDraw> = Vec::new();
    assert(draws@.map_values(|d: TextDraw| draw_view(d)) =~= Seq::empty());
    push_draw(&mut draws, meta.camera.clone(), Anchor::Left, ml.pad_x, ml.top_line_y, FontWeight::Medium);
    push_draw(&mut draws, meta.lens.clone(), Anchor::Right, right_x, ml.top_line_y, FontWeight::Medium);
    push_draw(&mut draws, meta.exposure_line(), Anchor::Left, ml.pad_x, ml.bottom_line_y, FontWeight::Regular);
    push_draw(&mut draws, meta.date.clone(), Anchor::Right, right_x, ml.bottom_line_y, FontWeight::Regular);
    draws
}

/// Encode an RGB8 canvas as JPEG at `quality`, which must be in
/// `1..=100`.
pub fn jpeg(canvas: &[u8], width: u32, height: u32, quality: u8) -> (r: Result<Vec<u8>, FrameError>)
    requires
        canvas@.len() == width * height * 3,
    ensures
        !(1 <= quality <= 100) ==> (r matches Err(FrameError::QualityOutOfRange { got, valid })
            && got == quality && valid@.start == 1 && valid@.end == 100),
        (1 <= quality <= 100) ==> (r is Ok <==> (1 <= width <= 65535 && 1 <= height <= 65535)),
        (1 <= quality <= 100) ==> (r is Ok || r matches Err(FrameError::Encode(_))),
        r matches Ok(b) ==> b@ == image_jpeg_encoded(canvas@, width, height, quality) && jpeg_framed(b@),
{
    check_quality(quality)?;
    match encode_rgb8_jpeg(canvas, width, height, quality) {
        Ok(bytes) => Ok(bytes),
        Err(e) => Err(FrameError::Encode(e)),
    }
}

} // verus!
