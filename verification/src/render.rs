//! The raster half of rendering a framed photo: optional downscale, the
//! golden composition, and the canvas with the photo laid on the frame
//! colour. Caption type is set by the caller on the returned plan.

use vstd::prelude::*;
use fast_image_resize::{FilterType, ResizeAlg, ResizeOptions, Resizer};
use crate::canvas::{paste_on_background, pasted};
use crate::caption::Caption;
use crate::classic::{downscale_dims, lemma_downscale_bounds, spec_downscale};
use crate::composition::{compute, spec_composition, Composition, LayoutStyle};
use crate::options::FrameOptions;
use crate::photograph::Photograph;
use crate::pixels::Pixels;
use crate::spec::{black, white, FrameStyle, FrameTheme, MetaPolicy};

verus! {

/// fast_image_resize `Resizer::resize` with a Lanczos3 convolution, from
/// a `width × height` RGBA8 buffer into a fresh `new_width × new_height`
/// one.
#[verifier::external_body]
fn lanczos3_rgba8(src: &[u8], width: u32, height: u32, new_width: u32, new_height: u32) -> (out: Vec<u8>)
    requires
        src@.len() == width * height * 4,
        width > 0 && height > 0,
        new_width > 0 && new_height > 0,
        new_width * new_height * 4 <= usize::MAX,
    ensures
        out@.len() == new_width * new_height * 4,
{
    let source = image::RgbaImage::from_raw(width, height, src.to_vec()).expect("sized by the caller");
    let mut target = image::RgbaImage::new(new_width, new_height);
    let options = ResizeOptions::new().resize_alg(ResizeAlg::Convolution(FilterType::Lanczos3));
    Resizer::new().resize(&source, &mut target, &options).expect("matching RGBA8 pixel types");
    target.into_raw()
}

/// Downscale so the longer edge is at most `max_long_edge` (see
/// [`spec_downscale`]); a photo that already fits is returned as it is.
pub fn maybe_downscale(img: Pixels, max_long_edge: Option<u32>) -> (out: Pixels)
    ensures
        (out.spec_width() as int, out.spec_height() as int) == spec_downscale(
            img.spec_width() as int,
            img.spec_height() as int,
            max_long_edge,
        ),
        spec_downscale(img.spec_width() as int, img.spec_height() as int, max_long_edge) == (
            img.spec_width() as int,
            img.spec_height() as int,
        ) ==> out == img,
{
    let (w, h) = img.dimensions();
    let (nw, nh) = downscale_dims(w, h, max_long_edge);
    if nw == w && nh == h {
        return img;
    }
    proof {
        lemma_downscale_bounds(w as int, h as int, max_long_edge);
    }
    let src = img.as_rgba8();
    let n: usize = src.len();
    assert(n == w * h * 4);
    assert(nw * nh * 4 <= w * h * 4) by (nonlinear_arith)
        requires
            nw <= w,
            nh <= h,
    ;
    let data = lanczos3_rgba8(src, w, h, nw, nh);
    match Pixels::from_rgba8(nw, nh, data) {
        Ok(p) => p,
        Err(_) => {
            assert(false);
            img
        },
    }
}

/// The RGBA8 bytes of the frame colour of `theme`.
pub open spec fn frame_colour(theme: FrameTheme) -> Seq<u8> {
    let c = match theme {
        FrameTheme::Paper => white(),
        FrameTheme::Ink => black(),
    };
    seq![c.r, c.g, c.b, c.a]
}

/// Whether the photo, laid out by `c`, lies inside the canvas, and the
/// canvas fits in memory.
pub open spec fn composition_fits(c: Composition) -> bool {
    &&& c.photo_origin.0 + c.photo_size.0 <= c.canvas.0
    &&& c.photo_origin.1 + c.photo_size.1 <= c.canvas.1
    &&& c.canvas.0 * c.canvas.1 * 4 <= usize::MAX
    &&& c.photo_size.0 > 0 && c.photo_size.1 > 0
}

/// The frame colour, filling the canvas, with the photo laid over it at
/// the composition's origin.
pub fn build_canvas_with_photo(composition: &Composition, photo: &Pixels, theme: FrameTheme) -> (canvas: Pixels)
    requires
        composition_fits(*composition),
        composition.photo_size == (photo.spec_width(), photo.spec_height()),
    ensures
        canvas.spec_width() == composition.canvas.0,
        canvas.spec_height() == composition.canvas.1,
        canvas.spec_data() == pasted(
            composition.canvas.0 as int,
            composition.canvas.1 as int,
            frame_colour(theme),
            photo.spec_data(),
            photo.spec_width() as int,
            photo.spec_height() as int,
            composition.photo_origin.0 as int,
            composition.photo_origin.1 as int,
        ),
{
    let bg = theme.background().to_array();
    let data = paste_on_background(
        composition.canvas,
        &bg,
        photo.as_rgba8(),
        composition.photo_size,
        composition.photo_origin,
    );
    match Pixels::from_rgba8(composition.canvas.0, composition.canvas.1, data) {
        Ok(p) => p,
        Err(_) => {
            assert(false);
            photo.clone()
        },
    }
}

/// What is left to do once the raster work is done: the canvas, the plan
/// it was built by, and the caption to set on it.
pub struct RenderPlan {
    pub canvas: Pixels,
    pub composition: Composition,
    pub caption: Caption,
}

/// The caption that will be drawn: none under `Never`.
pub open spec fn shown_caption(policy: MetaPolicy, caption: Caption) -> bool {
    policy == MetaPolicy::Auto && !(caption.top_left is None && caption.top_right is None
        && caption.bottom_left is None && caption.bottom_right is None)
}

/// The layout family a frame style asks for.
pub open spec fn style_for(style: FrameStyle) -> LayoutStyle {
    match style {
        FrameStyle::Polaroid => LayoutStyle::Polaroid,
        FrameStyle::Standard => LayoutStyle::Standard,
    }
}

/// Downscale, compose and paint the frame for `photo`, whose caption
/// (built from its provenance) is `caption`. `None` exactly when the
/// composed canvas cannot hold the photo or does not fit in memory.
pub fn prepare(photo: &Photograph, opts: &FrameOptions, caption: Caption) -> (r: Option<RenderPlan>)
    ensures
        ({
            let d = spec_downscale(
                photo.pixels.spec_width() as int,
                photo.pixels.spec_height() as int,
                opts.max_long_edge,
            );
            let c = spec_composition(d.0, d.1, shown_caption(opts.meta_policy, caption), style_for(opts.frame_style));
            &&& (r is Some <==> composition_fits(c))
            &&& (r matches Some(plan) ==> {
                &&& plan.composition == c
                &&& plan.canvas.spec_width() == c.canvas.0
                &&& plan.canvas.spec_height() == c.canvas.1
                &&& plan.caption == caption
                &&& exists|data: Seq<u8>| plan.canvas.spec_data() == #[trigger] pasted(
                    c.canvas.0 as int,
                    c.canvas.1 as int,
                    frame_colour(opts.theme),
                    data,
                    d.0,
                    d.1,
                    c.photo_origin.0 as int,
                    c.photo_origin.1 as int,
                )
                &&& (d == (photo.pixels.spec_width() as int, photo.pixels.spec_height() as int)
                    ==> plan.canvas.spec_data() == pasted(
                    c.canvas.0 as int,
                    c.canvas.1 as int,
                    frame_colour(opts.theme),
                    photo.pixels.spec_data(),
                    d.0,
                    d.1,
                    c.photo_origin.0 as int,
                    c.photo_origin.1 as int,
                ))
            })
        }),
{
    let upright = maybe_downscale(photo.pixels.clone(), opts.max_long_edge);
    let visible = match opts.meta_policy {
        MetaPolicy::Never => false,
        MetaPolicy::Auto => !caption.is_empty(),
    };
    let style = match opts.frame_style {
        FrameStyle::Polaroid => LayoutStyle::Polaroid,
        FrameStyle::Standard => LayoutStyle::Standard,
    };
    let (w, h) = upright.dimensions();
    let composition = compute((w, h), visible, style);
    let (cw, ch) = composition.canvas;
    let (ox, oy) = composition.photo_origin;
    if (ox as u64) + (w as u64) > (cw as u64) || (oy as u64) + (h as u64) > (ch as u64) {
        return None;
    }
    assert((cw as u128) * (ch as u128) * 4 <= 0x1_0000_0000 * 0x1_0000_0000 * 4) by (nonlinear_arith)
        requires
            cw <= u32::MAX,
            ch <= u32::MAX,
    ;
    if (cw as u128) * (ch as u128) * 4 > (usize::MAX as u128) {
        return None;
    }
    let canvas = build_canvas_with_photo(&composition, &upright, opts.theme);
    let ghost data = upright.spec_data();
    assert(canvas.spec_data() == pasted(
        cw as int,
        ch as int,
        frame_colour(opts.theme),
        data,
        w as int,
        h as int,
        ox as int,
        oy as int,
    ));
    Some(RenderPlan { canvas, composition, caption })
}

} // verus!
