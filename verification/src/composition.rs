//! Composing a photo into the golden geometry of the renderer.
//!
//! Everything derives from one quantum, `Q = short_edge / φ⁶`, the
//! residue six subdivisions down the golden spiral seeded by the photo's
//! short edge. The mat is `2Q` on every interior boundary, the primary
//! caption font is `Q`, the secondary font `Q/φ`, the gap between the
//! rows `Q/φ²`, and the strip they fill `Q + Q/φ + Q/φ² = 2Q`.
//!
//! `φ⁻⁶ = 9 − 4√5`, so every length is `a + k·Q` for an integer `a` and a
//! small `k`, and is rounded exactly in `Z[√5]`. Font heights stay exact:
//! they are handed out as [`Surd`]s for the renderer to convert.

use vstd::prelude::*;
use crate::sqrt5::{
    le_sqrt5, le_sqrt5_exec, lemma_lt_sqrt5_le, lemma_round_monotone, lemma_round_shift,
    lemma_round_sqrt5, lemma_round_sum, round_sqrt5, round_sqrt5_exec,
};

verus! {

/// Layout family.
#[derive(Copy, Clone, Debug, PartialEq, Eq, Structural, Hash)]
pub enum LayoutStyle {
    /// Centred photo, uniform `2Q` mat, caption strip one mat below.
    Standard,
    /// Top-anchored photo over a bottom band of at least `4` mats.
    Polaroid,
}

/// The exact length `(p + q·√5) / d`.
#[derive(Copy, Clone, Debug, PartialEq, Eq, Structural, Hash)]
pub struct Surd {
    pub p: i64,
    pub q: i64,
    pub d: i64,
}

/// The caption strip and the two rows inside it.
#[derive(Copy, Clone, Debug)]
pub struct MetaLayout {
    /// Strip rectangle `(x, y, width, height)`.
    pub region: (u32, u32, u32, u32),
    /// Left alignment anchor: the photo's left edge.
    pub photo_left_x: u32,
    /// Right alignment anchor: the photo's right edge.
    pub photo_right_x: u32,
    /// Primary row font height, `Q`.
    pub primary_font_height: Surd,
    /// Secondary row font height, `Q/φ`.
    pub secondary_font_height: Surd,
    /// Gap between the rows, `Q/φ²`.
    pub line_gap: Surd,
}

/// The spatial plan of one framed output.
#[derive(Copy, Clone, Debug)]
pub struct Composition {
    /// Canvas `(width, height)`.
    pub canvas: (u32, u32),
    /// Photo top-left corner inside the canvas.
    pub photo_origin: (u32, u32),
    /// Photo `(width, height)`; the geometry never scales the photo.
    pub photo_size: (u32, u32),
    /// Caption strip; `None` when no caption is drawn.
    pub meta: Option<MetaLayout>,
}

/// The nearest integer to `a + k·Q`, `Q = s·(9 − 4√5)`.
pub open spec fn near_q(a: int, k: int, s: int) -> int {
    round_sqrt5(a + 9 * k * s, -4 * k * s, 1)
}

/// A rounded length as a pixel count: negatives clamp to 0, values past
/// `u32::MAX` saturate.
pub open spec fn to_px(r: int) -> int {
    if r < 0 {
        0
    } else if r > u32::MAX {
        u32::MAX as int
    } else {
        r
    }
}

/// `to_px(near_q(a, k, s))`.
pub open spec fn px_q(a: int, k: int, s: int) -> u32 {
    to_px(near_q(a, k, s)) as u32
}

/// The Polaroid band grows past its floor: `w − h ≥ 2Q`.
pub open spec fn band_expands(w: int, h: int, s: int) -> bool {
    le_sqrt5(18 * s + h - w, 8 * s)
}

/// `Q` as a surd.
pub open spec fn quantum(s: int) -> Surd {
    Surd { p: (9 * s) as i64, q: (-4 * s) as i64, d: 1 }
}

/// `Q/φ = s·(13√5 − 29)/2` as a surd.
pub open spec fn secondary(s: int) -> Surd {
    Surd { p: (-29 * s) as i64, q: (13 * s) as i64, d: 2 }
}

/// `Q/φ² = s·(47 − 21√5)/2` as a surd.
pub open spec fn gap(s: int) -> Surd {
    Surd { p: (47 * s) as i64, q: (-21 * s) as i64, d: 2 }
}

/// The caption strip of the standard layout.
pub open spec fn standard_meta(w: int, h: int, s: int) -> MetaLayout {
    MetaLayout {
        region: (px_q(0, 2, s), px_q(h, 4, s), w as u32, px_q(0, 2, s)),
        photo_left_x: px_q(0, 2, s),
        photo_right_x: px_q(w, 2, s),
        primary_font_height: quantum(s),
        secondary_font_height: secondary(s),
        line_gap: gap(s),
    }
}

/// The caption band of the Polaroid layout.
pub open spec fn polaroid_meta(w: int, h: int, s: int) -> MetaLayout {
    MetaLayout {
        region: (
            0,
            px_q(h, 2, s),
            px_q(w, 4, s),
            if band_expands(w, h, s) {
                px_q(w - h, 6, s)
            } else {
                px_q(0, 8, s)
            },
        ),
        photo_left_x: px_q(0, 2, s),
        photo_right_x: px_q(w, 2, s),
        primary_font_height: quantum(s),
        secondary_font_height: secondary(s),
        line_gap: gap(s),
    }
}

/// The composition of a `w × h` photo.
pub open spec fn spec_composition(w: int, h: int, show_meta: bool, style: LayoutStyle) -> Composition {
    let s = if w <= h { w } else { h };
    let origin = (px_q(0, 2, s), px_q(0, 2, s));
    let size = (w as u32, h as u32);
    match style {
        LayoutStyle::Polaroid => Composition {
            canvas: (
                px_q(w, 4, s),
                if band_expands(w, h, s) {
                    px_q(w, 8, s)
                } else {
                    px_q(h, 10, s)
                },
            ),
            photo_origin: origin,
            photo_size: size,
            meta: if show_meta {
                Some(polaroid_meta(w, h, s))
            } else {
                None
            },
        },
        LayoutStyle::Standard => if show_meta {
            Composition {
                canvas: (px_q(w, 4, s), px_q(h, 8, s)),
                photo_origin: origin,
                photo_size: size,
                meta: Some(standard_meta(w, h, s)),
            }
        } else {
            Composition {
                canvas: (px_q(w, 4, s), px_q(h, 4, s)),
                photo_origin: origin,
                photo_size: size,
                meta: None,
            }
        },
    }
}

/// `to_px(nearest(a + k·Q))`.
fn px(a: i128, k: i128, s: i128) -> (r: u32)
    requires
        -0x2_0000_0000 <= a <= 0x2_0000_0000,
        0 <= k <= 10,
        0 <= s <= 0xffff_ffff,
    ensures
        r == px_q(a as int, k as int, s as int),
{
    assert(0 <= k * s <= 10 * 0xffff_ffff) by (nonlinear_arith)
        requires
            0 <= k <= 10,
            0 <= s <= 0xffff_ffff,
    ;
    assert(9 * k * s == 9 * (k * s) && -4 * k * s == -4 * (k * s)) by (nonlinear_arith);
    let ks = k * s;
    let v = round_sqrt5_exec(a + 9 * ks, -4 * ks, 1);
    if v < 0 {
        0
    } else if v > 0xffff_ffff {
        u32::MAX
    } else {
        v as u32
    }
}

fn standard_meta_exec(w: u32, h: u32, s: u32) -> (m: MetaLayout)
    requires
        s <= w,
    ensures
        m == standard_meta(w as int, h as int, s as int),
{
    let ss = s as i128;
    let s64 = s as i64;
    MetaLayout {
        region: (px(0, 2, ss), px(h as i128, 4, ss), w, px(0, 2, ss)),
        photo_left_x: px(0, 2, ss),
        photo_right_x: px(w as i128, 2, ss),
        primary_font_height: Surd { p: 9 * s64, q: 0 - 4 * s64, d: 1 },
        secondary_font_height: Surd { p: 0 - 29 * s64, q: 13 * s64, d: 2 },
        line_gap: Surd { p: 47 * s64, q: 0 - 21 * s64, d: 2 },
    }
}

fn compose_polaroid(w: u32, h: u32, s: u32, show_meta: bool) -> (c: Composition)
    requires
        s == (if w <= h { w } else { h }),
    ensures
        c == spec_composition(w as int, h as int, show_meta, LayoutStyle::Polaroid),
{
    let ss = s as i128;
    let wi = w as i128;
    let hi = h as i128;
    let expands = le_sqrt5_exec(18 * ss + hi - wi, 8 * ss);
    let canvas_w = px(wi, 4, ss);
    let canvas_h = if expands {
        px(wi, 8, ss)
    } else {
        px(hi, 10, ss)
    };
    let origin = px(0, 2, ss);
    if !show_meta {
        return Composition {
            canvas: (canvas_w, canvas_h),
            photo_origin: (origin, origin),
            photo_size: (w, h),
            meta: None,
        };
    }
    let band = if expands {
        px(wi - hi, 6, ss)
    } else {
        px(0, 8, ss)
    };
    let s64 = s as i64;
    let meta = MetaLayout {
        region: (0, px(hi, 2, ss), canvas_w, band),
        photo_left_x: origin,
        photo_right_x: px(wi, 2, ss),
        primary_font_height: Surd { p: 9 * s64, q: 0 - 4 * s64, d: 1 },
        secondary_font_height: Surd { p: 0 - 29 * s64, q: 13 * s64, d: 2 },
        line_gap: Surd { p: 47 * s64, q: 0 - 21 * s64, d: 2 },
    };
    Composition {
        canvas: (canvas_w, canvas_h),
        photo_origin: (origin, origin),
        photo_size: (w, h),
        meta: Some(meta),
    }
}

/// Compose a `photo.0 × photo.1` photo into the golden frame (see
/// [`spec_composition`]).
pub fn compute(photo: (u32, u32), show_meta: bool, style: LayoutStyle) -> (c: Composition)
    ensures
        c == spec_composition(photo.0 as int, photo.1 as int, show_meta, style),
{
    let (w, h) = photo;
    let s = if w <= h { w } else { h };
    match style {
        LayoutStyle::Polaroid => compose_polaroid(w, h, s, show_meta),
        LayoutStyle::Standard => {
            let ss = s as i128;
            let origin = px(0, 2, ss);
            if show_meta {
                Composition {
                    canvas: (px(w as i128, 4, ss), px(h as i128, 8, ss)),
                    photo_origin: (origin, origin),
                    photo_size: (w, h),
                    meta: Some(standard_meta_exec(w, h, s)),
                }
            } else {
                Composition {
                    canvas: (px(w as i128, 4, ss), px(h as i128, 4, ss)),
                    photo_origin: (origin, origin),
                    photo_size: (w, h),
                    meta: None,
                }
            }
        },
    }
}

/// `round(a + k·Q) = a + round(k·Q)`.
proof fn lemma_near_shift(a: int, k: int, s: int)
    ensures
        near_q(a, k, s) == a + near_q(0, k, s),
{
    lemma_round_shift(9 * k * s, -4 * k * s, a);
    assert(a + 9 * k * s == 9 * k * s + a);
    assert(0 + 9 * k * s == 9 * k * s);
}

/// `round(k·Q)` grows with `k` and is never negative.
proof fn lemma_near_grows(k1: int, k2: int, s: int)
    requires
        0 <= k1 <= k2,
        s >= 0,
    ensures
        0 <= near_q(0, k1, s) <= near_q(0, k2, s),
{
    assert(le_sqrt5(-9 * (k2 - k1) * s, -4 * (k2 - k1) * s)) by (nonlinear_arith)
        requires
            k2 - k1 >= 0,
            s >= 0,
    ;
    assert(0 + 9 * k1 * s - (0 + 9 * k2 * s) == -9 * (k2 - k1) * s && -4 * k2 * s - -4 * k1 * s
        == -4 * (k2 - k1) * s) by (nonlinear_arith);
    lemma_round_monotone(0 + 9 * k1 * s, -4 * k1 * s, 0 + 9 * k2 * s, -4 * k2 * s);
    assert(le_sqrt5(-9 * k1 * s, -4 * k1 * s)) by (nonlinear_arith)
        requires
            k1 >= 0,
            s >= 0,
    ;
    assert(0 - (0 + 9 * k1 * s) == -9 * k1 * s && -4 * k1 * s - 0 == -4 * k1 * s)
        by (nonlinear_arith);
    lemma_round_monotone(0, 0, 0 + 9 * k1 * s, -4 * k1 * s);
    assert(1 * (2 * 0 - 1) - 2 * 0 == -1 && 1 * (2 * 0 + 1) - 2 * 0 == 1);
    lemma_round_sqrt5(0, 0, 0, 1);
}

/// `round((k1 + m·k2)·Q)` is within one of `round(k1·Q) + m·round(k2·Q)`.
proof fn lemma_near_sum(k1: int, k2: int, m: int, s: int)
    requires
        m == 1 || m == 2,
    ensures
        -1 <= near_q(0, k1 + m * k2, s) - near_q(0, k1, s) - m * near_q(0, k2, s) <= 1,
{
    lemma_round_sum(0 + 9 * k1 * s, -4 * k1 * s, 0 + 9 * k2 * s, -4 * k2 * s, m);
    assert(0 + 9 * k1 * s + m * (0 + 9 * k2 * s) == 0 + 9 * (k1 + m * k2) * s && -4 * k1 * s + m
        * (-4 * k2 * s) == -4 * (k1 + m * k2) * s) by (nonlinear_arith);
}

/// The short edge of a `w × h` photo.
pub open spec fn short_edge(w: int, h: int) -> int {
    if w <= h { w } else { h }
}

/// Every interior boundary of the captioned standard layout is the same
/// mat to within one pixel — canvas edge to photo on three sides, photo
/// to strip, strip to canvas bottom — and the caption columns are the
/// photo's own edges. (For canvases that fit in `u32`.)
pub proof fn lemma_standard_uniform_mat(w: u32, h: u32)
    requires
        w + near_q(0, 4, short_edge(w as int, h as int)) <= u32::MAX,
        h + near_q(0, 8, short_edge(w as int, h as int)) <= u32::MAX,
    ensures
        ({
            let c = spec_composition(w as int, h as int, true, LayoutStyle::Standard);
            let mat = c.photo_origin.0 as int;
            &&& c.photo_origin.1 == c.photo_origin.0
            &&& c.meta matches Some(m) && {
                let right = c.canvas.0 - (c.photo_origin.0 + w);
                let photo_strip = m.region.1 - (c.photo_origin.1 + h);
                let strip_bottom = c.canvas.1 - (m.region.1 + m.region.3);
                &&& -1 <= right - mat <= 1
                &&& -1 <= photo_strip - mat <= 1
                &&& -1 <= strip_bottom - mat <= 1
                &&& m.region.3 == mat
                &&& m.photo_left_x == c.photo_origin.0
                &&& m.photo_right_x == c.photo_origin.0 + w
            }
        }),
{
    let s = short_edge(w as int, h as int);
    lemma_near_shift(w as int, 4, s);
    lemma_near_shift(h as int, 8, s);
    lemma_near_shift(h as int, 4, s);
    lemma_near_shift(w as int, 2, s);
    lemma_near_grows(2, 4, s);
    lemma_near_grows(4, 8, s);
    lemma_near_sum(2, 2, 1, s);
    lemma_near_sum(4, 2, 2, s);
}

/// Without a caption the standard layout wraps the photo in the same mat
/// on all four sides, to within one pixel.
pub proof fn lemma_uncaptioned_uniform_mat(w: u32, h: u32)
    requires
        w + near_q(0, 4, short_edge(w as int, h as int)) <= u32::MAX,
        h + near_q(0, 4, short_edge(w as int, h as int)) <= u32::MAX,
    ensures
        ({
            let c = spec_composition(w as int, h as int, false, LayoutStyle::Standard);
            let mat = c.photo_origin.0 as int;
            &&& c.photo_origin.1 == c.photo_origin.0
            &&& -1 <= c.canvas.0 - (c.photo_origin.0 + w) - mat <= 1
            &&& -1 <= c.canvas.1 - (c.photo_origin.1 + h) - mat <= 1
            &&& c.meta is None
        }),
{
    let s = short_edge(w as int, h as int);
    lemma_near_shift(w as int, 4, s);
    lemma_near_shift(h as int, 4, s);
    lemma_near_grows(2, 4, s);
    lemma_near_sum(2, 2, 1, s);
}

/// The Polaroid canvas is clearly portrait: taller than wide by at least
/// two mats, to within one pixel; and its bottom band never drops below
/// four mats.
pub proof fn lemma_polaroid_portrait(w: u32, h: u32, show_meta: bool)
    requires
        w + near_q(0, 8, short_edge(w as int, h as int)) <= u32::MAX,
        h + near_q(0, 10, short_edge(w as int, h as int)) <= u32::MAX,
    ensures
        ({
            let c = spec_composition(w as int, h as int, show_meta, LayoutStyle::Polaroid);
            let s = short_edge(w as int, h as int);
            &&& c.canvas.1 + 1 >= c.canvas.0 + near_q(0, 4, s)
            &&& c.photo_origin.1 + h <= c.canvas.1
            &&& c.photo_origin.0 + w <= c.canvas.0
            &&& c.meta matches Some(m) ==> m.region.3 >= near_q(0, 8, s)
        }),
{
    let s = short_edge(w as int, h as int);
    let wi = w as int;
    let hi = h as int;
    lemma_near_shift(wi, 4, s);
    lemma_near_shift(wi, 8, s);
    lemma_near_shift(hi, 10, s);
    lemma_near_shift(hi, 2, s);
    lemma_near_grows(2, 4, s);
    lemma_near_grows(4, 8, s);
    lemma_near_grows(8, 10, s);
    lemma_near_grows(0, 2, s);
    lemma_near_sum(4, 4, 1, s);
    if band_expands(wi, hi, s) {
        // the band is w − h + 6Q ≥ 8Q, and the photo is landscape
        assert(wi >= hi) by (nonlinear_arith)
            requires
                le_sqrt5(18 * s + hi - wi, 8 * s),
                s >= 0,
        ;
        assert(0 + 9 * 8 * s - (wi - hi + 9 * 6 * s) == 18 * s + hi - wi && -4 * 6 * s - -4 * 8 * s
            == 8 * s) by (nonlinear_arith);
        lemma_round_monotone(0 + 9 * 8 * s, -4 * 8 * s, wi - hi + 9 * 6 * s, -4 * 6 * s);
        lemma_near_shift(wi - hi, 6, s);
    } else {
        // the canvas is h + 10Q > w + 8Q
        lemma_lt_sqrt5_le(wi - hi - 18 * s, -8 * s);
        assert(wi + 9 * 8 * s - (hi + 9 * 10 * s) == wi - hi - 18 * s && -4 * 10 * s - -4 * 8 * s
            == -8 * s) by (nonlinear_arith);
        lemma_round_monotone(wi + 9 * 8 * s, -4 * 8 * s, hi + 9 * 10 * s, -4 * 10 * s);
    }
}

/// Whatever the style and caption, the photo lies inside the canvas and
/// sits at the same offset from the left and top edges: the layout
/// invariant the raster step relies on (for canvases that fit in `u32`).
pub proof fn lemma_photo_inside_canvas(w: u32, h: u32, show_meta: bool, style: LayoutStyle)
    requires
        w + near_q(0, 8, short_edge(w as int, h as int)) <= u32::MAX,
        h + near_q(0, 10, short_edge(w as int, h as int)) <= u32::MAX,
    ensures
        ({
            let c = spec_composition(w as int, h as int, show_meta, style);
            &&& c.photo_origin.0 + w <= c.canvas.0
            &&& c.photo_origin.1 + h <= c.canvas.1
            &&& c.photo_origin.0 == c.photo_origin.1
            &&& c.photo_size == (w, h)
        }),
{
    let s = short_edge(w as int, h as int);
    lemma_near_shift(w as int, 4, s);
    lemma_near_shift(h as int, 4, s);
    lemma_near_shift(h as int, 8, s);
    lemma_near_grows(2, 4, s);
    lemma_near_grows(4, 8, s);
    lemma_near_grows(8, 10, s);
    match style {
        LayoutStyle::Polaroid => lemma_polaroid_portrait(w, h, show_meta),
        LayoutStyle::Standard => {},
    }
}

/// Drawing the caption or not leaves the Polaroid silhouette unchanged.
pub proof fn lemma_polaroid_caption_independent(w: u32, h: u32)
    ensures
        spec_composition(w as int, h as int, true, LayoutStyle::Polaroid).canvas == spec_composition(
            w as int,
            h as int,
            false,
            LayoutStyle::Polaroid,
        ).canvas,
        spec_composition(w as int, h as int, true, LayoutStyle::Polaroid).photo_origin
            == spec_composition(w as int, h as int, false, LayoutStyle::Polaroid).photo_origin,
{
}

/// Whatever the style, a captioned layout sets its caption columns on the
/// photo's own edges: left-aligned text starts at the photo's left edge
/// and right-aligned text ends at its right edge, not at the canvas's
/// (for canvases whose width fits in `u32`).
pub proof fn lemma_caption_columns_on_photo_edges(w: u32, h: u32, style: LayoutStyle)
    requires
        w + near_q(0, 4, short_edge(w as int, h as int)) <= u32::MAX,
    ensures
        ({
            let c = spec_composition(w as int, h as int, true, style);
            c.meta matches Some(m) && {
                &&& m.photo_left_x == c.photo_origin.0
                &&& m.photo_right_x == c.photo_origin.0 + w
                &&& m.photo_right_x + c.photo_origin.0 <= c.canvas.0 + 1
            }
        }),
{
    let s = short_edge(w as int, h as int);
    lemma_near_shift(w as int, 2, s);
    lemma_near_shift(w as int, 4, s);
    lemma_near_grows(0, 2, s);
    lemma_near_grows(2, 4, s);
    lemma_near_sum(2, 2, 1, s);
}

/// `(p + q√5)/d · φ`, as a surd over `2d`.
pub open spec fn times_phi(p: int, q: int, d: int) -> (int, int, int) {
    (p + 5 * q, p + q, 2 * d)
}

/// Two surds denote the same number.
pub open spec fn same_value(a: (int, int, int), b: (int, int, int)) -> bool {
    a.0 * b.2 == b.0 * a.2 && a.1 * b.2 == b.1 * a.2
}

/// The caption type scale is golden: secondary · φ = primary,
/// gap · φ = secondary, and primary + secondary + gap = 2Q, the mat.
pub proof fn lemma_caption_scale(s: int)
    by (nonlinear_arith)
    ensures
        same_value(times_phi(-29 * s, 13 * s, 2), (9 * s, -4 * s, 1)),
        same_value(times_phi(47 * s, -21 * s, 2), (-29 * s, 13 * s, 2)),
        same_value((2 * (9 * s) + (-29 * s) + 47 * s, 2 * (-4 * s) + 13 * s + -21 * s, 2), (
            18 * s,
            -8 * s,
            1,
        )),
{
}

} // verus!
