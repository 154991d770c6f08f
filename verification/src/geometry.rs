//! Golden-ratio layout of the classic frame.
//!
//! Every output dimension is the nearest integer to `side · φⁿ`:
//!
//! ```text
//! min_dim     = side · φ⁶          (defines side, clamped below at 8 px)
//! pad_x       = side · φ⁰
//! pad_top     = side · φ⁻¹
//! bottom      = side · φ²
//! font_height = side · φ⁻²
//! line_gap    = side · φ⁻³
//! ```
//!
//! With `φ = (1 + √5)/2` each power is `(p + q·√5)/d` for small integers,
//! so the roundings are computed exactly in `Z[√5]` (see `sqrt5`).
//! The metadata strip absorbs the rounding slack symmetrically above and
//! below the two caption rows.

use vstd::prelude::*;
use crate::sqrt5::{
    is_nearest, le_sqrt5, lemma_floor_sqrt5_exists, lemma_le_sqrt5_bounds,
    lemma_le_sqrt5_double, lemma_le_sqrt5_mono, lemma_round_monotone, lemma_round_sqrt5,
    lemma_round_sqrt5_mono, lemma_sqrt5_irrational, round_sqrt5, round_sqrt5_exec,
};

verus! {

/// Minimum pixel thickness of the side border.
pub const MIN_SIDE_PX: u32 = 8;

/// Nearest integer to `n / φ⁶ = n·(9 − 4√5)`.
pub open spec fn inv_phi6_times(n: int) -> int {
    round_sqrt5(9 * n, -4 * n, 1)
}

/// Nearest integer to `s · φ² = s·(3 + √5)/2`.
pub open spec fn phi2_times(s: int) -> int {
    round_sqrt5(3 * s, s, 2)
}

/// Nearest integer to `s / φ = s·(√5 − 1)/2`.
pub open spec fn inv_phi_times(s: int) -> int {
    round_sqrt5(-s, s, 2)
}

/// Nearest integer to `s / φ² = s·(3 − √5)/2`.
pub open spec fn inv_phi2_times(s: int) -> int {
    round_sqrt5(3 * s, -s, 2)
}

/// Nearest integer to `s / φ³ = s·(√5 − 2)`.
pub open spec fn inv_phi3_times(s: int) -> int {
    round_sqrt5(-2 * s, s, 1)
}

/// Side border for a photo whose short edge is `min_dim`.
pub open spec fn spec_side_for(min_dim: int) -> int {
    let r = inv_phi6_times(min_dim);
    if r < MIN_SIDE_PX { MIN_SIDE_PX as int } else { r }
}

/// Height of the metadata strip, saturating at `u32::MAX`.
pub open spec fn spec_bottom_for(side: int) -> int {
    let r = phi2_times(side);
    if r > u32::MAX { u32::MAX as int } else { r }
}

/// Room the two caption rows need inside the strip.
pub open spec fn spec_used(side: int) -> int {
    2 * inv_phi_times(side) + 2 * inv_phi2_times(side) + inv_phi3_times(side)
}

/// Strip height left over once the rows and their insets are placed.
pub open spec fn spec_slack(bottom: int, side: int) -> int {
    if bottom >= spec_used(side) { bottom - spec_used(side) } else { 0 }
}

/// Baseline box top of the first caption row.
pub open spec fn spec_top_line_y(strip_y: int, bottom: int, side: int) -> int {
    strip_y + inv_phi_times(side) + spec_slack(bottom, side) / 2
}

/// Baseline box top of the second caption row.
pub open spec fn spec_bottom_line_y(strip_y: int, bottom: int, side: int) -> int {
    spec_top_line_y(strip_y, bottom, side) + inv_phi2_times(side) + inv_phi3_times(side)
}

/// Upper bound read off the lower half of `is_nearest`.
proof fn lemma_nearest_upper(r: int, p: int, q: int, d: int)
    requires
        is_nearest(r, p, q, d),
    ensures
        q >= 0 ==> 10000 * (d * (2 * r - 1) - 2 * p) <= 44722 * q,
        q < 0 ==> 10000 * (d * (2 * r - 1) - 2 * p) <= 44720 * q,
{
    lemma_le_sqrt5_bounds(d * (2 * r - 1) - 2 * p, 2 * q);
}

/// The strip's four roundings, written with `n = ⌊s√5⌋` and `m = ⌊2s√5⌋`.
proof fn lemma_strip_roundings(s: int, n: int, m: int)
    requires
        s >= 0,
        n >= 0,
        le_sqrt5(n, s),
        !le_sqrt5(n + 1, s),
        le_sqrt5(m, 2 * s),
        !le_sqrt5(m + 1, 2 * s),
    ensures
        m == 2 * n || m == 2 * n + 1,
        n >= 2 * s,
        phi2_times(s) == (3 * s + n + 1) / 2,
        inv_phi_times(s) == (n - s + 1) / 2,
        inv_phi2_times(s) == (3 * s - n) / 2,
        inv_phi3_times(s) == (m + 1) / 2 - 2 * s,
{
    // m against 2n
    lemma_le_sqrt5_double(n, s);
    lemma_le_sqrt5_double(n + 1, s);
    if m < 2 * n {
        lemma_le_sqrt5_mono(m + 1, 2 * n, 2 * s);
    }
    if m > 2 * n + 1 {
        lemma_le_sqrt5_mono(2 * n + 2, m, 2 * s);
    }
    // √5 > 2, so n ≥ 2s
    if n < 2 * s {
        assert((n + 1) * (n + 1) <= 5 * s * s) by (nonlinear_arith)
            requires
                0 <= n + 1 <= 2 * s,
        ;
        assert(le_sqrt5(n + 1, s));
    }
    // s·φ²
    let b = (3 * s + n + 1) / 2;
    lemma_le_sqrt5_double(2 * b - 1 - 3 * s, s);
    lemma_le_sqrt5_mono(2 * b - 1 - 3 * s, n, s);
    lemma_le_sqrt5_double(2 * b + 1 - 3 * s, s);
    if le_sqrt5(2 * b + 1 - 3 * s, s) {
        lemma_le_sqrt5_mono(n + 1, 2 * b + 1 - 3 * s, s);
    }
    assert(is_nearest(b, 3 * s, s, 2));
    lemma_round_sqrt5(b, 3 * s, s, 2);
    // s / φ
    let p = (n - s + 1) / 2;
    lemma_le_sqrt5_double(2 * p - 1 + s, s);
    lemma_le_sqrt5_mono(2 * p - 1 + s, n, s);
    lemma_le_sqrt5_double(2 * p + 1 + s, s);
    if le_sqrt5(2 * p + 1 + s, s) {
        lemma_le_sqrt5_mono(n + 1, 2 * p + 1 + s, s);
    }
    assert(is_nearest(p, -s, s, 2));
    lemma_round_sqrt5(p, -s, s, 2);
    // s / φ³
    let g = (m + 1) / 2 - 2 * s;
    lemma_le_sqrt5_mono(2 * g - 1 + 4 * s, m, 2 * s);
    if le_sqrt5(2 * g + 1 + 4 * s, 2 * s) {
        lemma_le_sqrt5_mono(m + 1, 2 * g + 1 + 4 * s, 2 * s);
    }
    assert(is_nearest(g, -2 * s, s, 1));
    lemma_round_sqrt5(g, -2 * s, s, 1);
    // s / φ²: the value sits below √5's side, so irrationality rules out a tie
    let f = (3 * s - n) / 2;
    let lo = 4 * f - 2 - 6 * s;
    let hi = 4 * f + 2 - 6 * s;
    assert(lo <= -2 * n - 2);
    assert(hi >= -2 * n);
    assert(lo * lo >= 4 * ((n + 1) * (n + 1))) by (nonlinear_arith)
        requires
            lo <= -2 * n - 2,
            n >= 0,
    ;
    assert(le_sqrt5(lo, -2 * s)) by {
        assert(5 * (-2 * s) * (-2 * s) == 4 * (5 * s * s)) by (nonlinear_arith);
    }
    if s > 0 {
        lemma_sqrt5_irrational(n, s);
        if hi < 0 {
            assert(hi * hi <= 4 * (n * n)) by (nonlinear_arith)
                requires
                    -2 * n <= hi < 0,
            ;
            assert(5 * (-2 * s) * (-2 * s) == 4 * (5 * s * s)) by (nonlinear_arith);
        }
    } else {
        assert(n == 0) by (nonlinear_arith)
            requires
                s == 0,
                n >= 0,
                (n + 1) * (n + 1) > 5 * s * s || n + 1 < 0,
                n * n <= 5 * s * s,
        ;
    }
    assert(!le_sqrt5(hi, -2 * s));
    assert(is_nearest(f, 3 * s, -s, 2));
    lemma_round_sqrt5(f, 3 * s, -s, 2);
}

/// The strip closes up: once the two rows and their insets are placed,
/// what is left of the strip is `side / φ²` to within one pixel, so the
/// rows always fit (for every side the layout can produce, `side ≥ 8`).
pub proof fn lemma_strip_closure(side: int)
    requires
        side >= MIN_SIDE_PX,
    ensures
        spec_used(side) < phi2_times(side),
        phi2_times(side) - spec_used(side) - inv_phi2_times(side) <= 1,
        inv_phi2_times(side) - (phi2_times(side) - spec_used(side)) <= 1,
        inv_phi2_times(side) >= 2,
{
    let n = lemma_floor_sqrt5_exists(side);
    lemma_le_sqrt5_double(n, side);
    let m0 = lemma_floor_sqrt5_exists(2 * side);
    lemma_strip_roundings(side, n, m0);
    // √5 < 2.2361 keeps s / φ² from collapsing
    lemma_le_sqrt5_bounds(n, side);
}

/// The side border never shrinks as the photo's short edge grows.
pub proof fn lemma_side_for_mono(a: int, b: int)
    requires
        0 <= a <= b,
    ensures
        MIN_SIDE_PX <= spec_side_for(a) <= spec_side_for(b),
{
    let k = b - a;
    assert(le_sqrt5(9 * a - 9 * b, -4 * b - (-4 * a))) by {
        assert((9 * a - 9 * b) * (9 * a - 9 * b) == 81 * (k * k)
            && 5 * (-4 * b - (-4 * a)) * (-4 * b - (-4 * a)) == 80 * (k * k)) by (nonlinear_arith)
            requires
                k == b - a,
        ;
        assert(k * k >= 0) by (nonlinear_arith);
    }
    lemma_round_monotone(9 * a, -4 * a, 9 * b, -4 * b);
}

/// The strip height is never negative and never shrinks as the side
/// border grows.
pub proof fn lemma_bottom_for_mono(a: int, b: int)
    requires
        0 <= a <= b,
    ensures
        0 <= spec_bottom_for(a) <= spec_bottom_for(b),
{
    assert(is_nearest(0, 0, 0, 2));
    lemma_round_sqrt5(0, 0, 0, 2);
    lemma_round_sqrt5_mono(0, 0, 3 * a, a, 2);
    lemma_round_sqrt5_mono(3 * a, a, 3 * b, b, 2);
}

/// The side border: `max(round(min_dim / φ⁶), 8)`.
pub fn side_for(min_dim: u32) -> (side: u32)
    ensures
        side == spec_side_for(min_dim as int),
        side >= MIN_SIDE_PX,
        side <= min_dim / 16 + MIN_SIDE_PX,
{
    let n = min_dim as i128;
    proof {
        assert(le_sqrt5(-18 * n, -8 * n)) by (nonlinear_arith)
            requires
                n >= 0,
        ;
    }
    let r = round_sqrt5_exec(9 * n, -4 * n, 1);
    proof {
        lemma_nearest_upper(r as int, 9 * n, -4 * n, 1);
    }
    if r < 8 {
        MIN_SIDE_PX
    } else {
        r as u32
    }
}

/// The strip height: `round(side · φ²)`, saturating at `u32::MAX`.
pub fn bottom_for(side: u32) -> (bottom: u32)
    ensures
        bottom == spec_bottom_for(side as int),
{
    let s = side as i128;
    proof {
        assert(le_sqrt5(-6 * s, 2 * s));
    }
    let r = round_sqrt5_exec(3 * s, s, 2);
    if r > 0xffff_ffff {
        u32::MAX
    } else {
        r as u32
    }
}

/// The inset above the first caption row: `round(side / φ)`.
pub fn pad_top_for(side: u32) -> (pad: u32)
    ensures
        pad == inv_phi_times(side as int),
        pad <= side,
{
    let s = side as i128;
    proof {
        assert(le_sqrt5(2 * s, 2 * s)) by (nonlinear_arith)
            requires
                s >= 0,
        ;
    }
    let r = round_sqrt5_exec(-s, s, 2);
    proof {
        lemma_nearest_upper(r as int, -s as int, s as int, 2);
    }
    r as u32
}

/// The caption cap height in whole pixels: `round(side / φ²)`.
pub fn font_height_for(side: u32) -> (font: u32)
    ensures
        font == inv_phi2_times(side as int),
        font <= side,
{
    let s = side as i128;
    proof {
        assert(le_sqrt5(-6 * s, -2 * s)) by (nonlinear_arith)
            requires
                s >= 0,
        ;
    }
    let r = round_sqrt5_exec(3 * s, -s, 2);
    proof {
        lemma_nearest_upper(r as int, 3 * s, -s as int, 2);
    }
    r as u32
}

/// The gap between the two caption rows: `round(side / φ³)`.
pub fn line_gap_for(side: u32) -> (gap: u32)
    ensures
        gap == inv_phi3_times(side as int),
        gap <= side,
{
    let s = side as i128;
    proof {
        assert(le_sqrt5(4 * s, 2 * s)) by (nonlinear_arith)
            requires
                s >= 0,
        ;
    }
    let r = round_sqrt5_exec(-2 * s, s, 1);
    proof {
        lemma_nearest_upper(r as int, -2 * s, s as int, 1);
    }
    r as u32
}

/// The metadata strip and the two caption rows inside it.
///
/// `font_height` is the caption cap height in whole pixels.
#[derive(Copy, Clone, Debug)]
pub struct MetaLayout {
    pub pad_x: u32,
    pub top_line_y: u32,
    pub bottom_line_y: u32,
    pub font_height: u32,
}

/// The spatial layout of the framed output.
#[derive(Copy, Clone, Debug)]
pub struct Layout {
    pub canvas_size: (u32, u32),
    pub photo_origin: (u32, u32),
    pub meta: Option<MetaLayout>,
}

/// `min(a, b)` over integers.
pub open spec fn min_int(a: int, b: int) -> int {
    if a <= b { a } else { b }
}

/// Height below the photo: the metadata strip, or the side border alone.
pub open spec fn spec_strip_for(side: int, show_meta: bool) -> int {
    if show_meta { spec_bottom_for(side) } else { side }
}

/// The canvas fits in `u32` on both axes.
pub open spec fn layout_fits(w: int, h: int, show_meta: bool) -> bool {
    let side = spec_side_for(min_int(w, h));
    &&& w + 2 * side <= u32::MAX
    &&& h + side + spec_strip_for(side, show_meta) <= u32::MAX
}

/// `layout` is the classic layout of a `w × h` photo: a `side` border on
/// the left, right and top, the strip (or another `side`) below, and the
/// caption rows of [`meta_layout_matches`] when the strip is shown.
pub open spec fn is_layout_for(layout: Layout, w: int, h: int, show_meta: bool) -> bool {
    let side = spec_side_for(min_int(w, h));
    let bottom = spec_strip_for(side, show_meta);
    &&& layout.canvas_size.0 == w + 2 * side
    &&& layout.canvas_size.1 == h + side + bottom
    &&& layout.photo_origin.0 == side
    &&& layout.photo_origin.1 == side
    &&& (show_meta <==> layout.meta is Some)
    &&& (layout.meta matches Some(m) ==> meta_layout_matches(m, h + side, bottom, side))
}

/// `m` is the strip layout for a strip starting at `strip_y`.
pub open spec fn meta_layout_matches(m: MetaLayout, strip_y: int, bottom: int, side: int) -> bool {
    &&& m.pad_x == side
    &&& m.top_line_y == spec_top_line_y(strip_y, bottom, side)
    &&& m.bottom_line_y == spec_bottom_line_y(strip_y, bottom, side)
    &&& m.font_height == inv_phi2_times(side)
}

fn meta_layout(strip_y: u32, bottom: u32, side: u32) -> (m: MetaLayout)
    requires
        side >= MIN_SIDE_PX,
        bottom == spec_bottom_for(side as int),
        strip_y >= MIN_SIDE_PX,
        strip_y + bottom <= u32::MAX,
    ensures
        meta_layout_matches(m, strip_y as int, bottom as int, side as int),
        m.bottom_line_y + m.font_height <= strip_y + bottom,
        m.top_line_y >= strip_y,
        m.top_line_y - strip_y - (strip_y + bottom - (m.bottom_line_y + m.font_height)) <= 1,
        (strip_y + bottom - (m.bottom_line_y + m.font_height)) - (m.top_line_y - strip_y) <= 1,
{
    let font_height = font_height_for(side);
    let line_gap = line_gap_for(side);
    let pad_top = pad_top_for(side);
    proof {
        lemma_strip_closure(side as int);
    }
    let used = 2 * (pad_top as u64) + 2 * (font_height as u64) + line_gap as u64;
    let slack = (bottom as u64) - used;
    let half_slack = slack / 2;
    let top_line_y = (strip_y as u64 + pad_top as u64 + half_slack) as u32;
    let bottom_line_y = top_line_y + font_height + line_gap;
    MetaLayout { pad_x: side, top_line_y, bottom_line_y, font_height }
}

/// Lay out a `photo.0 × photo.1` photo, with or without the metadata strip.
pub fn compute(photo: (u32, u32), show_meta: bool) -> (layout: Layout)
    requires
        layout_fits(photo.0 as int, photo.1 as int, show_meta),
    ensures
        is_layout_for(layout, photo.0 as int, photo.1 as int, show_meta),
        // the caption rows sit inside the strip, balanced to within a pixel
        layout.meta matches Some(m) ==> {
            let strip_top = photo.1 + layout.photo_origin.1;
            let strip_bottom = layout.canvas_size.1 as int;
            let top_pad = m.top_line_y - strip_top;
            let bottom_pad = strip_bottom - (m.bottom_line_y + m.font_height);
            &&& top_pad >= 0
            &&& bottom_pad >= 0
            &&& top_pad - bottom_pad <= 1
            &&& bottom_pad - top_pad <= 1
        },
{
    let (w, h) = photo;
    let min_dim = if w <= h { w } else { h };
    let side = side_for(min_dim);
    let bottom = if show_meta { bottom_for(side) } else { side };
    let canvas = (w + 2 * side, h + side + bottom);
    let photo_origin = (side, side);
    let meta = if show_meta {
        Some(meta_layout(h + side, bottom, side))
    } else {
        None
    };
    Layout { canvas_size: canvas, photo_origin, meta }
}

/// Whether the framed canvas of a `photo.0 × photo.1` photo fits in
/// `u32` on both axes (see [`layout_fits`]); [`compute`] needs it.
pub fn canvas_fits(photo: (u32, u32), show_meta: bool) -> (b: bool)
    ensures
        b == layout_fits(photo.0 as int, photo.1 as int, show_meta),
{
    let (w, h) = photo;
    let min_dim = if w <= h { w } else { h };
    let side = side_for(min_dim) as u64;
    let strip = if show_meta { bottom_for(side as u32) as u64 } else { side };
    (w as u64) + 2 * side <= 0xffff_ffff && (h as u64) + side + strip <= 0xffff_ffff
}

} // verus!
