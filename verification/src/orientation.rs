//! The EXIF `Orientation` tag (EXIF 2.32 §4.6.4).

use vstd::prelude::*;
use vstd::arithmetic::div_mod::{lemma_div_pos_is_pos, lemma_fundamental_div_mod, lemma_mod_pos_bound};
use crate::canvas::{lemma_index_bounds, lemma_index_split};
use crate::pixels::Pixels;

verus! {

/// How the camera was held; the pixels must be turned this way to stand
/// upright.
#[derive(Copy, Clone, Debug, PartialEq, Eq, Structural, Hash)]
pub enum Orientation {
    Normal,
    FlipH,
    Rotate180,
    FlipV,
    Transpose,
    Rotate90Cw,
    Transverse,
    Rotate270Cw,
}

/// The variant a raw tag value names; unknown values read as `Normal`.
pub open spec fn spec_orientation(raw: int) -> Orientation {
    if raw == 2 {
        Orientation::FlipH
    } else if raw == 3 {
        Orientation::Rotate180
    } else if raw == 4 {
        Orientation::FlipV
    } else if raw == 5 {
        Orientation::Transpose
    } else if raw == 6 {
        Orientation::Rotate90Cw
    } else if raw == 7 {
        Orientation::Transverse
    } else if raw == 8 {
        Orientation::Rotate270Cw
    } else {
        Orientation::Normal
    }
}

/// The raw value each variant is written as.
pub open spec fn orientation_code(o: Orientation) -> u16 {
    match o {
        Orientation::Normal => 1,
        Orientation::FlipH => 2,
        Orientation::Rotate180 => 3,
        Orientation::FlipV => 4,
        Orientation::Transpose => 5,
        Orientation::Rotate90Cw => 6,
        Orientation::Transverse => 7,
        Orientation::Rotate270Cw => 8,
    }
}

impl Orientation {
    /// Read a raw tag value; anything outside `2..=8` is `Normal`.
    pub fn from_raw(raw: u16) -> (o: Self)
        ensures
            o == spec_orientation(raw as int),
    {
        Self::map_raw(raw)
    }

    fn map_raw(raw: u16) -> (o: Self)
        ensures
            o == spec_orientation(raw as int),
    {
        match raw {
            2 => Orientation::FlipH,
            3 => Orientation::Rotate180,
            4 => Orientation::FlipV,
            5 => Orientation::Transpose,
            6 => Orientation::Rotate90Cw,
            7 => Orientation::Transverse,
            8 => Orientation::Rotate270Cw,
            _ => Orientation::Normal,
        }
    }

    /// A value that breaks the EXIF specification and deserves a warning:
    /// outside `1..=8`, except `0`, which some writers use for
    /// "unspecified".
    pub fn is_nonconformant(raw: u16) -> (b: bool)
        ensures
            b == (raw != 0 && !(1 <= raw <= 8)),
    {
        raw != 0 && !(1 <= raw && raw <= 8)
    }
}

/// Whether turning the pixels upright swaps width and height.
pub open spec fn turns_sideways(o: Orientation) -> bool {
    5 <= orientation_code(o) <= 8
}

/// `(width, height)` of a `w × h` image once turned upright.
pub open spec fn upright_size(o: Orientation, w: int, h: int) -> (int, int) {
    if turns_sideways(o) {
        (h, w)
    } else {
        (w, h)
    }
}

/// The source pixel that lands on `(x, y)` of the upright image, for a
/// `w × h` source: a mirror, a half turn, a quarter turn clockwise
/// (`Rotate90Cw`) or anticlockwise (`Rotate270Cw`), or a quarter turn
/// followed by a horizontal mirror (`Transpose`, `Transverse`).
pub open spec fn upright_source(o: Orientation, w: int, h: int, x: int, y: int) -> (int, int) {
    match o {
        Orientation::Normal => (x, y),
        Orientation::FlipH => (w - 1 - x, y),
        Orientation::Rotate180 => (w - 1 - x, h - 1 - y),
        Orientation::FlipV => (x, h - 1 - y),
        Orientation::Transpose => (y, x),
        Orientation::Rotate90Cw => (y, h - 1 - x),
        Orientation::Transverse => (w - 1 - y, h - 1 - x),
        Orientation::Rotate270Cw => (w - 1 - y, x),
    }
}

/// Byte `i` of the upright RGBA8 image.
pub open spec fn upright_byte(o: Orientation, w: int, h: int, src: Seq<u8>, i: int) -> u8 {
    let uw = upright_size(o, w, h).0;
    let p = i / 4;
    let c = i % 4;
    let s = upright_source(o, w, h, p % uw, p / uw);
    src[(s.1 * w + s.0) * 4 + c]
}

/// The RGBA8 bytes of a `w × h` image turned upright.
pub open spec fn upright(o: Orientation, w: int, h: int, src: Seq<u8>) -> Seq<u8> {
    Seq::new((w * h * 4) as nat, |i: int| upright_byte(o, w, h, src, i))
}

/// The source of an upright pixel lies inside the source image.
proof fn lemma_source_inside(o: Orientation, w: int, h: int, x: int, y: int)
    requires
        0 <= x < upright_size(o, w, h).0,
        0 <= y < upright_size(o, w, h).1,
    ensures
        0 <= upright_source(o, w, h, x, y).0 < w,
        0 <= upright_source(o, w, h, x, y).1 < h,
{
}

/// Turn `pixels`, a picture taken with the camera held as `o` says,
/// upright.
pub fn normalize(pixels: Pixels, o: Orientation) -> (out: Pixels)
    ensures
        (out.spec_width() as int, out.spec_height() as int) == upright_size(
            o,
            pixels.spec_width() as int,
            pixels.spec_height() as int,
        ),
        out.spec_data() == upright(
            o,
            pixels.spec_width() as int,
            pixels.spec_height() as int,
            pixels.spec_data(),
        ),
{
    let (w32, h32) = pixels.dimensions();
    let src = pixels.as_rgba8();
    let ghost s = src@;
    let total: usize = src.len();
    let w = w32 as usize;
    let h = h32 as usize;
    assert(w * h * 4 == s.len());
    let sideways = match o {
        Orientation::Transpose | Orientation::Rotate90Cw | Orientation::Transverse
        | Orientation::Rotate270Cw => true,
        _ => false,
    };
    let uw: usize = if sideways { h } else { w };
    let uh: usize = if sideways { w } else { h };
    assert(uw * uh * 4 == w * h * 4) by (nonlinear_arith)
        requires
            (uw == h && uh == w) || (uw == w && uh == h),
    ;
    let ghost expected = upright(o, w as int, h as int, s);
    let mut out: Vec<u8> = Vec::new();
    let mut y: usize = 0;
    assert(0 * uw * 4 == 0) by (nonlinear_arith);
    while y < uh
        invariant
            y <= uh,
            s == src@,
            s.len() == w * h * 4,
            total == s.len(),
            uw * uh * 4 == w * h * 4,
            (uw as int, uh as int) == upright_size(o, w as int, h as int),
            expected == upright(o, w as int, h as int, s),
            out@.len() == y * uw * 4,
            out@ == expected.subrange(0, out@.len() as int),
        decreases uh - y,
    {
        let mut x: usize = 0;
        assert(y * uw * 4 == (y * uw + 0) * 4) by (nonlinear_arith);
        while x < uw
            invariant
                y < uh,
                x <= uw,
                s == src@,
                s.len() == w * h * 4,
                total == s.len(),
            total == s.len(),
                uw * uh * 4 == w * h * 4,
                (uw as int, uh as int) == upright_size(o, w as int, h as int),
                expected == upright(o, w as int, h as int, s),
                out@.len() == (y * uw + x) * 4,
                out@ == expected.subrange(0, out@.len() as int),
            decreases uw - x,
        {
            proof {
                lemma_source_inside(o, w as int, h as int, x as int, y as int);
            }
            let (sx, sy): (usize, usize) = match o {
                Orientation::Normal => (x, y),
                Orientation::FlipH => (w - 1 - x, y),
                Orientation::Rotate180 => (w - 1 - x, h - 1 - y),
                Orientation::FlipV => (x, h - 1 - y),
                Orientation::Transpose => (y, x),
                Orientation::Rotate90Cw => (y, h - 1 - x),
                Orientation::Transverse => (w - 1 - y, h - 1 - x),
                Orientation::Rotate270Cw => (w - 1 - y, x),
            };
            assert((sx as int, sy as int) == upright_source(o, w as int, h as int, x as int, y as int));
            let mut c: usize = 0;
            while c < 4
                invariant
                    y < uh,
                    x < uw,
                    c <= 4,
                    sx < w,
                    sy < h,
                    (sx as int, sy as int) == upright_source(o, w as int, h as int, x as int, y as int),
                    s == src@,
                    s.len() == w * h * 4,
                    total == s.len(),
                total == s.len(),
            total == s.len(),
                    uw * uh * 4 == w * h * 4,
                    (uw as int, uh as int) == upright_size(o, w as int, h as int),
                    expected == upright(o, w as int, h as int, s),
                    out@.len() == (y * uw + x) * 4 + c,
                    out@ == expected.subrange(0, out@.len() as int),
                decreases 4 - c,
            {
                proof {
                    lemma_index_bounds(uw as int, uh as int, 4, x as int, y as int, c as int);
                    lemma_index_split(uw as int, 4, x as int, y as int, c as int);
                    lemma_index_bounds(w as int, h as int, 4, sx as int, sy as int, c as int);
                }
                let v = src[(sy * w + sx) * 4 + c];
                let ghost i = out@.len() as int;
                assert(expected[i] == v);
                out.push(v);
                assert(out@ =~= expected.subrange(0, i + 1));
                c = c + 1;
            }
            assert((y * uw + x) * 4 + 4 == (y * uw + x + 1) * 4);
            x = x + 1;
        }
        assert((y * uw + uw) * 4 == (y + 1) * uw * 4) by (nonlinear_arith);
        y = y + 1;
    }
    assert(uh * uw * 4 == w * h * 4) by (nonlinear_arith)
        requires
            uw * uh * 4 == w * h * 4,
    ;
    assert(out@ =~= expected);
    assert(uw * uh * 4 <= usize::MAX);
    match Pixels::from_rgba8(uw as u32, uh as u32, out) {
        Ok(p) => p,
        Err(_) => {
            assert(false);
            pixels
        },
    }
}

/// Byte `i` of a `gw × gh` RGBA8 grid is channel `i % 4` of pixel
/// `((i / 4) % gw, (i / 4) / gw)`.
proof fn lemma_grid_position(gw: int, gh: int, i: int)
    requires
        gw > 0,
        gh > 0,
        0 <= i < gw * gh * 4,
    ensures
        0 <= (i / 4) % gw < gw,
        0 <= (i / 4) / gw < gh,
        0 <= i % 4 < 4,
        i == (((i / 4) / gw) * gw + (i / 4) % gw) * 4 + i % 4,
{
    let p = i / 4;
    lemma_fundamental_div_mod(i, 4);
    lemma_mod_pos_bound(i, 4);
    lemma_div_pos_is_pos(i, 4);
    assert(p < gw * gh);
    lemma_fundamental_div_mod(p, gw);
    lemma_mod_pos_bound(p, gw);
    lemma_div_pos_is_pos(p, gw);
    assert(p / gw < gh) by (nonlinear_arith)
        requires
            p == gw * (p / gw) + p % gw,
            0 <= p % gw,
            p < gw * gh,
            gw > 0,
    ;
    assert(p == (p / gw) * gw + p % gw) by (nonlinear_arith)
        requires
            p == gw * (p / gw) + p % gw,
    ;
}

/// Reading the upright image pixel by pixel: channel `c` of upright
/// pixel `(x, y)` is channel `c` of its source pixel.
pub proof fn lemma_upright_pixel(o: Orientation, w: int, h: int, src: Seq<u8>, x: int, y: int, c: int)
    requires
        0 <= x < upright_size(o, w, h).0,
        0 <= y < upright_size(o, w, h).1,
        0 <= c < 4,
    ensures
        ({
            let uw = upright_size(o, w, h).0;
            let s = upright_source(o, w, h, x, y);
            upright(o, w, h, src)[(y * uw + x) * 4 + c] == src[(s.1 * w + s.0) * 4 + c]
        }),
{
    let (uw, uh) = upright_size(o, w, h);
    lemma_index_bounds(uw, uh, 4, x, y, c);
    lemma_index_split(uw, 4, x, y, c);
    assert(uw * uh * 4 == w * h * 4) by (nonlinear_arith)
        requires
            (uw == h && uh == w) || (uw == w && uh == h),
    ;
}

/// Turning by `o` and then by `back` restores every byte when each
/// source pixel of `back` is the pixel `o` moved there.
proof fn lemma_undo(o: Orientation, back: Orientation, w: int, h: int, src: Seq<u8>)
    requires
        w > 0,
        h > 0,
        src.len() == w * h * 4,
        upright_size(o, w, h) == (h, w) || upright_size(o, w, h) == (w, h),
        upright_size(back, upright_size(o, w, h).0, upright_size(o, w, h).1) == (w, h),
        forall|x: int, y: int|
            #![trigger upright_source(back, upright_size(o, w, h).0, upright_size(o, w, h).1, x, y)]
            0 <= x < w && 0 <= y < h ==> {
                let m = upright_source(back, upright_size(o, w, h).0, upright_size(o, w, h).1, x, y);
                &&& 0 <= m.0 < upright_size(o, w, h).0
                &&& 0 <= m.1 < upright_size(o, w, h).1
                &&& upright_source(o, w, h, m.0, m.1) == (x, y)
            },
    ensures
        upright(back, upright_size(o, w, h).0, upright_size(o, w, h).1, upright(o, w, h, src)) == src,
{
    let (mw, mh) = upright_size(o, w, h);
    let mid = upright(o, w, h, src);
    let fin = upright(back, mw, mh, mid);
    assert(mw * mh * 4 == w * h * 4) by (nonlinear_arith)
        requires
            (mw == h && mh == w) || (mw == w && mh == h),
    ;
    assert forall|i: int| 0 <= i < src.len() implies fin[i] == src[i] by {
        lemma_grid_position(w, h, i);
        let x = (i / 4) % w;
        let y = (i / 4) / w;
        let c = i % 4;
        let m = upright_source(back, mw, mh, x, y);
        assert(upright_source(o, w, h, m.0, m.1) == (x, y));
        lemma_upright_pixel(back, mw, mh, mid, x, y, c);
        lemma_upright_pixel(o, w, h, src, m.0, m.1, c);
    }
    assert(fin =~= src);
}

/// What one turn does, the opposite turn undoes: a quarter turn either
/// way is undone by the quarter turn the other way; a half turn, either
/// mirror and either diagonal mirror undo themselves.
pub proof fn lemma_turns_undo(w: int, h: int, src: Seq<u8>)
    requires
        w > 0,
        h > 0,
        src.len() == w * h * 4,
    ensures
        upright(Orientation::Rotate270Cw, h, w, upright(Orientation::Rotate90Cw, w, h, src)) == src,
        upright(Orientation::Rotate90Cw, h, w, upright(Orientation::Rotate270Cw, w, h, src)) == src,
        upright(Orientation::Rotate180, w, h, upright(Orientation::Rotate180, w, h, src)) == src,
        upright(Orientation::FlipH, w, h, upright(Orientation::FlipH, w, h, src)) == src,
        upright(Orientation::FlipV, w, h, upright(Orientation::FlipV, w, h, src)) == src,
        upright(Orientation::Transpose, h, w, upright(Orientation::Transpose, w, h, src)) == src,
        upright(Orientation::Transverse, h, w, upright(Orientation::Transverse, w, h, src)) == src,
{
    lemma_undo(Orientation::Rotate90Cw, Orientation::Rotate270Cw, w, h, src);
    lemma_undo(Orientation::Rotate270Cw, Orientation::Rotate90Cw, w, h, src);
    lemma_undo(Orientation::Rotate180, Orientation::Rotate180, w, h, src);
    lemma_undo(Orientation::FlipH, Orientation::FlipH, w, h, src);
    lemma_undo(Orientation::FlipV, Orientation::FlipV, w, h, src);
    lemma_undo(Orientation::Transpose, Orientation::Transpose, w, h, src);
    lemma_undo(Orientation::Transverse, Orientation::Transverse, w, h, src);
}

/// Every variant is read back from the value it is written as.
pub proof fn lemma_orientation_round_trip(o: Orientation)
    ensures
        spec_orientation(orientation_code(o) as int) == o,
{
}

} // verus!
