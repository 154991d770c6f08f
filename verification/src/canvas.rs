//! Pasting a photo onto a solid background: the raster half of every
//! framed canvas.
//!
//! Buffers are row-major with `n` bytes per pixel (`n = 3` for RGB, `4`
//! for RGBA); the background colour is one pixel's worth of bytes.

use vstd::prelude::*;
use vstd::arithmetic::div_mod::lemma_fundamental_div_mod_converse;

verus! {

/// Whether pixel `(x, y)` of the canvas lies on the photo placed at
/// `(ox, oy)` with size `pw × ph`.
pub open spec fn on_photo(x: int, y: int, ox: int, oy: int, pw: int, ph: int) -> bool {
    ox <= x < ox + pw && oy <= y < oy + ph
}

/// Byte `i` of the composed canvas: the photo's byte under pixel
/// `(x, y)` when it lies on the photo, else the background's.
pub open spec fn pasted_byte(
    cw: int,
    bg: Seq<u8>,
    photo: Seq<u8>,
    pw: int,
    ph: int,
    ox: int,
    oy: int,
    i: int,
) -> u8 {
    let n = bg.len() as int;
    let p = i / n;
    let c = i % n;
    let x = p % cw;
    let y = p / cw;
    if on_photo(x, y, ox, oy, pw, ph) {
        photo[((y - oy) * pw + (x - ox)) * n + c]
    } else {
        bg[c]
    }
}

/// The `cw × ch` canvas filled with `bg`, with the `pw × ph` photo laid
/// over it at `(ox, oy)`.
pub open spec fn pasted(
    cw: int,
    ch: int,
    bg: Seq<u8>,
    photo: Seq<u8>,
    pw: int,
    ph: int,
    ox: int,
    oy: int,
) -> Seq<u8> {
    Seq::new(
        (cw * ch * bg.len()) as nat,
        |i: int| pasted_byte(cw, bg, photo, pw, ph, ox, oy, i),
    )
}

/// Byte `(y·w + x)·n + c` is channel `c` of pixel `(x, y)`.
pub proof fn lemma_index_split(w: int, n: int, x: int, y: int, c: int)
    requires
        0 <= x < w,
        0 <= y,
        0 <= c < n,
    ensures
        ((y * w + x) * n + c) / n == y * w + x,
        ((y * w + x) * n + c) % n == c,
        (y * w + x) / w == y,
        (y * w + x) % w == x,
{
    lemma_fundamental_div_mod_converse((y * w + x) * n + c, n, y * w + x, c);
    assert(y * w + x == w * y + x) by (nonlinear_arith);
    lemma_fundamental_div_mod_converse(y * w + x, w, y, x);
}

/// Bounds of the byte index of channel `c` of pixel `(x, y)` in a
/// `w × h` buffer.
pub proof fn lemma_index_bounds(w: int, h: int, n: int, x: int, y: int, c: int)
    requires
        0 <= x < w,
        0 <= y < h,
        0 <= c < n,
    ensures
        0 <= y * w <= y * w + x < w * h,
        0 <= (y * w + x) * n <= (y * w + x) * n + c < w * h * n,
        w * h <= w * h * n,
        (y * w + x) * n + n == (y * w + x + 1) * n,
{
    assert(0 <= y * w <= y * w + x < w * h) by (nonlinear_arith)
        requires
            0 <= x < w,
            0 <= y < h,
    {
        assert(y * w + x < (y + 1) * w);
        assert((y + 1) * w <= h * w);
    }
    assert(0 <= (y * w + x) * n + c < w * h * n) by (nonlinear_arith)
        requires
            0 <= x < w,
            0 <= y < h,
            0 <= c < n,
    {
        assert(y * w + x < (y + 1) * w);
        assert((y + 1) * w <= h * w);
        assert(y * w + x + 1 <= h * w);
        assert((y * w + x) * n + c < (y * w + x + 1) * n);
        assert((y * w + x + 1) * n <= (h * w) * n);
    }
    assert((y * w + x) * n + n == (y * w + x + 1) * n) by (nonlinear_arith);
    assert(0 <= (y * w + x) * n) by (nonlinear_arith)
        requires
            0 <= y * w + x,
            0 <= c < n,
    ;
    assert(w * h <= w * h * n) by (nonlinear_arith)
        requires
            0 <= y * w + x < w * h,
            0 <= c < n,
    ;
}

/// Compose the canvas: every pixel is `bg` except those covered by the
/// photo, which keep the photo's bytes.
pub fn paste_on_background(
    canvas: (u32, u32),
    bg: &[u8],
    photo: &[u8],
    photo_size: (u32, u32),
    origin: (u32, u32),
) -> (out: Vec<u8>)
    requires
        bg@.len() > 0,
        canvas.0 * canvas.1 * bg@.len() <= usize::MAX,
        photo@.len() == photo_size.0 * photo_size.1 * bg@.len(),
        origin.0 + photo_size.0 <= canvas.0,
        origin.1 + photo_size.1 <= canvas.1,
    ensures
        out@ == pasted(
            canvas.0 as int,
            canvas.1 as int,
            bg@,
            photo@,
            photo_size.0 as int,
            photo_size.1 as int,
            origin.0 as int,
            origin.1 as int,
        ),
{
    let n = bg.len();
    let cw = canvas.0 as usize;
    let ch = canvas.1 as usize;
    let pw = photo_size.0 as usize;
    let ph = photo_size.1 as usize;
    let ox = origin.0 as usize;
    let oy = origin.1 as usize;
    let ghost expected = pasted(
        cw as int,
        ch as int,
        bg@,
        photo@,
        pw as int,
        ph as int,
        ox as int,
        oy as int,
    );
    let mut out: Vec<u8> = Vec::new();
    let mut y: usize = 0;
    assert(0 * cw * n == 0) by (nonlinear_arith);
    assert(pw * ph * n <= cw * ch * n) by (nonlinear_arith)
        requires
            pw <= cw,
            ph <= ch,
            n > 0,
    ;
    while y < ch
        invariant
            y <= ch,
            n == bg@.len(),
            n > 0,
            cw * ch * n <= usize::MAX,
            photo@.len() == pw * ph * n,
            pw * ph * n <= cw * ch * n,
            ox + pw <= cw,
            oy + ph <= ch,
            expected.len() == cw * ch * n,
            expected == pasted(cw as int, ch as int, bg@, photo@, pw as int, ph as int, ox as int, oy as int),
            out@.len() == y * cw * n,
            out@ == expected.subrange(0, out@.len() as int),
        decreases ch - y,
    {
        let mut x: usize = 0;
        assert(y * cw * n == (y * cw + 0) * n) by (nonlinear_arith);
        while x < cw
            invariant
                y < ch,
                x <= cw,
                n == bg@.len(),
                n > 0,
                cw * ch * n <= usize::MAX,
                photo@.len() == pw * ph * n,
                pw * ph * n <= cw * ch * n,
                ox + pw <= cw,
                oy + ph <= ch,
                expected.len() == cw * ch * n,
                expected == pasted(cw as int, ch as int, bg@, photo@, pw as int, ph as int, ox as int, oy as int),
                out@.len() == (y * cw + x) * n,
                out@ == expected.subrange(0, out@.len() as int),
            decreases cw - x,
        {
            let covered = ox <= x && x < ox + pw && oy <= y && y < oy + ph;
            let mut c: usize = 0;
            while c < n
                invariant
                    y < ch,
                    x < cw,
                    c <= n,
                    n == bg@.len(),
                    cw * ch * n <= usize::MAX,
                    photo@.len() == pw * ph * n,
                    pw * ph * n <= cw * ch * n,
                    covered == on_photo(x as int, y as int, ox as int, oy as int, pw as int, ph as int),
                    expected.len() == cw * ch * n,
                    expected == pasted(cw as int, ch as int, bg@, photo@, pw as int, ph as int, ox as int, oy as int),
                    out@.len() == (y * cw + x) * n + c,
                    out@ == expected.subrange(0, out@.len() as int),
                decreases n - c,
            {
                proof {
                    lemma_index_bounds(cw as int, ch as int, n as int, x as int, y as int, c as int);
                    lemma_index_split(cw as int, n as int, x as int, y as int, c as int);
                }
                let v = if covered {
                    proof {
                        lemma_index_bounds(
                            pw as int,
                            ph as int,
                            n as int,
                            (x - ox) as int,
                            (y - oy) as int,
                            c as int,
                        );
                    }
                    photo[((y - oy) * pw + (x - ox)) * n + c]
                } else {
                    bg[c]
                };
                let ghost i = out@.len() as int;
                assert(expected[i] == v);
                out.push(v);
                assert(out@ =~= expected.subrange(0, i + 1));
                c = c + 1;
            }
            assert((y * cw + x) * n + n == (y * cw + x + 1) * n) by (nonlinear_arith);
            x = x + 1;
        }
        assert((y * cw + cw) * n == (y + 1) * cw * n) by (nonlinear_arith);
        y = y + 1;
    }
    assert(ch * cw * n == cw * ch * n) by (nonlinear_arith);
    assert(out@ =~= expected);
    out
}

/// Reading the composed canvas pixel by pixel: channel `c` of pixel
/// `(x, y)` is the photo's channel `c` at `(x − ox, y − oy)` where the
/// photo covers the pixel, and the background's channel `c` elsewhere.
pub proof fn lemma_pasted_pixel(
    cw: int,
    ch: int,
    bg: Seq<u8>,
    photo: Seq<u8>,
    pw: int,
    ph: int,
    ox: int,
    oy: int,
    x: int,
    y: int,
    c: int,
)
    requires
        0 <= x < cw,
        0 <= y < ch,
        0 <= c < bg.len(),
    ensures
        pasted(cw, ch, bg, photo, pw, ph, ox, oy)[(y * cw + x) * bg.len() + c] == (if on_photo(
            x,
            y,
            ox,
            oy,
            pw,
            ph,
        ) {
            photo[((y - oy) * pw + (x - ox)) * bg.len() + c]
        } else {
            bg[c]
        }),
{
    let n = bg.len() as int;
    lemma_index_bounds(cw, ch, n, x, y, c);
    lemma_index_split(cw, n, x, y, c);
}

} // verus!
