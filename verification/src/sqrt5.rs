//! Exact arithmetic in Z[√5] for the golden-ratio layout.
//!
//! Every layout length is the nearest integer to a value of the form
//! `(p + q·√5) / d` (powers of φ live in that ring). Comparisons against
//! `√5` are decided on integers by squaring, so rounding is exact.

use vstd::prelude::*;

verus! {

/// `x ≤ y·√5`, decided on integers.
pub open spec fn le_sqrt5(x: int, y: int) -> bool {
    if y >= 0 {
        x < 0 || x * x <= 5 * y * y
    } else {
        x < 0 && x * x >= 5 * y * y
    }
}

/// `r` is the integer nearest to `(p + q√5) / d`: `r − ½ ≤ v < r + ½`.
/// (The value is irrational unless `q = 0`, so ties never occur.)
pub open spec fn is_nearest(r: int, p: int, q: int, d: int) -> bool {
    &&& le_sqrt5(d * (2 * r - 1) - 2 * p, 2 * q)
    &&& !le_sqrt5(d * (2 * r + 1) - 2 * p, 2 * q)
}

/// The integer nearest to `(p + q√5) / d`.
pub open spec fn round_sqrt5(p: int, q: int, d: int) -> int {
    choose|r: int| is_nearest(r, p, q, d)
}

/// `le_sqrt5` is downward closed in its first argument.
pub proof fn lemma_le_sqrt5_mono(x1: int, x2: int, y: int)
    requires
        x1 <= x2,
        le_sqrt5(x2, y),
    ensures
        le_sqrt5(x1, y),
{
    if y >= 0 {
        if x1 >= 0 {
            assert(x1 * x1 <= x2 * x2) by (nonlinear_arith)
                requires
                    0 <= x1 <= x2,
            ;
        }
    } else {
        assert(x1 * x1 >= x2 * x2) by (nonlinear_arith)
            requires
                x1 <= x2 < 0,
        ;
    }
}

/// At most one integer is nearest to a given value.
pub proof fn lemma_nearest_unique(r1: int, r2: int, p: int, q: int, d: int)
    requires
        d > 0,
        is_nearest(r1, p, q, d),
        is_nearest(r2, p, q, d),
    ensures
        r1 == r2,
{
    if r1 < r2 {
        assert(d * (2 * r1 + 1) <= d * (2 * r2 - 1)) by (nonlinear_arith)
            requires
                r1 < r2,
                d > 0,
        ;
        lemma_le_sqrt5_mono(d * (2 * r1 + 1) - 2 * p, d * (2 * r2 - 1) - 2 * p, 2 * q);
    } else if r2 < r1 {
        assert(d * (2 * r2 + 1) <= d * (2 * r1 - 1)) by (nonlinear_arith)
            requires
                r2 < r1,
                d > 0,
        ;
        lemma_le_sqrt5_mono(d * (2 * r2 + 1) - 2 * p, d * (2 * r1 - 1) - 2 * p, 2 * q);
    }
}

/// A witnessed nearest integer is the one `round_sqrt5` names.
pub proof fn lemma_round_sqrt5(r: int, p: int, q: int, d: int)
    requires
        d > 0,
        is_nearest(r, p, q, d),
    ensures
        round_sqrt5(p, q, d) == r,
{
    let c = round_sqrt5(p, q, d);
    assert(is_nearest(c, p, q, d));
    lemma_nearest_unique(c, r, p, q, d);
}

/// Rational bounds on √5 read off the integer comparison:
/// `2.2360 < √5 < 2.2361`.
pub proof fn lemma_le_sqrt5_bounds(x: int, y: int)
    ensures
        y >= 0 && le_sqrt5(x, y) ==> 10000 * x <= 22361 * y,
        y >= 0 && !le_sqrt5(x, y) ==> 10000 * x >= 22360 * y,
        y < 0 && le_sqrt5(x, y) ==> 10000 * x <= 22360 * y,
        y < 0 && !le_sqrt5(x, y) ==> 10000 * x >= 22361 * y,
{
    if y >= 0 {
        if le_sqrt5(x, y) && x >= 0 {
            assert(10000 * x <= 22361 * y) by (nonlinear_arith)
                requires
                    x >= 0,
                    y >= 0,
                    x * x <= 5 * y * y,
            ;
        }
        if !le_sqrt5(x, y) {
            assert(10000 * x >= 22360 * y) by (nonlinear_arith)
                requires
                    x >= 0,
                    y >= 0,
                    x * x > 5 * y * y,
            ;
        }
    } else {
        if le_sqrt5(x, y) {
            assert(10000 * x <= 22360 * y) by (nonlinear_arith)
                requires
                    x < 0,
                    y < 0,
                    x * x >= 5 * y * y,
            ;
        }
        if !le_sqrt5(x, y) && x < 0 {
            assert(10000 * x >= 22361 * y) by (nonlinear_arith)
                requires
                    x < 0,
                    y < 0,
                    x * x < 5 * y * y,
            ;
        }
    }
}


/// `|x|`.
pub open spec fn abs(x: int) -> int {
    if x < 0 { -x } else { x }
}

/// `√5` is irrational: no non-zero `s` has `5·s²` a perfect square.
pub proof fn lemma_sqrt5_irrational(k: int, s: int)
    requires
        s != 0,
    ensures
        k * k != 5 * s * s,
    decreases abs(s),
{
    if k * k == 5 * s * s {
        let q = k / 5;
        let r = k % 5;
        assert(k * k == 25 * q * q + 10 * q * r + r * r) by (nonlinear_arith)
            requires
                k == 5 * q + r,
        ;
        assert(r * r == 5 * (s * s - 5 * q * q - 2 * q * r)) by (nonlinear_arith)
            requires
                k * k == 25 * q * q + 10 * q * r + r * r,
                k * k == 5 * s * s,
        ;
        assert(r == 0) by {
            if r == 1 {
                assert(r * r == 1);
            } else if r == 2 {
                assert(r * r == 4);
            } else if r == 3 {
                assert(r * r == 9);
            } else if r == 4 {
                assert(r * r == 16);
            }
        }
        assert(s * s == 5 * q * q) by (nonlinear_arith)
            requires
                k == 5 * q,
                k * k == 5 * s * s,
        ;
        assert(q != 0 && abs(q) < abs(s)) by (nonlinear_arith)
            requires
                s * s == 5 * q * q,
                s != 0,
        ;
        lemma_sqrt5_irrational(s, q);
    }
}

/// Scaling both sides by two leaves the comparison unchanged.
pub proof fn lemma_le_sqrt5_double(x: int, y: int)
    ensures
        le_sqrt5(2 * x, 2 * y) == le_sqrt5(x, y),
{
    assert((2 * x) * (2 * x) == 4 * (x * x) && 5 * (2 * y) * (2 * y) == 4 * (5 * y * y))
        by (nonlinear_arith);
}

/// Every non-negative integer has an integer square root.
pub proof fn lemma_isqrt_exists(x: int) -> (r: int)
    requires
        x >= 0,
    ensures
        r >= 0,
        r * r <= x < (r + 1) * (r + 1),
    decreases x,
{
    if x == 0 {
        0
    } else {
        let r0 = lemma_isqrt_exists(x - 1);
        if (r0 + 1) * (r0 + 1) <= x {
            assert(x < (r0 + 2) * (r0 + 2)) by (nonlinear_arith)
                requires
                    x - 1 < (r0 + 1) * (r0 + 1),
                    r0 >= 0,
            ;
            r0 + 1
        } else {
            r0
        }
    }
}

/// `⌊y·√5⌋` exists for every `y ≥ 0`.
pub proof fn lemma_floor_sqrt5_exists(y: int) -> (n: int)
    requires
        y >= 0,
    ensures
        n >= 0,
        le_sqrt5(n, y),
        !le_sqrt5(n + 1, y),
{
    assert(5 * y * y >= 0) by (nonlinear_arith)
        requires
            y >= 0,
    ;
    lemma_isqrt_exists(5 * y * y)
}

/// Rounding keeps order: `(p1 + q1√5)/d ≤ (p2 + q2√5)/d` gives
/// `round_sqrt5(p1, q1, d) ≤ round_sqrt5(p2, q2, d)`.
pub proof fn lemma_round_sqrt5_mono(p1: int, q1: int, p2: int, q2: int, d: int)
    requires
        d > 0,
        le_sqrt5(p1 - p2, q2 - q1),
    ensures
        round_sqrt5(p1, q1, d) <= round_sqrt5(p2, q2, d),
{
    lemma_round_sqrt5_nearest(p1, q1, d);
    lemma_round_sqrt5_nearest(p2, q2, d);
    let r1 = round_sqrt5(p1, q1, d);
    let r2 = round_sqrt5(p2, q2, d);
    if r1 > r2 {
        // r1 − ½ ≤ v1 ≤ v2 < r2 + ½ ≤ r1 − ½
        lemma_le_sqrt5_double(p1 - p2, q2 - q1);
        let x1 = d * (2 * r1 - 1) - 2 * p1;
        lemma_le_sqrt5_add(x1, 2 * q1, 2 * (p1 - p2), 2 * (q2 - q1));
        assert(x1 + 2 * (p1 - p2) == d * (2 * r1 - 1) - 2 * p2);
        assert(2 * q1 + 2 * (q2 - q1) == 2 * q2);
        assert(d * (2 * r2 + 1) <= d * (2 * r1 - 1)) by (nonlinear_arith)
            requires
                d > 0,
                r2 + 1 <= r1,
        ;
        lemma_le_sqrt5_mono(d * (2 * r2 + 1) - 2 * p2, d * (2 * r1 - 1) - 2 * p2, 2 * q2);
    }
}

/// Integer square root: `r² ≤ x < (r+1)²`.
pub fn isqrt(x: u128) -> (r: u128)
    requires
        x < 0x10_0000_0000_0000_0000_0000,
    ensures
        r * r <= x < (r + 1) * (r + 1),
{
    let mut lo: u128 = 0;
    let mut hi: u128 = 0x400_0000_0000;
    assert(hi * hi > x) by (nonlinear_arith)
        requires
            hi == 0x400_0000_0000,
            x < 0x10_0000_0000_0000_0000_0000,
    ;
    while hi - lo > 1
        invariant
            lo < hi <= 0x400_0000_0000,
            lo * lo <= x,
            x < hi * hi,
        decreases hi - lo,
    {
        let mid = lo + (hi - lo) / 2;
        assert(mid * mid <= 0x400_0000_0000 * 0x400_0000_0000) by (nonlinear_arith)
            requires
                mid <= 0x400_0000_0000,
        ;
        if mid * mid <= x {
            lo = mid;
        } else {
            hi = mid;
        }
    }
    assert(hi == lo + 1);
    lo
}

/// `⌊b·√5⌋` for `|b| < 2⁴⁰`.
pub fn floor_sqrt5_times(b: i128) -> (s: i128)
    requires
        -0x100_0000_0000 < b < 0x100_0000_0000,
    ensures
        le_sqrt5(s as int, b as int),
        !le_sqrt5(s + 1, b as int),
        -0x400_0000_0000 < s < 0x400_0000_0000,
{
    let m: u128 = if b >= 0 { b as u128 } else { (-b) as u128 };
    assert(m * m < 0x100_0000_0000 * 0x100_0000_0000) by (nonlinear_arith)
        requires
            m < 0x100_0000_0000,
    ;
    let sq = 5 * (m * m);
    let t = isqrt(sq);
    let ghost bi = b as int;
    let ghost ti = t as int;
    proof {
        assert(t < 0x300_0000_0000) by (nonlinear_arith)
            requires
                t * t <= sq,
                sq < 5 * 0x100_0000_0000 * 0x100_0000_0000,
        ;
        assert(5 * bi * bi == sq) by (nonlinear_arith)
            requires
                m as int == bi || m as int == -bi,
                sq == 5 * (m * m),
        ;
        assert(ti * ti <= 5 * bi * bi < (ti + 1) * (ti + 1));
    }
    if b >= 0 {
        t as i128
    } else if t * t == sq {
        proof {
            assert(ti > 0) by (nonlinear_arith)
                requires
                    ti * ti == 5 * bi * bi,
                    bi < 0,
                    ti >= 0,
            ;
            assert((-ti) * (-ti) == ti * ti) by (nonlinear_arith);
            assert((1 - ti) * (1 - ti) < ti * ti) by (nonlinear_arith)
                requires
                    ti > 0,
            ;
        }
        -(t as i128)
    } else {
        proof {
            assert((-ti - 1) * (-ti - 1) == (ti + 1) * (ti + 1)) by (nonlinear_arith);
            assert((-ti) * (-ti) == ti * ti) by (nonlinear_arith);
        }
        -(t as i128) - 1
    }
}

/// The integer nearest to `(p + q√5)/d`.
pub fn round_sqrt5_exec(p: i128, q: i128, d: i128) -> (r: i128)
    requires
        0 < d <= 2,
        -0x1000_0000_0000_0000 < p < 0x1000_0000_0000_0000,
        -0x40_0000_0000 < q < 0x40_0000_0000,
    ensures
        is_nearest(r as int, p as int, q as int, d as int),
        r == round_sqrt5(p as int, q as int, d as int),
        le_sqrt5(-2 * p, 2 * q) ==> r >= 0,
{
    let a = 2 * p + d;
    let b = 2 * q;
    let c = 2 * d;
    let s = floor_sqrt5_times(b);
    proof {
        if le_sqrt5(-2 * p, 2 * q) && s + 1 <= -2 * p {
            lemma_le_sqrt5_mono(s as int + 1, -2 * p, b as int);
        }
    }
    let n = a + s;
    let r = if n >= 0 {
        n / c
    } else {
        -((-n + c - 1) / c)
    };
    proof {
        assert(c * r <= n < c * (r + 1)) by (nonlinear_arith)
            requires
                c > 0,
                n >= 0 ==> r == (n as int) / (c as int),
                n < 0 ==> r == -((-(n as int) + c - 1) / (c as int)),
        ;
        assert(d * (2 * r - 1) - 2 * p == c * r - a && d * (2 * r + 1) - 2 * p == c * (r + 1)
            - a) by (nonlinear_arith)
            requires
                c == 2 * d,
                a == 2 * p + d,
        ;
        lemma_le_sqrt5_mono(c * r - a, s as int, b as int);
        if le_sqrt5(d * (2 * r + 1) - 2 * p, b as int) {
            lemma_le_sqrt5_mono(s + 1, d * (2 * r + 1) - 2 * p, b as int);
        }
        if n >= 0 {
            assert(r >= 0) by (nonlinear_arith)
                requires
                    c > 0,
                    n >= 0,
                    r == (n as int) / (c as int),
            ;
        }
        lemma_round_sqrt5(r as int, p as int, q as int, d as int);
    }
    r
}

/// For non-negative `a_i`, `c_i`: `a1² ≤ 5c1²` and `a2² ≤ 5c2²` give
/// `(a1 + a2)² ≤ 5(c1 + c2)²`; with `≥` throughout, the same.
proof fn lemma_sum_squares(a1: int, c1: int, a2: int, c2: int, below: bool)
    requires
        a1 >= 0,
        a2 >= 0,
        c1 >= 0,
        c2 >= 0,
        below ==> a1 * a1 <= 5 * c1 * c1 && a2 * a2 <= 5 * c2 * c2,
        !below ==> a1 * a1 >= 5 * c1 * c1 && a2 * a2 >= 5 * c2 * c2,
    ensures
        below ==> (a1 + a2) * (a1 + a2) <= 5 * (c1 + c2) * (c1 + c2),
        !below ==> (a1 + a2) * (a1 + a2) >= 5 * (c1 + c2) * (c1 + c2),
{
    assert((a1 * a2) * (a1 * a2) == (a1 * a1) * (a2 * a2)) by (nonlinear_arith);
    assert((5 * c1 * c2) * (5 * c1 * c2) == (5 * c1 * c1) * (5 * c2 * c2)) by (nonlinear_arith);
    assert((a1 + a2) * (a1 + a2) == a1 * a1 + 2 * (a1 * a2) + a2 * a2) by (nonlinear_arith);
    assert(5 * (c1 + c2) * (c1 + c2) == 5 * c1 * c1 + 2 * (5 * c1 * c2) + 5 * c2 * c2)
        by (nonlinear_arith);
    if below {
        assert((a1 * a1) * (a2 * a2) <= (5 * c1 * c1) * (5 * c2 * c2)) by (nonlinear_arith)
            requires
                0 <= a1 * a1 <= 5 * c1 * c1,
                0 <= a2 * a2 <= 5 * c2 * c2,
        ;
        assert(a1 * a2 <= 5 * c1 * c2) by (nonlinear_arith)
            requires
                (a1 * a2) * (a1 * a2) <= (5 * c1 * c2) * (5 * c1 * c2),
                a1 * a2 >= 0,
                5 * c1 * c2 >= 0,
        ;
    } else {
        assert((a1 * a1) * (a2 * a2) >= (5 * c1 * c1) * (5 * c2 * c2)) by (nonlinear_arith)
            requires
                a1 * a1 >= 5 * c1 * c1 >= 0,
                a2 * a2 >= 5 * c2 * c2 >= 0,
        ;
        assert(a1 * a2 >= 5 * c1 * c2) by (nonlinear_arith)
            requires
                (a1 * a2) * (a1 * a2) >= (5 * c1 * c2) * (5 * c1 * c2),
                a1 * a2 >= 0,
                5 * c1 * c2 >= 0,
        ;
    }
}

/// `x1 ≤ y1·√5` and `x2 ≤ y2·√5`, with `y1 ≥ 0 > y2`, add up.
proof fn lemma_le_sqrt5_add_mixed(x1: int, y1: int, x2: int, y2: int)
    requires
        le_sqrt5(x1, y1),
        le_sqrt5(x2, y2),
        y1 >= 0,
        y2 < 0,
    ensures
        le_sqrt5(x1 + x2, y1 + y2),
{
    let b = -x2;
    let e = -y2;
    assert(b * b == x2 * x2 && 5 * e * e == 5 * y2 * y2) by (nonlinear_arith)
        requires
            b == -x2,
            e == -y2,
    ;
    let xs = x1 + x2;
    let ys = y1 + y2;
    if ys >= 0 {
        if xs >= 0 {
            assert((x1 - b) * (x1 - b) <= 5 * (y1 - e) * (y1 - e)) by (nonlinear_arith)
                requires
                    0 <= b <= x1,
                    0 <= e <= y1,
                    x1 * x1 <= 5 * y1 * y1,
                    b * b >= 5 * e * e,
            ;
            assert(xs * xs == (x1 - b) * (x1 - b) && 5 * ys * ys == 5 * (y1 - e) * (y1 - e));
        }
    } else {
        // ys < 0: the sum lies below √5 times a negative number
        let t = -xs;
        let z = -ys;
        assert(xs * xs == t * t && 5 * ys * ys == 5 * z * z) by (nonlinear_arith)
            requires
                t == -xs,
                z == -ys,
        ;
        if x1 <= 0 {
            assert(t * t >= 5 * z * z) by (nonlinear_arith)
                requires
                    t == b - x1,
                    z == e - y1,
                    x1 <= 0,
                    b > 0,
                    0 <= y1 < e,
                    b * b >= 5 * e * e,
            ;
        } else {
            assert(x1 < b) by (nonlinear_arith)
                requires
                    x1 > 0,
                    b > 0,
                    0 <= y1 < e,
                    x1 * x1 <= 5 * y1 * y1,
                    b * b >= 5 * e * e,
            ;
            assert(y1 > 0) by (nonlinear_arith)
                requires
                    x1 > 0,
                    y1 >= 0,
                    x1 * x1 <= 5 * y1 * y1,
            ;
            if t * t < 5 * z * z {
                assert((x1 * t) * (x1 * t) < (5 * y1 * z) * (5 * y1 * z)) by (nonlinear_arith)
                    requires
                        x1 * x1 <= 5 * y1 * y1,
                        t * t < 5 * z * z,
                        x1 > 0,
                        y1 > 0,
                        t > 0,
                        z > 0,
                ;
                assert(x1 * t < 5 * y1 * z) by (nonlinear_arith)
                    requires
                        (x1 * t) * (x1 * t) < (5 * y1 * z) * (5 * y1 * z),
                        x1 > 0,
                        y1 > 0,
                        t > 0,
                        z > 0,
                ;
                assert(false) by (nonlinear_arith)
                    requires
                        (x1 + t) * (x1 + t) >= 5 * (y1 + z) * (y1 + z),
                        x1 * x1 <= 5 * y1 * y1,
                        x1 * t < 5 * y1 * z,
                        t * t < 5 * z * z,
                ;
            }
        }
    }
}

/// Inequalities against `√5` add up: `x1 ≤ y1·√5` and `x2 ≤ y2·√5` give
/// `x1 + x2 ≤ (y1 + y2)·√5`.
pub proof fn lemma_le_sqrt5_add(x1: int, y1: int, x2: int, y2: int)
    requires
        le_sqrt5(x1, y1),
        le_sqrt5(x2, y2),
    ensures
        le_sqrt5(x1 + x2, y1 + y2),
{
    if y1 >= 0 && y2 >= 0 {
        if x1 + x2 >= 0 {
            let p1 = if x1 > 0 { x1 } else { 0 };
            let p2 = if x2 > 0 { x2 } else { 0 };
            lemma_sum_squares(p1, y1, p2, y2, true);
            assert((x1 + x2) * (x1 + x2) <= (p1 + p2) * (p1 + p2)) by (nonlinear_arith)
                requires
                    0 <= x1 + x2 <= p1 + p2,
            ;
        }
    } else if y1 < 0 && y2 < 0 {
        assert((-x1) * (-x1) == x1 * x1 && 5 * (-y1) * (-y1) == 5 * y1 * y1) by (nonlinear_arith);
        assert((-x2) * (-x2) == x2 * x2 && 5 * (-y2) * (-y2) == 5 * y2 * y2) by (nonlinear_arith);
        lemma_sum_squares(-x1, -y1, -x2, -y2, false);
        assert((x1 + x2) * (x1 + x2) == (-x1 + -x2) * (-x1 + -x2)) by (nonlinear_arith);
        assert(5 * (y1 + y2) * (y1 + y2) == 5 * (-y1 + -y2) * (-y1 + -y2)) by (nonlinear_arith);
    } else if y1 >= 0 {
        lemma_le_sqrt5_add_mixed(x1, y1, x2, y2);
    } else {
        lemma_le_sqrt5_add_mixed(x2, y2, x1, y1);
    }
}

/// `x < y·√5`.
pub open spec fn lt_sqrt5(x: int, y: int) -> bool {
    !le_sqrt5(-x, -y)
}

/// A strict inequality is also a non-strict one.
pub proof fn lemma_lt_sqrt5_le(x: int, y: int)
    requires
        lt_sqrt5(x, y),
    ensures
        le_sqrt5(x, y),
{
    assert((-x) * (-x) == x * x && 5 * (-y) * (-y) == 5 * y * y) by (nonlinear_arith);
}

/// Adding a strict inequality to a non-strict one gives a strict one.
pub proof fn lemma_le_lt_sqrt5_add(x1: int, y1: int, x2: int, y2: int)
    requires
        le_sqrt5(x1, y1),
        lt_sqrt5(x2, y2),
    ensures
        lt_sqrt5(x1 + x2, y1 + y2),
{
    if le_sqrt5(-(x1 + x2), -(y1 + y2)) {
        lemma_le_sqrt5_add(-(x1 + x2), -(y1 + y2), x1, y1);
        assert(-(x1 + x2) + x1 == -x2 && -(y1 + y2) + y1 == -y2);
    }
}

/// Scaling by a positive factor keeps a non-strict inequality.
pub proof fn lemma_le_sqrt5_scale(x: int, y: int, k: int)
    requires
        le_sqrt5(x, y),
        k > 0,
    ensures
        le_sqrt5(k * x, k * y),
{
    assert((k * x) * (k * x) == (k * k) * (x * x) && 5 * (k * y) * (k * y) == (k * k) * (5 * y
        * y)) by (nonlinear_arith);
    assert(k * k > 0) by (nonlinear_arith)
        requires
            k > 0,
    ;
    assert((y >= 0 <==> k * y >= 0) && (x < 0 <==> k * x < 0)) by (nonlinear_arith)
        requires
            k > 0,
    ;
    if y >= 0 {
        if x >= 0 {
            assert((k * k) * (x * x) <= (k * k) * (5 * y * y)) by (nonlinear_arith)
                requires
                    x * x <= 5 * y * y,
                    k * k > 0,
            ;
        }
    } else {
        assert((k * k) * (x * x) >= (k * k) * (5 * y * y)) by (nonlinear_arith)
            requires
                x * x >= 5 * y * y,
                k * k > 0,
        ;
    }
}

/// Scaling by a positive factor keeps a strict inequality.
pub proof fn lemma_lt_sqrt5_scale(x: int, y: int, k: int)
    requires
        lt_sqrt5(x, y),
        k > 0,
    ensures
        lt_sqrt5(k * x, k * y),
{
    if le_sqrt5(-(k * x), -(k * y)) {
        assert(-(k * x) == k * (-x) && -(k * y) == k * (-y)) by (nonlinear_arith);
        // dividing back by k
        if !le_sqrt5(-x, -y) {
            assert(!le_sqrt5(-x, -y));
            lemma_not_le_sqrt5_scale(-x, -y, k);
        }
    }
}

/// Scaling by a positive factor keeps a failed inequality failed.
proof fn lemma_not_le_sqrt5_scale(x: int, y: int, k: int)
    requires
        !le_sqrt5(x, y),
        k > 0,
    ensures
        !le_sqrt5(k * x, k * y),
{
    assert((k * x) * (k * x) == (k * k) * (x * x) && 5 * (k * y) * (k * y) == (k * k) * (5 * y
        * y)) by (nonlinear_arith);
    assert(k * k > 0) by (nonlinear_arith)
        requires
            k > 0,
    ;
    assert((y >= 0 <==> k * y >= 0) && (x < 0 <==> k * x < 0)) by (nonlinear_arith)
        requires
            k > 0,
    ;
    if y >= 0 {
        assert((k * k) * (x * x) > (k * k) * (5 * y * y)) by (nonlinear_arith)
            requires
                x * x > 5 * y * y,
                k * k > 0,
        ;
    } else {
        if x < 0 {
            assert((k * k) * (x * x) < (k * k) * (5 * y * y)) by (nonlinear_arith)
                requires
                    x * x < 5 * y * y,
                    k * k > 0,
            ;
        }
    }
}

/// Against zero the comparisons are plain integer ones.
pub proof fn lemma_sqrt5_zero(x: int)
    ensures
        le_sqrt5(x, 0) <==> x <= 0,
        lt_sqrt5(x, 0) <==> x < 0,
{
    assert(x * x <= 0 <==> x == 0) by (nonlinear_arith);
    assert((-x) * (-x) == x * x) by (nonlinear_arith);
}

/// The two halves of `is_nearest` for `d = 1`, as inequalities:
/// `2r − 1 ≤ 2v` and `2v < 2r + 1`, with `v = p + q√5`.
pub proof fn lemma_nearest_bounds(r: int, p: int, q: int)
    requires
        is_nearest(r, p, q, 1),
    ensures
        le_sqrt5(2 * r - 1 - 2 * p, 2 * q),
        lt_sqrt5(2 * p - 2 * r - 1, -2 * q),
{
    assert(1 * (2 * r - 1) == 2 * r - 1 && 1 * (2 * r + 1) == 2 * r + 1);
    assert(-(2 * p - 2 * r - 1) == 1 * (2 * r + 1) - 2 * p);
}

/// `x ≤ y·√5`, decided on integers.
pub fn le_sqrt5_exec(x: i128, y: i128) -> (b: bool)
    requires
        -0x1000_0000_0000_0000 < x < 0x1000_0000_0000_0000,
        -0x1000_0000_0000_0000 < y < 0x1000_0000_0000_0000,
    ensures
        b == le_sqrt5(x as int, y as int),
{
    assert(0 <= x * x < 0x1000_0000_0000_0000 * 0x1000_0000_0000_0000 && 0 <= y * y
        < 0x1000_0000_0000_0000 * 0x1000_0000_0000_0000) by (nonlinear_arith)
        requires
            -0x1000_0000_0000_0000 < x < 0x1000_0000_0000_0000,
            -0x1000_0000_0000_0000 < y < 0x1000_0000_0000_0000,
    ;
    let xx = x * x;
    let yy5 = 5 * (y * y);
    assert(5 * y * y == 5 * (y * y)) by (nonlinear_arith);
    if y >= 0 {
        x < 0 || xx <= yy5
    } else {
        x < 0 && xx >= yy5
    }
}

/// `⌊y·√5⌋` exists for every `y`.
pub proof fn lemma_floor_sqrt5_any(y: int) -> (n: int)
    ensures
        le_sqrt5(n, y),
        !le_sqrt5(n + 1, y),
{
    if y >= 0 {
        lemma_floor_sqrt5_exists(y)
    } else {
        let n0 = lemma_floor_sqrt5_exists(-y);
        lemma_sqrt5_irrational(n0, -y);
        assert(5 * (-y) * (-y) == 5 * y * y) by (nonlinear_arith);
        assert(n0 * n0 <= 5 * y * y && (n0 + 1) * (n0 + 1) > 5 * y * y && n0 * n0 != 5 * y * y);
        assert((-n0) * (-n0) == n0 * n0 && (-n0 - 1) * (-n0 - 1) == (n0 + 1) * (n0 + 1))
            by (nonlinear_arith);
        -n0 - 1
    }
}

/// Every value `(p + q√5)/d` has a nearest integer, and `round_sqrt5`
/// names it.
pub proof fn lemma_round_sqrt5_nearest(p: int, q: int, d: int)
    requires
        d > 0,
    ensures
        is_nearest(round_sqrt5(p, q, d), p, q, d),
{
    let b = 2 * q;
    let t = lemma_floor_sqrt5_any(b);
    let a = 2 * p + d;
    let c = 2 * d;
    let n = a + t;
    let r = n / c;
    assert(c * r <= n < c * (r + 1)) by (nonlinear_arith)
        requires
            c > 0,
            r == n / c,
    ;
    assert(d * (2 * r - 1) - 2 * p == c * r - a && d * (2 * r + 1) - 2 * p == c * (r + 1) - a)
        by (nonlinear_arith)
        requires
            c == 2 * d,
            a == 2 * p + d,
    ;
    lemma_le_sqrt5_mono(c * r - a, t, b);
    if le_sqrt5(d * (2 * r + 1) - 2 * p, b) {
        lemma_le_sqrt5_mono(t + 1, d * (2 * r + 1) - 2 * p, b);
    }
    lemma_round_sqrt5(r, p, q, d);
}

/// Nearest integers (`d = 1`) are monotone in the value they round.
pub proof fn lemma_round_monotone(p1: int, q1: int, p2: int, q2: int)
    requires
        le_sqrt5(p1 - p2, q2 - q1),
    ensures
        round_sqrt5(p1, q1, 1) <= round_sqrt5(p2, q2, 1),
{
    let r1 = round_sqrt5(p1, q1, 1);
    let r2 = round_sqrt5(p2, q2, 1);
    lemma_round_sqrt5_nearest(p1, q1, 1);
    lemma_round_sqrt5_nearest(p2, q2, 1);
    lemma_nearest_bounds(r1, p1, q1);
    lemma_nearest_bounds(r2, p2, q2);
    lemma_le_sqrt5_scale(p1 - p2, q2 - q1, 2);
    lemma_le_sqrt5_add(2 * r1 - 1 - 2 * p1, 2 * q1, 2 * (p1 - p2), 2 * (q2 - q1));
    lemma_le_lt_sqrt5_add(2 * r1 - 1 - 2 * p2, 2 * q2, 2 * p2 - 2 * r2 - 1, -2 * q2);
    lemma_sqrt5_zero(2 * r1 - 2 * r2 - 2);
}

/// Shifting the value by an integer shifts its nearest integer.
pub proof fn lemma_round_shift(p: int, q: int, k: int)
    ensures
        round_sqrt5(p + k, q, 1) == round_sqrt5(p, q, 1) + k,
{
    lemma_round_sqrt5_nearest(p, q, 1);
    let r = round_sqrt5(p, q, 1);
    assert(1 * (2 * (r + k) - 1) - 2 * (p + k) == 1 * (2 * r - 1) - 2 * p);
    assert(1 * (2 * (r + k) + 1) - 2 * (p + k) == 1 * (2 * r + 1) - 2 * p);
    lemma_round_sqrt5(r + k, p + k, q, 1);
}

/// A value that is the sum of one value and `m` copies of another
/// (`m` is 1 or 2) rounds to within one of the same sum of roundings.
pub proof fn lemma_round_sum(p1: int, q1: int, p2: int, q2: int, m: int)
    requires
        m == 1 || m == 2,
    ensures
        ({
            let r = round_sqrt5(p1 + m * p2, q1 + m * q2, 1);
            let r1 = round_sqrt5(p1, q1, 1);
            let r2 = round_sqrt5(p2, q2, 1);
            -1 <= r - r1 - m * r2 <= 1
        }),
{
    let p = p1 + m * p2;
    let q = q1 + m * q2;
    let r = round_sqrt5(p, q, 1);
    let r1 = round_sqrt5(p1, q1, 1);
    let r2 = round_sqrt5(p2, q2, 1);
    lemma_round_sqrt5_nearest(p, q, 1);
    lemma_round_sqrt5_nearest(p1, q1, 1);
    lemma_round_sqrt5_nearest(p2, q2, 1);
    lemma_nearest_bounds(r, p, q);
    lemma_nearest_bounds(r1, p1, q1);
    lemma_nearest_bounds(r2, p2, q2);
    // upper: A(r) + B(r1) + m·B(r2)
    lemma_lt_sqrt5_scale(2 * p2 - 2 * r2 - 1, -2 * q2, m);
    lemma_lt_sqrt5_le(2 * p1 - 2 * r1 - 1, -2 * q1);
    lemma_le_sqrt5_add(2 * r - 1 - 2 * p, 2 * q, 2 * p1 - 2 * r1 - 1, -2 * q1);
    lemma_le_lt_sqrt5_add(
        2 * r - 1 - 2 * p + 2 * p1 - 2 * r1 - 1,
        2 * q - 2 * q1,
        m * (2 * p2 - 2 * r2 - 1),
        m * (-2 * q2),
    );
    assert(2 * q - 2 * q1 + m * (-2 * q2) == 0) by (nonlinear_arith)
        requires
            q == q1 + m * q2,
    ;
    assert(2 * r - 1 - 2 * p + 2 * p1 - 2 * r1 - 1 + m * (2 * p2 - 2 * r2 - 1) == 2 * r - 2 * r1 - 2
        * m * r2 - 2 - m) by (nonlinear_arith)
        requires
            p == p1 + m * p2,
    ;
    lemma_sqrt5_zero(2 * r - 2 * r1 - 2 * m * r2 - 2 - m);
    // lower: A(r1) + m·A(r2) + B(r)
    lemma_le_sqrt5_scale(2 * r2 - 1 - 2 * p2, 2 * q2, m);
    lemma_le_sqrt5_add(2 * r1 - 1 - 2 * p1, 2 * q1, m * (2 * r2 - 1 - 2 * p2), m * (2 * q2));
    lemma_le_lt_sqrt5_add(
        2 * r1 - 1 - 2 * p1 + m * (2 * r2 - 1 - 2 * p2),
        2 * q1 + m * (2 * q2),
        2 * p - 2 * r - 1,
        -2 * q,
    );
    assert(2 * q1 + m * (2 * q2) - 2 * q == 0) by (nonlinear_arith)
        requires
            q == q1 + m * q2,
    ;
    assert(2 * r1 - 1 - 2 * p1 + m * (2 * r2 - 1 - 2 * p2) + 2 * p - 2 * r - 1 == 2 * r1 + 2 * m
        * r2 - 2 * r - 2 - m) by (nonlinear_arith)
        requires
            p == p1 + m * p2,
    ;
    lemma_sqrt5_zero(2 * r1 + 2 * m * r2 - 2 * r - 2 - m);
    assert(2 * m * r2 == 2 * (m * r2)) by (nonlinear_arith);
}

} // verus!
