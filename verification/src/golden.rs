//! Golden rectangles and the spiral of residues they leave, in exact
//! arithmetic.
//!
//! A length is `(a + b√5) / 2d` with `a` and `b` of equal parity and a
//! fixed positive denominator `d`: `Z[φ] / d`, closed under `·φ`, `/φ`
//! and subtraction, so every rectangle of the spiral is exact. Cutting the largest square off a golden rectangle
//! leaves a golden rectangle `φ` times smaller, turned a quarter.

use vstd::prelude::*;

verus! {

/// Which way a rectangle's long edge runs.
#[derive(Copy, Clone, Debug, PartialEq, Eq, Structural, Hash)]
pub enum Axis {
    Horizontal,
    Vertical,
}

/// The length `(a + b√5) / 2d`.
#[derive(Copy, Clone, Debug, PartialEq, Eq, Structural, Hash)]
pub struct Length {
    pub a: i128,
    pub b: i128,
    pub d: i128,
}

/// `a` and `b` have equal parity and `d` is positive, so the length lies
/// in `Z[φ] / d`.
pub open spec fn in_ring(l: Length) -> bool {
    (l.a - l.b) % 2 == 0 && l.d >= 1
}

/// Both coefficients are at most `m` in magnitude.
pub open spec fn bounded(l: Length, m: int) -> bool {
    -m <= l.a <= m && -m <= l.b <= m
}

/// `l · φ`.
pub open spec fn times_phi(l: Length) -> (int, int) {
    ((l.a + 5 * l.b) / 2, (l.a + l.b) / 2)
}

/// `l / φ`.
pub open spec fn over_phi(l: Length) -> (int, int) {
    ((5 * l.b - l.a) / 2, (l.a - l.b) / 2)
}

/// The pair of coefficients of a length.
pub open spec fn coeffs(l: Length) -> (int, int) {
    (l.a as int, l.b as int)
}

/// `l / φ^k`.
pub open spec fn over_phi_pow(l: (int, int), k: nat) -> (int, int)
    decreases k,
{
    if k == 0 {
        l
    } else {
        let p = over_phi_pow(l, (k - 1) as nat);
        ((5 * p.1 - p.0) / 2, (p.0 - p.1) / 2)
    }
}

/// `3^k`.
pub open spec fn pow3(k: nat) -> int
    decreases k,
{
    if k == 0 {
        1
    } else {
        3 * pow3((k - 1) as nat)
    }
}

/// A golden rectangle: `long = short · φ`.
#[derive(Copy, Clone, Debug, PartialEq, Eq, Structural)]
pub struct GoldenRectangle {
    pub short: Length,
    pub long: Length,
    pub orientation: Axis,
}

/// The quarter-turned axis.
pub open spec fn turned(a: Axis) -> Axis {
    match a {
        Axis::Horizontal => Axis::Vertical,
        Axis::Vertical => Axis::Horizontal,
    }
}

/// `g` is golden: its long edge is `φ` times its short one, both in the
/// ring over the same denominator.
pub open spec fn is_golden(g: GoldenRectangle) -> bool {
    &&& in_ring(g.short)
    &&& in_ring(g.long)
    &&& g.long.d == g.short.d
    &&& coeffs(g.long) == times_phi(g.short)
}

impl GoldenRectangle {
    /// The golden rectangle on `short`: `long = short · φ`.
    pub fn from_short(short: Length, orientation: Axis) -> (g: Self)
        requires
            in_ring(short),
            bounded(short, 0x1_0000_0000_0000_0000_0000_0000_0000),
        ensures
            g.short == short,
            coeffs(g.long) == times_phi(short),
            g.long.d == short.d,
            g.orientation == orientation,
            is_golden(g),
            bounded(g.long, 3 * (0x1_0000_0000_0000_0000_0000_0000_0000 as int)),
    {
        let long = Length { a: (short.a + 5 * short.b) / 2, b: (short.a + short.b) / 2, d: short.d };
        GoldenRectangle { short, long, orientation }
    }

    /// Cut the largest square off: the residue is the golden rectangle on
    /// `long − short`, turned a quarter.
    pub fn subdivide(&self) -> (r: Self)
        requires
            is_golden(*self),
            bounded(self.short, SUBDIVIDE_BOUND as int),
        ensures
            coeffs(r.short) == (self.long.a - self.short.a, self.long.b - self.short.b),
            coeffs(r.short) == over_phi(self.short),
            r.short.d == self.short.d,
            coeffs(r.long) == times_phi(r.short),
            r.orientation == turned(self.orientation),
            is_golden(r),
            bounded(r.short, 3 * (SUBDIVIDE_BOUND as int)),
    {
        let short = Length { a: self.long.a - self.short.a, b: self.long.b - self.short.b, d: self.short.d };
        let orientation = match self.orientation {
            Axis::Horizontal => Axis::Vertical,
            Axis::Vertical => Axis::Horizontal,
        };
        Self::from_short(short, orientation)
    }
}

/// The residues of successive subdivisions of a starting rectangle.
#[derive(Clone, Debug)]
pub struct GoldenSpiral {
    residues: Vec<GoldenRectangle>,
}

/// The largest coefficient [`GoldenRectangle::subdivide`] takes: the
/// exact `Z[√5]` coefficients live in `i128`, and one subdivision can
/// triple them.
pub const SUBDIVIDE_BOUND: i128 = 0x40_0000_0000_0000_0000_0000_0000;

/// The largest start coefficient that `depth` subdivisions in a row keep
/// within [`SUBDIVIDE_BOUND`]: each subdivision at most triples the
/// coefficients.
pub open spec fn spiral_room(depth: nat) -> int {
    3 * (SUBDIVIDE_BOUND as int) / pow3(depth)
}

/// `pow3` is positive and grows at least threefold per step.
proof fn lemma_pow3_grows(i: nat, d: nat)
    requires
        i < d,
    ensures
        pow3(i) >= 1,
        3 * pow3(i) <= pow3(d),
    decreases d,
{
    if i + 1 < d {
        lemma_pow3_grows(i, (d - 1) as nat);
    } else {
        lemma_pow3_positive(i);
    }
}

proof fn lemma_pow3_positive(k: nat)
    ensures
        pow3(k) >= 1,
    decreases k,
{
    if k > 0 {
        lemma_pow3_positive((k - 1) as nat);
    }
}

impl GoldenSpiral {
    /// The residues, shallowest first.
    pub closed spec fn spec_residues(self) -> Seq<GoldenRectangle> {
        self.residues@
    }

    /// Subdivide `start` `depth` times, keeping every residue: residue `k`
    /// has short edge `start.short / φ^(k+1)`, its axis turned `k + 1`
    /// times.
    pub fn from_rectangle(start: GoldenRectangle, depth: u32) -> (s: Self)
        requires
            is_golden(start),
            bounded(start.short, spiral_room(depth as nat)),
        ensures
            s.spec_residues().len() == depth,
            forall|k: int|
                0 <= k < depth ==> {
                    &&& is_golden(#[trigger] s.spec_residues()[k])
                    &&& coeffs(s.spec_residues()[k].short) == over_phi_pow(coeffs(start.short), (k + 1) as nat)
                    &&& s.spec_residues()[k].short.d == start.short.d
                },
            forall|k: int|
                0 <= k < depth ==> #[trigger] s.spec_residues()[k].orientation == (if k % 2 == 0 {
                    turned(start.orientation)
                } else {
                    start.orientation
                }),
    {
        let mut residues: Vec<GoldenRectangle> = Vec::new();
        let mut current = start;
        let mut i: u32 = 0;
        let ghost room = spiral_room(depth as nat);
        proof {
            lemma_pow3_positive(depth as nat);
            let p = pow3(depth as nat);
            assert(room * p <= 3 * (SUBDIVIDE_BOUND as int)) by (nonlinear_arith)
                requires
                    room == 3 * (SUBDIVIDE_BOUND as int) / p,
                    p >= 1,
            ;
            assert(room >= 0) by (nonlinear_arith)
                requires
                    room == 3 * (SUBDIVIDE_BOUND as int) / p,
                    p >= 1,
            ;
        }
        while i < depth
            invariant
                i <= depth,
                room >= 0,
                room * pow3(depth as nat) <= 3 * (SUBDIVIDE_BOUND as int),
                residues@.len() == i,
                is_golden(current),
                current.short.d == start.short.d,
                bounded(current.short, room * pow3(i as nat)),
                coeffs(current.short) == over_phi_pow(coeffs(start.short), i as nat),
                current.orientation == (if i % 2 == 0 { start.orientation } else { turned(start.orientation) }),
                forall|k: int|
                    0 <= k < i ==> {
                        &&& is_golden(#[trigger] residues@[k])
                        &&& coeffs(residues@[k].short) == over_phi_pow(coeffs(start.short), (k + 1) as nat)
                        &&& residues@[k].short.d == start.short.d
                    },
                forall|k: int|
                    0 <= k < i ==> #[trigger] residues@[k].orientation == (if k % 2 == 0 {
                        turned(start.orientation)
                    } else {
                        start.orientation
                    }),
            decreases depth - i,
        {
            proof {
                lemma_pow3_grows(i as nat, depth as nat);
                let pi = pow3(i as nat);
                let pd = pow3(depth as nat);
                assert(room * pi <= SUBDIVIDE_BOUND as int) by (nonlinear_arith)
                    requires
                        room >= 0,
                        3 * pi <= pd,
                        room * pd <= 3 * (SUBDIVIDE_BOUND as int),
                ;
            }
            let residue = current.subdivide();
            proof {
                let m = room * pow3(i as nat);
                assert(pow3((i + 1) as nat) == 3 * pow3(i as nat));
                assert(room * pow3((i + 1) as nat) == 3 * m) by (nonlinear_arith)
                    requires
                        m == room * pow3(i as nat),
                        pow3((i + 1) as nat) == 3 * pow3(i as nat),
                ;
                assert(bounded(residue.short, 3 * m));
            }
            residues.push(residue);
            current = residue;
            i = i + 1;
        }
        GoldenSpiral { residues }
    }

    /// The residue at `depth` (0 is the first subdivision).
    pub fn residue_at(&self, depth: u32) -> (r: &GoldenRectangle)
        requires
            depth < self.spec_residues().len(),
        ensures
            *r == self.spec_residues()[depth as int],
    {
        &self.residues[depth as usize]
    }
}

/// Six subdivisions of the golden rectangle on a short edge `s` leave a
/// residue of short edge `s / φ⁶ = s · (9 − 4√5)`: the composition's
/// quantum.
pub proof fn lemma_sixth_residue_is_quantum(s: int)
    ensures
        over_phi_pow((2 * s, 0), 6) == (18 * s, -8 * s),
{
    reveal_with_fuel(over_phi_pow, 7);
    assert(over_phi_pow((2 * s, 0), 1) == (-s, s));
    assert(over_phi_pow((2 * s, 0), 2) == (3 * s, -s));
    assert(over_phi_pow((2 * s, 0), 3) == (-4 * s, 2 * s));
    assert(over_phi_pow((2 * s, 0), 4) == (7 * s, -3 * s));
    assert(over_phi_pow((2 * s, 0), 5) == (-11 * s, 5 * s));
}

/// Each residue is `φ` times smaller than the one before: its short edge
/// times `φ` is the previous short edge.
pub proof fn lemma_residues_shrink_by_phi(l: (int, int), k: nat)
    requires
        (l.0 - l.1) % 2 == 0,
    ensures
        ({
            let next = over_phi_pow(l, k + 1);
            let prev = over_phi_pow(l, k);
            ((next.0 + 5 * next.1) / 2, (next.0 + next.1) / 2) == prev
        }),
        (over_phi_pow(l, k).0 - over_phi_pow(l, k).1) % 2 == 0,
    decreases k,
{
    if k > 0 {
        lemma_residues_shrink_by_phi(l, (k - 1) as nat);
    }
}

} // verus!
