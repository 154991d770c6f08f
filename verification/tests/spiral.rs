use photo_frame::golden::{Axis, GoldenRectangle, GoldenSpiral, Length};

const PHI: f64 = 1.618_033_988_749_895;

fn approx(a: f64, b: f64, eps: f64) -> bool {
    (a - b).abs() <= eps
}

fn value(l: Length) -> f64 {
    (l.a as f64 + l.b as f64 * 5f64.sqrt()) / (2.0 * l.d as f64)
}

/// An integer or half-integer length exactly.
fn length(v: f64) -> Length {
    let twice = (v * 2.0).round() as i128;
    Length { a: 2 * twice, b: 0, d: 2 }
}

#[test]
fn from_short_sets_long_to_phi_times_short() {
    let g = GoldenRectangle::from_short(length(100.0), Axis::Vertical);
    assert!(approx(value(g.long), 100.0 * PHI, 1e-12));
    assert!(approx(value(g.short), 100.0, 1e-12));
    assert_eq!(g.orientation, Axis::Vertical);
}

#[test]
fn subdivide_residue_is_golden() {
    let g = GoldenRectangle::from_short(length(42.0), Axis::Vertical);
    let residue = g.subdivide();
    assert!(approx(value(residue.long) / value(residue.short), PHI, 1e-12));
}

#[test]
fn subdivide_closure_holds() {
    for short in [1.0_f64, 13.0, 100.0, 1234.5, 99_999.0] {
        let g = GoldenRectangle::from_short(length(short), Axis::Vertical);
        let residue = g.subdivide();
        assert!(approx(value(g.short) + value(residue.short), value(g.long), 1e-9), "short={short}");
    }
}

#[test]
fn subdivide_orientation_flips() {
    let v = GoldenRectangle::from_short(length(10.0), Axis::Vertical);
    assert_eq!(v.subdivide().orientation, Axis::Horizontal);
    let h = GoldenRectangle::from_short(length(10.0), Axis::Horizontal);
    assert_eq!(h.subdivide().orientation, Axis::Vertical);
}

#[test]
fn nested_subdivision_short_edges_form_phi_chain() {
    let g0 = GoldenRectangle::from_short(length(1000.0), Axis::Vertical);
    let g1 = g0.subdivide();
    let g2 = g1.subdivide();
    let g3 = g2.subdivide();
    assert!(approx(value(g1.short), 1000.0 / PHI, 1e-9));
    assert!(approx(value(g2.short), 1000.0 / PHI.powi(2), 1e-9));
    assert!(approx(value(g3.short), 1000.0 / PHI.powi(3), 1e-9));
}

#[test]
fn each_residue_is_phi_times_smaller_than_previous() {
    const DEPTH: u32 = 5;
    let r = GoldenRectangle::from_short(length(1000.0), Axis::Vertical);
    let s = GoldenSpiral::from_rectangle(r, DEPTH);
    let mut previous = 1000.0_f64;
    for n in 0..DEPTH {
        assert!(approx(value(s.residue_at(n).short), previous / PHI, 1e-6));
        previous = value(s.residue_at(n).short);
    }
}

#[test]
fn residue_at_depth_n_matches_phi_power() {
    let r = GoldenRectangle::from_short(length(1000.0), Axis::Vertical);
    let s = GoldenSpiral::from_rectangle(r, 4);
    for n in 0_u32..4 {
        let expected = 1000.0 / PHI.powi(i32::try_from(n).unwrap() + 1);
        assert!(approx(value(s.residue_at(n).short), expected, 1e-6));
    }
}

#[test]
fn sixth_residue_is_the_quantum_exactly() {
    let s = 2000_i128;
    let r = GoldenRectangle::from_short(Length { a: 2 * s, b: 0, d: 1 }, Axis::Horizontal);
    let spiral = GoldenSpiral::from_rectangle(r, 6);
    let q = spiral.residue_at(5).short;
    assert_eq!((q.a, q.b, q.d), (18 * s, -8 * s, 1));
    assert_eq!(spiral.residue_at(5).orientation, Axis::Horizontal);
}

#[test]
fn deep_spiral_from_a_small_start_keeps_every_residue() {
    let r = GoldenRectangle::from_short(length(1.0), Axis::Vertical);
    let s = GoldenSpiral::from_rectangle(r, 60);
    assert_eq!(s.residue_at(59).orientation, Axis::Vertical);
    assert_eq!(s.residue_at(58).orientation, Axis::Horizontal);
    assert_eq!(s.residue_at(59).short.d, 2);
}
