//! Caption text: the strings the renderer draws in the metadata strip.
//!
//! Physical values are formatted elsewhere; this module decides which
//! facets appear, in which order, and how they are joined.

use vstd::prelude::*;
use crate::primitives::{ExifString, IsoSensitivity};
use crate::provenance::{opt_view, Camera, DateTime, Lens};
use crate::text::{
    chars_of, decimal, push_char, push_decimal, push_str, push_zero_padded, string_from_chars,
    trim_end, trim_end_index, zero_padded,
};

verus! {

/// The separator between caption facets: two spaces, a middle dot, two spaces.
pub open spec fn sep() -> Seq<char> {
    seq![' ', ' ', '\u{b7}', ' ', ' ']
}

/// `"CORPORATION"`.
pub open spec fn corporation() -> Seq<char> {
    seq!['C', 'O', 'R', 'P', 'O', 'R', 'A', 'T', 'I', 'O', 'N']
}

/// Drop trailing whitespace, then a trailing `"CORPORATION"` and the
/// whitespace before it ("NIKON CORPORATION" reads "NIKON").
pub open spec fn spec_strip_corporation(s: Seq<char>) -> Seq<char> {
    let t = trim_end(s);
    if t.len() >= 11 && t.subrange(t.len() - 11, t.len() as int) == corporation() {
        trim_end(t.take(t.len() - 11))
    } else {
        t
    }
}

/// The facets that are present, in order.
pub open spec fn present(parts: Seq<Option<Seq<char>>>) -> Seq<Seq<char>>
    decreases parts.len(),
{
    if parts.len() == 0 {
        Seq::empty()
    } else {
        let rest = present(parts.drop_last());
        match parts.last() {
            Some(p) => rest.push(p),
            None => rest,
        }
    }
}

/// Facets joined by [`sep`].
pub open spec fn joined(parts: Seq<Seq<char>>) -> Seq<char>
    decreases parts.len(),
{
    if parts.len() == 0 {
        Seq::empty()
    } else if parts.len() == 1 {
        parts[0]
    } else {
        joined(parts.drop_last()) + sep() + parts.last()
    }
}

/// The present facets joined, or `None` when there are none.
pub open spec fn join_present(parts: Seq<Option<Seq<char>>>) -> Option<Seq<char>> {
    let p = present(parts);
    if p.len() == 0 {
        None
    } else {
        Some(joined(p))
    }
}

/// The characters of an optional `String`.
pub open spec fn opt_chars(o: Option<String>) -> Option<Seq<char>> {
    match o {
        Some(s) => Some(s@),
        None => None,
    }
}

fn push_sep(s: &mut String)
    ensures
        final(s)@ == old(s)@ + sep(),
{
    push_char(s, ' ');
    push_char(s, ' ');
    push_char(s, '\u{b7}');
    push_char(s, ' ');
    push_char(s, ' ');
    assert(s@ =~= old(s)@ + sep());
}

/// Join the present facets of `parts` with the caption separator.
pub fn join_facets(parts: &Vec<Option<String>>) -> (r: Option<String>)
    ensures
        opt_chars(r) == join_present(parts@.map_values(|o: Option<String>| opt_chars(o))),
{
    let ghost views = parts@.map_values(|o: Option<String>| opt_chars(o));
    let mut out = String::new();
    let mut count: usize = 0;
    let mut i: usize = 0;
    while i < parts.len()
        invariant
            i <= parts@.len(),
            views == parts@.map_values(|o: Option<String>| opt_chars(o)),
            count == present(views.take(i as int)).len(),
            count <= i,
            out@ == joined(present(views.take(i as int))),
        decreases parts.len() - i,
    {
        let ghost prev = present(views.take(i as int));
        assert(views.take(i as int + 1).drop_last() =~= views.take(i as int));
        assert(views[i as int] == opt_chars(parts@[i as int]));
        match &parts[i] {
            Some(p) => {
                if count > 0 {
                    push_sep(&mut out);
                }
                push_str(&mut out, p.as_str());
                count = count + 1;
                assert(present(views.take(i as int + 1)) == prev.push(p@));
                assert(prev.push(p@).drop_last() =~= prev);
                assert(out@ =~= joined(prev.push(p@)));
            },
            None => {
                assert(present(views.take(i as int + 1)) == prev);
            },
        }
        i = i + 1;
    }
    assert(views.take(parts@.len() as int) =~= views);
    if count == 0 {
        None
    } else {
        Some(out)
    }
}

/// Join two optional facets; a lone facet comes back verbatim.
pub open spec fn spec_join_with_separator(left: Option<Seq<char>>, right: Option<Seq<char>>) -> Option<
    Seq<char>,
> {
    match (left, right) {
        (Some(l), Some(r)) => Some(l + sep() + r),
        (Some(l), None) => Some(l),
        (None, Some(r)) => Some(r),
        (None, None) => None,
    }
}

/// Join two optional facets with the caption separator, never leaving a
/// dangling separator.
pub fn join_with_separator(left: Option<&str>, right: Option<&str>) -> (r: Option<String>)
    ensures
        opt_chars(r) == spec_join_with_separator(
            match left {
                Some(l) => Some(l@),
                None => None,
            },
            match right {
                Some(x) => Some(x@),
                None => None,
            },
        ),
{
    match (left, right) {
        (Some(l), Some(r)) => {
            let mut s = String::new();
            push_str(&mut s, l);
            push_sep(&mut s);
            push_str(&mut s, r);
            assert(s@ =~= l@ + sep() + r@);
            Some(s)
        },
        (Some(l), None) => {
            let mut s = String::new();
            push_str(&mut s, l);
            assert(s@ =~= l@);
            Some(s)
        },
        (None, Some(r)) => {
            let mut s = String::new();
            push_str(&mut s, r);
            assert(s@ =~= r@);
            Some(s)
        },
        (None, None) => None,
    }
}

/// Strip a trailing `"CORPORATION"` (see [`spec_strip_corporation`]).
pub fn strip_corporation(model: &str) -> (s: String)
    ensures
        s@ == spec_strip_corporation(model@),
{
    let cs = chars_of(model);
    let n = cs.len();
    let e = trim_end_index(cs.as_slice(), 0, n);
    let ghost t = cs@.subrange(0, e as int);
    assert(cs@.subrange(0, n as int) =~= model@);
    assert(t =~= trim_end(model@));
    if e >= 11 && cs[e - 11] == 'C' && cs[e - 10] == 'O' && cs[e - 9] == 'R' && cs[e - 8] == 'P'
        && cs[e - 7] == 'O' && cs[e - 6] == 'R' && cs[e - 5] == 'A' && cs[e - 4] == 'T' && cs[e
        - 3] == 'I' && cs[e - 2] == 'O' && cs[e - 1] == 'N' {
        assert(t.subrange(t.len() - 11, t.len() as int) =~= corporation());
        let e2 = trim_end_index(cs.as_slice(), 0, e - 11);
        assert(t.take(t.len() - 11) =~= cs@.subrange(0, e - 11));
        string_from_chars(cs.as_slice(), 0, e2)
    } else {
        proof {
            if t.len() >= 11 && t.subrange(t.len() - 11, t.len() as int) == corporation() {
                assert(t.subrange(t.len() - 11, t.len() as int)[0] == cs@[e - 11]);
                assert(t.subrange(t.len() - 11, t.len() as int)[1] == cs@[e - 10]);
                assert(t.subrange(t.len() - 11, t.len() as int)[2] == cs@[e - 9]);
                assert(t.subrange(t.len() - 11, t.len() as int)[3] == cs@[e - 8]);
                assert(t.subrange(t.len() - 11, t.len() as int)[4] == cs@[e - 7]);
                assert(t.subrange(t.len() - 11, t.len() as int)[5] == cs@[e - 6]);
                assert(t.subrange(t.len() - 11, t.len() as int)[6] == cs@[e - 5]);
                assert(t.subrange(t.len() - 11, t.len() as int)[7] == cs@[e - 4]);
                assert(t.subrange(t.len() - 11, t.len() as int)[8] == cs@[e - 3]);
                assert(t.subrange(t.len() - 11, t.len() as int)[9] == cs@[e - 2]);
                assert(t.subrange(t.len() - 11, t.len() as int)[10] == cs@[e - 1]);
            }
        }
        string_from_chars(cs.as_slice(), 0, e)
    }
}

/// A label from `model`, else from `make`, each stripped of
/// `"CORPORATION"` and skipped when that leaves nothing.
pub open spec fn spec_label(model: Option<Seq<char>>, make: Option<Seq<char>>) -> Option<Seq<char>> {
    match model {
        Some(m) if spec_strip_corporation(m).len() > 0 => Some(spec_strip_corporation(m)),
        _ => match make {
            Some(k) if spec_strip_corporation(k).len() > 0 => Some(spec_strip_corporation(k)),
            _ => None,
        },
    }
}

fn stripped_nonempty(s: &Option<ExifString>) -> (r: Option<String>)
    ensures
        match opt_view(*s) {
            Some(v) if spec_strip_corporation(v).len() > 0 => opt_chars(r) == Some(
                spec_strip_corporation(v),
            ),
            _ => r is None,
        },
{
    match s {
        Some(e) => {
            let t = strip_corporation(e.as_str());
            if t.as_str().unicode_len() == 0 {
                None
            } else {
                Some(t)
            }
        },
        None => None,
    }
}

/// The camera facet: the model, else the make.
pub fn camera_label(camera: &Camera) -> (r: Option<String>)
    ensures
        opt_chars(r) == spec_label(opt_view(camera.model), opt_view(camera.make)),
{
    match stripped_nonempty(&camera.model) {
        Some(m) => Some(m),
        None => stripped_nonempty(&camera.make),
    }
}

/// The lens facet: the model, else the make.
pub fn lens_label(lens: &Lens) -> (r: Option<String>)
    ensures
        opt_chars(r) == spec_label(opt_view(lens.model), opt_view(lens.make)),
{
    match stripped_nonempty(&lens.model) {
        Some(m) => Some(m),
        None => stripped_nonempty(&lens.make),
    }
}

/// `"YYYY-MM-DD"`, zero-padded.
pub open spec fn spec_format_date(dt: DateTime) -> Seq<char> {
    zero_padded(dt.year as nat, 4) + seq!['-'] + zero_padded(dt.month as nat, 2) + seq!['-']
        + zero_padded(dt.day as nat, 2)
}

/// Render the calendar day of `dt` as `YYYY-MM-DD`.
pub fn format_date(dt: DateTime) -> (s: String)
    ensures
        s@ == spec_format_date(dt),
{
    let mut s = String::new();
    push_zero_padded(&mut s, dt.year as u32, 4);
    push_char(&mut s, '-');
    push_zero_padded(&mut s, dt.month as u32, 2);
    push_char(&mut s, '-');
    push_zero_padded(&mut s, dt.day as u32, 2);
    assert(s@ =~= spec_format_date(dt));
    s
}

/// `"ISO <v>"`.
pub open spec fn spec_iso_facet(v: nat) -> Seq<char> {
    seq!['I', 'S', 'O', ' '] + decimal(v)
}

/// Render an ISO reading as `ISO <v>`.
pub fn iso_facet(v: u32) -> (s: String)
    ensures
        s@ == spec_iso_facet(v as nat),
{
    let mut s = String::new();
    push_char(&mut s, 'I');
    push_char(&mut s, 'S');
    push_char(&mut s, 'O');
    push_char(&mut s, ' ');
    push_decimal(&mut s, v);
    assert(s@ =~= spec_iso_facet(v as nat));
    s
}

/// The exposure facets — focal length, aperture, shutter, ISO — in that
/// order, joined; `None` when none is known. The first three arrive
/// already formatted.
pub fn exposure_line(
    focal_length: Option<String>,
    aperture: Option<String>,
    shutter: Option<String>,
    iso: Option<IsoSensitivity>,
) -> (r: Option<String>)
    ensures
        opt_chars(r) == join_present(
            seq![
                opt_chars(focal_length),
                opt_chars(aperture),
                opt_chars(shutter),
                match iso {
                    Some(i) => Some(spec_iso_facet(i.value() as nat)),
                    None => None,
                },
            ],
        ),
{
    let iso_text = match iso {
        Some(i) => Some(iso_facet(i.get())),
        None => None,
    };
    assert(opt_chars(iso_text) == match iso {
        Some(i) => Some(spec_iso_facet(i.value() as nat)),
        None => None,
    });
    let ghost want = seq![
        opt_chars(focal_length),
        opt_chars(aperture),
        opt_chars(shutter),
        opt_chars(iso_text),
    ];
    let mut parts: Vec<Option<String>> = Vec::new();
    parts.push(focal_length);
    parts.push(aperture);
    parts.push(shutter);
    parts.push(iso_text);
    assert(parts@.map_values(|o: Option<String>| opt_chars(o)) =~= want);
    assert(want =~= seq![
        opt_chars(focal_length),
        opt_chars(aperture),
        opt_chars(shutter),
        match iso {
            Some(i) => Some(spec_iso_facet(i.value() as nat)),
            None => None,
        },
    ]);
    join_facets(&parts)
}

/// The two caption rows: camera and lens on top, exposure and date below.
#[derive(Clone, Debug, Default)]
pub struct Caption {
    pub top_left: Option<String>,
    pub top_right: Option<String>,
    pub bottom_left: Option<String>,
    pub bottom_right: Option<String>,
}

impl Caption {
    /// `true` when there is not a single facet to render.
    pub fn is_empty(&self) -> (b: bool)
        ensures
            b == (self.top_left is None && self.top_right is None && self.bottom_left is None
                && self.bottom_right is None),
    {
        self.top_left.is_none() && self.top_right.is_none() && self.bottom_left.is_none()
            && self.bottom_right.is_none()
    }

    /// Top row as one string, for centred layouts.
    pub fn top_combined(&self) -> (r: Option<String>)
        ensures
            opt_chars(r) == spec_join_with_separator(
                opt_chars(self.top_left),
                opt_chars(self.top_right),
            ),
    {
        let l = match &self.top_left {
            Some(s) => Some(s.as_str()),
            None => None,
        };
        let r = match &self.top_right {
            Some(s) => Some(s.as_str()),
            None => None,
        };
        join_with_separator(l, r)
    }

    /// Bottom row as one string, for centred layouts.
    pub fn bottom_combined(&self) -> (r: Option<String>)
        ensures
            opt_chars(r) == spec_join_with_separator(
                opt_chars(self.bottom_left),
                opt_chars(self.bottom_right),
            ),
    {
        let l = match &self.bottom_left {
            Some(s) => Some(s.as_str()),
            None => None,
        };
        let r = match &self.bottom_right {
            Some(s) => Some(s.as_str()),
            None => None,
        };
        join_with_separator(l, r)
    }
}

/// Assemble the caption from the capture facts; `exposure` is the
/// already-joined exposure line.
pub fn caption_from(
    camera: Option<&Camera>,
    lens: Option<&Lens>,
    exposure: Option<String>,
    captured_at: Option<DateTime>,
) -> (c: Caption)
    ensures
        opt_chars(c.top_left) == match camera {
            Some(cam) => spec_label(opt_view(cam.model), opt_view(cam.make)),
            None => None,
        },
        opt_chars(c.top_right) == match lens {
            Some(l) => spec_label(opt_view(l.model), opt_view(l.make)),
            None => None,
        },
        opt_chars(c.bottom_left) == opt_chars(exposure),
        opt_chars(c.bottom_right) == match captured_at {
            Some(d) => Some(spec_format_date(d)),
            None => None,
        },
{
    Caption {
        top_left: match camera {
            Some(cam) => camera_label(cam),
            None => None,
        },
        top_right: match lens {
            Some(l) => lens_label(l),
            None => None,
        },
        bottom_left: exposure,
        bottom_right: match captured_at {
            Some(d) => Some(format_date(d)),
            None => None,
        },
    }
}

} // verus!
