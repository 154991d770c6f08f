//! Caption-ready metadata of the classic pipeline: EXIF projected onto the
//! handful of strings the metadata strip shows.
//!
//! Every field has a fallback chain; a field that cannot be read drops out
//! of the caption instead of being replaced by a placeholder.

use vstd::prelude::*;
use crate::caption::{
    join_facets, join_present, opt_chars, spec_iso_facet, spec_strip_corporation, iso_facet,
    strip_corporation,
};
use crate::exif::{
    ascii, spec_ascii, spec_uint, uint, ExifTag, TagContext, TAG_DATE_TIME,
    TAG_DATE_TIME_DIGITIZED, TAG_DATE_TIME_ORIGINAL, TAG_LENS_MODEL, TAG_MODEL, TAG_ORIENTATION,
};
use crate::orientation::{spec_orientation, Orientation};
use crate::provenance::{date_tag, resolve_iso, spec_iso, DateSource};
use crate::text::{
    chars_of, count_lead_ws, find_char, find_ws, first_word, lemma_char_pos_bound, push_char,
    splitn3, string_from_chars, trim_start, ws_pos,
};

verus! {

/// The caption facts of one photo; each is `None` when unknown.
#[derive(Clone, Debug, Default)]
pub struct Meta {
    pub camera: Option<String>,
    pub lens: Option<String>,
    pub focal_length: Option<String>,
    pub aperture: Option<String>,
    pub shutter: Option<String>,
    pub iso: Option<String>,
    pub date: Option<String>,
}

/// No fact is known.
pub open spec fn meta_is_empty(m: Meta) -> bool {
    &&& m.camera is None
    &&& m.lens is None
    &&& m.focal_length is None
    &&& m.aperture is None
    &&& m.shutter is None
    &&& m.iso is None
    &&& m.date is None
}

/// Focal length, aperture, shutter and ISO, the known ones joined in that
/// order; `None` when none is known.
pub open spec fn spec_exposure_line(m: Meta) -> Option<Seq<char>> {
    join_present(seq![opt_chars(m.focal_length), opt_chars(m.aperture), opt_chars(m.shutter), opt_chars(m.iso)])
}

impl Meta {
    /// `true` when no fact is known.
    pub fn is_empty(&self) -> (b: bool)
        ensures
            b == meta_is_empty(*self),
    {
        self.camera.is_none() && self.lens.is_none() && self.focal_length.is_none()
            && self.aperture.is_none() && self.shutter.is_none() && self.iso.is_none()
            && self.date.is_none()
    }

    /// Focal length, aperture, shutter and ISO, joined in that order;
    /// `None` when none is known.
    pub fn exposure_line(&self) -> (r: Option<String>)
        ensures
            opt_chars(r) == spec_exposure_line(*self),
    {
        let mut parts: Vec<Option<String>> = Vec::new();
        parts.push(self.focal_length.clone());
        parts.push(self.aperture.clone());
        parts.push(self.shutter.clone());
        parts.push(self.iso.clone());
        assert(parts@.map_values(|o: Option<String>| opt_chars(o)) =~= seq![
            opt_chars(self.focal_length),
            opt_chars(self.aperture),
            opt_chars(self.shutter),
            opt_chars(self.iso),
        ]);
        join_facets(&parts)
    }
}

/// The orientation an EXIF names; `Normal` when the tag is absent,
/// unreadable, or too large for a `u16`.
pub open spec fn spec_orientation_of(exif: Option<exif::Exif>) -> Orientation {
    let raw: int = match exif {
        Some(e) => match spec_uint(e, ExifTag { context: TagContext::Tiff, number: TAG_ORIENTATION }) {
            Some(v) => v as int,
            None => 1,
        },
        None => 1,
    };
    spec_orientation(if raw <= u16::MAX { raw } else { 1 })
}

/// Read the EXIF `Orientation` tag (see [`spec_orientation_of`]).
pub fn orientation_of(exif: Option<&exif::Exif>) -> (o: Orientation)
    ensures
        o == spec_orientation_of(
            match exif {
                Some(e) => Some(*e),
                None => None,
            },
        ),
{
    let raw = match exif {
        Some(e) => match uint(e, ExifTag { context: TagContext::Tiff, number: TAG_ORIENTATION }) {
            Some(v) => v,
            None => 1,
        },
        None => 1,
    };
    let raw16: u16 = if raw <= 0xffff {
        raw as u16
    } else {
        1
    };
    Orientation::from_raw(raw16)
}

/// An EXIF date string's calendar day: its first word, split at `:`
/// into three pieces and rejoined with `-` (`"2026:05:24 13:24:55"` reads
/// `"2026-05-24"`).
pub open spec fn spec_format_exif_date(s: Seq<char>) -> Option<Seq<char>> {
    match first_word(s) {
        Some(w) => {
            let p = splitn3(w, ':');
            if p.len() == 3 {
                Some(p[0] + seq!['-'] + p[1] + seq!['-'] + p[2])
            } else {
                None
            }
        },
        None => None,
    }
}

/// Render an EXIF date string as `YYYY-MM-DD` (see
/// [`spec_format_exif_date`]).
pub fn format_date(s: &str) -> (r: Option<String>)
    ensures
        opt_chars(r) == spec_format_exif_date(s@),
{
    let cs = chars_of(s);
    let n = cs.len();
    assert(cs@.subrange(0, n as int) =~= s@);
    let a = count_lead_ws(cs.as_slice(), 0, n);
    let ghost t = cs@.subrange(a as int, n as int);
    assert(trim_start(s@) =~= t);
    if a == n {
        return None;
    }
    let w_end = find_ws(cs.as_slice(), a, n);
    let ghost w = cs@.subrange(a as int, w_end as int);
    assert(t.take(ws_pos(t)) =~= w);
    let p1 = find_char(cs.as_slice(), a, w_end, ':');
    proof {
        lemma_char_pos_bound(w, ':');
    }
    if p1 == w_end {
        return None;
    }
    let ghost rest = cs@.subrange(p1 as int + 1, w_end as int);
    assert(w.take(p1 - a) =~= cs@.subrange(a as int, p1 as int));
    assert(w.skip(p1 - a + 1) =~= rest);
    let p2 = find_char(cs.as_slice(), p1 + 1, w_end, ':');
    proof {
        lemma_char_pos_bound(rest, ':');
    }
    if p2 == w_end {
        return None;
    }
    assert(rest.take(p2 - p1 - 1) =~= cs@.subrange(p1 as int + 1, p2 as int));
    assert(rest.skip(p2 - p1) =~= cs@.subrange(p2 as int + 1, w_end as int));
    let mut out = string_from_chars(cs.as_slice(), a, p1);
    push_char(&mut out, '-');
    let mid = string_from_chars(cs.as_slice(), p1 + 1, p2);
    crate::text::push_str(&mut out, mid.as_str());
    push_char(&mut out, '-');
    let tail = string_from_chars(cs.as_slice(), p2 + 1, w_end);
    crate::text::push_str(&mut out, tail.as_str());
    assert(out@ =~= cs@.subrange(a as int, p1 as int) + seq!['-'] + cs@.subrange(
        p1 as int + 1,
        p2 as int,
    ) + seq!['-'] + cs@.subrange(p2 as int + 1, w_end as int));
    Some(out)
}

/// The caption date one tag yields, if readable and well-formed.
pub open spec fn spec_date_string_from(exif: exif::Exif, tag: ExifTag) -> Option<Seq<char>> {
    match spec_ascii(exif, tag) {
        Some(s) => spec_format_exif_date(s),
        None => None,
    }
}

/// The first of `DateTimeOriginal`, `DateTimeDigitized`, `DateTime` that
/// yields a caption date, with the tag it came from.
pub open spec fn spec_first_date(exif: exif::Exif) -> Option<(Seq<char>, DateSource)> {
    match spec_date_string_from(exif, date_tag(DateSource::Original)) {
        Some(d) => Some((d, DateSource::Original)),
        None => match spec_date_string_from(exif, date_tag(DateSource::Digitized)) {
            Some(d) => Some((d, DateSource::Digitized)),
            None => match spec_date_string_from(exif, date_tag(DateSource::Modified)) {
                Some(d) => Some((d, DateSource::Modified)),
                None => None,
            },
        },
    }
}

fn date_string_from(exif: &exif::Exif, tag: ExifTag) -> (r: Option<String>)
    ensures
        opt_chars(r) == spec_date_string_from(*exif, tag),
{
    match ascii(exif, tag) {
        Some(s) => format_date(s.as_str()),
        None => None,
    }
}

/// Walk the caption-date fallback chain, reporting which tag answered.
pub fn resolve_first_date(exif: &exif::Exif) -> (r: Option<(String, DateSource)>)
    ensures
        match r {
            Some((s, src)) => spec_first_date(*exif) == Some((s@, src)),
            None => spec_first_date(*exif) is None,
        },
{
    if let Some(d) = date_string_from(
        exif,
        ExifTag { context: TagContext::Exif, number: TAG_DATE_TIME_ORIGINAL },
    ) {
        return Some((d, DateSource::Original));
    }
    if let Some(d) = date_string_from(
        exif,
        ExifTag { context: TagContext::Exif, number: TAG_DATE_TIME_DIGITIZED },
    ) {
        return Some((d, DateSource::Digitized));
    }
    if let Some(d) = date_string_from(
        exif,
        ExifTag { context: TagContext::Tiff, number: TAG_DATE_TIME },
    ) {
        return Some((d, DateSource::Modified));
    }
    None
}

/// The caption date is the capture date (`DateTimeOriginal`) whenever that
/// tag yields one; the digitisation date (`DateTimeDigitized`) only when it
/// does not; the modification date (IFD0 `DateTime`) only when neither
/// does; and none when no tag yields a date.
pub proof fn lemma_caption_date_prefers_capture(exif: exif::Exif)
    ensures
        ({
            let original = spec_date_string_from(exif, ExifTag { context: TagContext::Exif, number: 0x9003 });
            let digitized = spec_date_string_from(exif, ExifTag { context: TagContext::Exif, number: 0x9004 });
            let modified = spec_date_string_from(exif, ExifTag { context: TagContext::Tiff, number: 0x0132 });
            &&& (original matches Some(d) ==> spec_first_date(exif) == Some((d, DateSource::Original)))
            &&& (original is None ==> (digitized matches Some(d) ==> spec_first_date(exif) == Some(
                (d, DateSource::Digitized),
            )))
            &&& (original is None && digitized is None ==> (modified matches Some(d) ==> spec_first_date(exif)
                == Some((d, DateSource::Modified))))
            &&& (original is None && digitized is None && modified is None ==> spec_first_date(exif) is None)
            &&& (spec_first_date(exif) matches Some((d, _)) ==> original == Some(d) || digitized == Some(d)
                || modified == Some(d))
        }),
{
}

/// The caption date (see [`spec_first_date`]).
pub fn first_date(exif: &exif::Exif) -> (r: Option<String>)
    ensures
        opt_chars(r) == match spec_first_date(*exif) {
            Some((d, _)) => Some(d),
            None => None,
        },
{
    match resolve_first_date(exif) {
        Some((d, _)) => Some(d),
        None => None,
    }
}

/// The ISO reading (see `provenance::spec_iso`).
pub fn first_iso(exif: &exif::Exif) -> (r: Option<u32>)
    ensures
        r == match spec_iso(*exif) {
            Some((v, _)) => Some(v),
            None => None,
        },
{
    match resolve_iso(exif) {
        Some((v, _)) => Some(v),
        None => None,
    }
}

/// Project EXIF onto [`Meta`]. Focal length, aperture and shutter come
/// already formatted, from the rational tags; the rest is read here:
/// the camera from `Model` without a trailing "CORPORATION", the lens
/// from `LensModel`, the ISO through its fallback chain, the date
/// through its own.
pub fn extract(
    exif: &exif::Exif,
    focal_length: Option<String>,
    aperture: Option<String>,
    shutter: Option<String>,
) -> (m: Meta)
    ensures
        opt_chars(m.camera) == match spec_ascii(
            *exif,
            ExifTag { context: TagContext::Tiff, number: TAG_MODEL },
        ) {
            Some(s) => Some(spec_strip_corporation(s)),
            None => None,
        },
        opt_chars(m.lens) == spec_ascii(
            *exif,
            ExifTag { context: TagContext::Exif, number: TAG_LENS_MODEL },
        ),
        opt_chars(m.focal_length) == opt_chars(focal_length),
        opt_chars(m.aperture) == opt_chars(aperture),
        opt_chars(m.shutter) == opt_chars(shutter),
        opt_chars(m.iso) == match spec_iso(*exif) {
            Some((v, _)) => Some(spec_iso_facet(v as nat)),
            None => None,
        },
        opt_chars(m.date) == match spec_first_date(*exif) {
            Some((d, _)) => Some(d),
            None => None,
        },
{
    let camera = match ascii(exif, ExifTag { context: TagContext::Tiff, number: TAG_MODEL }) {
        Some(s) => Some(strip_corporation(s.as_str())),
        None => None,
    };
    let lens = ascii(exif, ExifTag { context: TagContext::Exif, number: TAG_LENS_MODEL });
    let iso = match first_iso(exif) {
        Some(v) => Some(iso_facet(v)),
        None => None,
    };
    Meta {
        camera,
        lens,
        focal_length,
        aperture,
        shutter,
        iso,
        date: first_date(exif),
    }
}

} // verus!
