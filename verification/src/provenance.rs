//! Capture metadata as primitives: camera body, lens and capture time,
//! projected out of a parsed EXIF.

use vstd::prelude::*;
use crate::exif::{
    ascii, spec_ascii, spec_uint, uint, ExifTag, TagContext, TAG_DATE_TIME,
    TAG_DATE_TIME_DIGITIZED, TAG_DATE_TIME_ORIGINAL, TAG_ISO_SPEED, TAG_LENS_MAKE, TAG_LENS_MODEL,
    TAG_MAKE, TAG_MODEL, TAG_PHOTOGRAPHIC_SENSITIVITY, TAG_RECOMMENDED_EXPOSURE_INDEX,
};
use crate::primitives::ExifString;
use crate::text::{
    chars_of, find_char, lemma_char_pos_bound, lemma_trim_trimmed, parse_unsigned,
    parse_unsigned_in, split_once, splitn3, trim, trim_bounds, trim_end_nul, trim_end_nul_index,
};

verus! {

/// Camera body, as the EXIF `Make` / `Model` tags name it.
#[derive(Debug, Default, PartialEq, Eq)]
pub struct Camera {
    pub make: Option<ExifString>,
    pub model: Option<ExifString>,
}

/// Lens, as the EXIF `LensMake` / `LensModel` tags name it.
#[derive(Debug, Default, PartialEq, Eq)]
pub struct Lens {
    pub make: Option<ExifString>,
    pub model: Option<ExifString>,
}

/// Capture timestamp, each component as the EXIF string spelled it.
#[derive(Copy, Clone, Debug, Default, PartialEq, Eq, Structural, Hash)]
pub struct DateTime {
    pub year: u16,
    pub month: u8,
    pub day: u8,
    pub hour: u8,
    pub minute: u8,
    pub second: u8,
}

/// Which EXIF tag supplied the capture time.
#[derive(Copy, Clone, Debug, PartialEq, Eq, Structural, Hash)]
pub enum DateSource {
    /// `DateTimeOriginal`, the canonical tag.
    Original,
    /// `DateTimeDigitized`, the first fallback.
    Digitized,
    /// IFD0 `DateTime`, the last fallback.
    Modified,
}

/// A copy of an optional [`ExifString`].
fn clone_exif_string(o: &Option<ExifString>) -> (r: Option<ExifString>)
    ensures
        r == *o,
{
    match o {
        Some(s) => Some(s.clone()),
        None => None,
    }
}

impl Clone for Camera {
    fn clone(&self) -> (c: Self)
        ensures
            c == *self,
    {
        Camera { make: clone_exif_string(&self.make), model: clone_exif_string(&self.model) }
    }
}

impl Clone for Lens {
    fn clone(&self) -> (c: Self)
        ensures
            c == *self,
    {
        Lens { make: clone_exif_string(&self.make), model: clone_exif_string(&self.model) }
    }
}

/// The characters of an optional [`ExifString`].
pub open spec fn opt_view(o: Option<ExifString>) -> Option<Seq<char>> {
    match o {
        Some(e) => Some(e.view()),
        None => None,
    }
}

/// Read an ASCII tag as an [`ExifString`].
fn exif_string(exif: &exif::Exif, tag: ExifTag) -> (r: Option<ExifString>)
    ensures
        opt_view(r) == spec_ascii(*exif, tag),
{
    match ascii(exif, tag) {
        Some(s) => {
            proof {
                lemma_ascii_trimmed(*exif, tag);
            }
            let e = ExifString::new(s);
            match e {
                Some(e) => Some(e),
                None => None,
            }
        },
        None => None,
    }
}

/// What `spec_ascii` yields is already trimmed and non-empty.
proof fn lemma_ascii_trimmed(exif: exif::Exif, tag: ExifTag)
    ensures
        spec_ascii(exif, tag) matches Some(s) ==> trim(s).len() > 0,
{
    if let Some(s) = spec_ascii(exif, tag) {
        if let Some(crate::exif::FieldValue::Ascii(strings)) = crate::exif::primary_field(exif, tag) {
            lemma_trim_trimmed(trim_end_nul(vstd::utf8::decode_utf8(strings@[0]@)));
        }
    }
}

/// `Some` when at least one of make and model is present.
pub open spec fn spec_pair(make: Option<Seq<char>>, model: Option<Seq<char>>) -> bool {
    make is Some || model is Some
}

/// `r` is the camera body `exif` names: `None` exactly when neither
/// `Make` nor `Model` is readable, else both as read.
pub open spec fn camera_read(exif: exif::Exif, r: Option<Camera>) -> bool {
    let make = spec_ascii(exif, ExifTag { context: TagContext::Tiff, number: TAG_MAKE });
    let model = spec_ascii(exif, ExifTag { context: TagContext::Tiff, number: TAG_MODEL });
    &&& (r is Some <==> spec_pair(make, model))
    &&& (r matches Some(c) ==> opt_view(c.make) == make && opt_view(c.model) == model)
}

/// `r` is the lens `exif` names: `None` exactly when neither `LensMake`
/// nor `LensModel` is readable, else both as read.
pub open spec fn lens_read(exif: exif::Exif, r: Option<Lens>) -> bool {
    let make = spec_ascii(exif, ExifTag { context: TagContext::Exif, number: TAG_LENS_MAKE });
    let model = spec_ascii(exif, ExifTag { context: TagContext::Exif, number: TAG_LENS_MODEL });
    &&& (r is Some <==> spec_pair(make, model))
    &&& (r matches Some(l) ==> opt_view(l.make) == make && opt_view(l.model) == model)
}

/// The camera body; `None` when neither `Make` nor `Model` is readable.
pub fn camera(exif: &exif::Exif) -> (r: Option<Camera>)
    ensures
        camera_read(*exif, r),
{
    let make = exif_string(exif, ExifTag { context: TagContext::Tiff, number: TAG_MAKE });
    let model = exif_string(exif, ExifTag { context: TagContext::Tiff, number: TAG_MODEL });
    if make.is_none() && model.is_none() {
        return None;
    }
    Some(Camera { make, model })
}

/// The lens; `None` when neither `LensMake` nor `LensModel` is readable.
pub fn lens(exif: &exif::Exif) -> (r: Option<Lens>)
    ensures
        lens_read(*exif, r),
{
    let make = exif_string(exif, ExifTag { context: TagContext::Exif, number: TAG_LENS_MAKE });
    let model = exif_string(exif, ExifTag { context: TagContext::Exif, number: TAG_LENS_MODEL });
    if make.is_none() && model.is_none() {
        return None;
    }
    Some(Lens { make, model })
}

/// The three numbers of `splitn(3, ':')`, each parsed under its maximum.
pub open spec fn parse_fields3(s: Seq<char>, m0: int, m1: int, m2: int) -> Option<(int, int, int)> {
    let p = splitn3(s, ':');
    if p.len() == 3 {
        match (parse_unsigned(p[0], m0), parse_unsigned(p[1], m1), parse_unsigned(p[2], m2)) {
            (Some(a), Some(b), Some(c)) => Some((a, b, c)),
            _ => None,
        }
    } else {
        None
    }
}

/// An EXIF datetime: `"YYYY:MM:DD HH:MM:SS"` or `"YYYY:MM:DD"` (time
/// zero), after trimming whitespace and trailing NULs. Each component
/// must parse as its integer type (`u16` year, `u8` for the rest).
pub open spec fn spec_parse_datetime(s: Seq<char>) -> Option<DateTime> {
    let t = trim_end_nul(trim(s));
    let (date, time) = match split_once(t, ' ') {
        Some(p) => p,
        None => (t, Seq::<char>::empty()),
    };
    let hms = if time.len() == 0 {
        Some((0int, 0int, 0int))
    } else {
        parse_fields3(time, 255, 255, 255)
    };
    match (parse_fields3(date, 65535, 255, 255), hms) {
        (Some((y, mo, d)), Some((h, mi, se))) => Some(
            DateTime {
                year: y as u16,
                month: mo as u8,
                day: d as u8,
                hour: h as u8,
                minute: mi as u8,
                second: se as u8,
            },
        ),
        _ => None,
    }
}

/// Parse the three `:`-separated numbers of `cs[from..to]`.
fn parse_triple(cs: &[char], from: usize, to: usize, m0: u32, m1: u32, m2: u32) -> (r: Option<
    (u32, u32, u32),
>)
    requires
        from <= to <= cs@.len(),
    ensures
        match r {
            Some((a, b, c)) => parse_fields3(
                cs@.subrange(from as int, to as int),
                m0 as int,
                m1 as int,
                m2 as int,
            ) == Some((a as int, b as int, c as int)),
            None => parse_fields3(
                cs@.subrange(from as int, to as int),
                m0 as int,
                m1 as int,
                m2 as int,
            ) is None,
        },
{
    let ghost s = cs@.subrange(from as int, to as int);
    let p1 = find_char(cs, from, to, ':');
    proof {
        lemma_char_pos_bound(s, ':');
    }
    if p1 == to {
        return None;
    }
    let ghost rest = cs@.subrange(p1 as int + 1, to as int);
    assert(s.take(p1 - from) =~= cs@.subrange(from as int, p1 as int));
    assert(s.skip(p1 - from + 1) =~= rest);
    let p2 = find_char(cs, p1 + 1, to, ':');
    proof {
        lemma_char_pos_bound(rest, ':');
    }
    if p2 == to {
        return None;
    }
    assert(rest.take(p2 - p1 - 1) =~= cs@.subrange(p1 as int + 1, p2 as int));
    assert(rest.skip(p2 - p1) =~= cs@.subrange(p2 as int + 1, to as int));
    let a = match parse_unsigned_in(cs, from, p1, m0) {
        Some(v) => v,
        None => {
            return None;
        },
    };
    let b = match parse_unsigned_in(cs, p1 + 1, p2, m1) {
        Some(v) => v,
        None => {
            return None;
        },
    };
    let c = match parse_unsigned_in(cs, p2 + 1, to, m2) {
        Some(v) => v,
        None => {
            return None;
        },
    };
    Some((a, b, c))
}

/// Parse an EXIF datetime string (see [`spec_parse_datetime`]).
pub fn parse(s: &str) -> (r: Option<DateTime>)
    ensures
        r == spec_parse_datetime(s@),
{
    let cs = chars_of(s);
    let n = cs.len();
    assert(cs@.subrange(0, n as int) =~= s@);
    let (a, b) = trim_bounds(cs.as_slice(), 0, n);
    let e = trim_end_nul_index(cs.as_slice(), a, b);
    let ghost t = cs@.subrange(a as int, e as int);
    assert(t =~= trim_end_nul(trim(s@)));
    let sp = find_char(cs.as_slice(), a, e, ' ');
    proof {
        lemma_char_pos_bound(t, ' ');
    }
    let (dto, tfrom) = if sp < e {
        (sp, sp + 1)
    } else {
        (e, e)
    };
    assert(t.take(dto - a) =~= cs@.subrange(a as int, dto as int));
    if sp < e {
        assert(t.skip(sp - a + 1) =~= cs@.subrange(tfrom as int, e as int));
    }
    let date = parse_triple(cs.as_slice(), a, dto, 65535, 255, 255);
    let (year, month, day) = match date {
        Some(v) => v,
        None => {
            return None;
        },
    };
    let hms = if tfrom == e {
        Some((0u32, 0u32, 0u32))
    } else {
        parse_triple(cs.as_slice(), tfrom, e, 255, 255, 255)
    };
    let (hour, minute, second) = match hms {
        Some(v) => v,
        None => {
            return None;
        },
    };
    Some(
        DateTime {
            year: year as u16,
            month: month as u8,
            day: day as u8,
            hour: hour as u8,
            minute: minute as u8,
            second: second as u8,
        },
    )
}

/// The capture time one tag yields, if readable and parseable.
pub open spec fn spec_date_from(exif: exif::Exif, tag: ExifTag) -> Option<DateTime> {
    match spec_ascii(exif, tag) {
        Some(s) => spec_parse_datetime(s),
        None => None,
    }
}

/// The tag behind each [`DateSource`].
pub open spec fn date_tag(source: DateSource) -> ExifTag {
    match source {
        DateSource::Original => ExifTag { context: TagContext::Exif, number: TAG_DATE_TIME_ORIGINAL },
        DateSource::Digitized => ExifTag {
            context: TagContext::Exif,
            number: TAG_DATE_TIME_DIGITIZED,
        },
        DateSource::Modified => ExifTag { context: TagContext::Tiff, number: TAG_DATE_TIME },
    }
}

/// The first of `DateTimeOriginal`, `DateTimeDigitized`, `DateTime` that
/// yields a capture time, with the tag it came from.
pub open spec fn spec_captured_at(exif: exif::Exif) -> Option<(DateTime, DateSource)> {
    match spec_date_from(exif, date_tag(DateSource::Original)) {
        Some(d) => Some((d, DateSource::Original)),
        None => match spec_date_from(exif, date_tag(DateSource::Digitized)) {
            Some(d) => Some((d, DateSource::Digitized)),
            None => match spec_date_from(exif, date_tag(DateSource::Modified)) {
                Some(d) => Some((d, DateSource::Modified)),
                None => None,
            },
        },
    }
}

fn date_from(exif: &exif::Exif, tag: ExifTag) -> (r: Option<DateTime>)
    ensures
        r == spec_date_from(*exif, tag),
{
    match ascii(exif, tag) {
        Some(s) => parse(s.as_str()),
        None => None,
    }
}

/// Walk the capture-time fallback chain, reporting which tag answered.
pub fn resolve_captured_at(exif: &exif::Exif) -> (r: Option<(DateTime, DateSource)>)
    ensures
        r == spec_captured_at(*exif),
{
    if let Some(d) = date_from(
        exif,
        ExifTag { context: TagContext::Exif, number: TAG_DATE_TIME_ORIGINAL },
    ) {
        return Some((d, DateSource::Original));
    }
    if let Some(d) = date_from(
        exif,
        ExifTag { context: TagContext::Exif, number: TAG_DATE_TIME_DIGITIZED },
    ) {
        return Some((d, DateSource::Digitized));
    }
    if let Some(d) = date_from(exif, ExifTag { context: TagContext::Tiff, number: TAG_DATE_TIME })
        {
        return Some((d, DateSource::Modified));
    }
    None
}

/// The capture time: `DateTimeOriginal`, else `DateTimeDigitized`, else
/// `DateTime`, the first that is present and parses.
pub fn captured_at(exif: &exif::Exif) -> (r: Option<DateTime>)
    ensures
        r == match spec_captured_at(*exif) {
            Some((d, _)) => Some(d),
            None => None,
        },
{
    match resolve_captured_at(exif) {
        Some((d, _)) => Some(d),
        None => None,
    }
}

/// The ISO reading from the first of `PhotographicSensitivity`,
/// `RecommendedExposureIndex`, `ISOSpeed` that holds an unsigned integer,
/// with that tag's number.
pub open spec fn spec_iso(exif: exif::Exif) -> Option<(u32, u16)> {
    let t0 = ExifTag { context: TagContext::Exif, number: TAG_PHOTOGRAPHIC_SENSITIVITY };
    let t1 = ExifTag { context: TagContext::Exif, number: TAG_RECOMMENDED_EXPOSURE_INDEX };
    let t2 = ExifTag { context: TagContext::Exif, number: TAG_ISO_SPEED };
    match spec_uint(exif, t0) {
        Some(v) => Some((v, TAG_PHOTOGRAPHIC_SENSITIVITY)),
        None => match spec_uint(exif, t1) {
            Some(v) => Some((v, TAG_RECOMMENDED_EXPOSURE_INDEX)),
            None => match spec_uint(exif, t2) {
                Some(v) => Some((v, TAG_ISO_SPEED)),
                None => None,
            },
        },
    }
}

/// Walk the ISO fallback chain, reporting which tag answered.
pub fn resolve_iso(exif: &exif::Exif) -> (r: Option<(u32, u16)>)
    ensures
        r == spec_iso(*exif),
{
    if let Some(v) = uint(
        exif,
        ExifTag { context: TagContext::Exif, number: TAG_PHOTOGRAPHIC_SENSITIVITY },
    ) {
        return Some((v, TAG_PHOTOGRAPHIC_SENSITIVITY));
    }
    if let Some(v) = uint(
        exif,
        ExifTag { context: TagContext::Exif, number: TAG_RECOMMENDED_EXPOSURE_INDEX },
    ) {
        return Some((v, TAG_RECOMMENDED_EXPOSURE_INDEX));
    }
    if let Some(v) = uint(exif, ExifTag { context: TagContext::Exif, number: TAG_ISO_SPEED }) {
        return Some((v, TAG_ISO_SPEED));
    }
    None
}

/// The ISO reading (see [`spec_iso`]).
pub fn iso(exif: &exif::Exif) -> (r: Option<u32>)
    ensures
        r == match spec_iso(*exif) {
            Some((v, _)) => Some(v),
            None => None,
        },
{
    match resolve_iso(exif) {
        Some((v, _)) => Some(v),
        None => None,
    }
}

} // verus!
