//! EXIF access through kamadak-exif.
//!
//! A parsed [`exif::Exif`] is a map from (IFD number, tag) to a typed value.
//! The library models that map as [`exif_fields`] and reads it only through
//! the wrappers below, so everything built on top (camera, lens, capture
//! time, orientation, ISO) is verified against the same model.

use vstd::prelude::*;
use vstd::utf8::{decode_utf8, valid_utf8};
use crate::text::{chars_of, string_from_chars, trim, trim_bounds, trim_end_nul, trim_end_nul_index};

verus! {

#[verifier::external_type_specification]
#[verifier::external_body]
pub struct ExExif(exif::Exif);

#[verifier::external_type_specification]
#[verifier::external_body]
pub struct ExExifError(exif::Error);

#[verifier::external_type_specification]
#[verifier::external_body]
pub struct ExExifTag(exif::Tag);

/// How a tag number is interpreted (which IFD it lives in).
#[derive(Copy, Clone, Debug, PartialEq, Eq, Structural, Hash)]
pub enum TagContext {
    Tiff,
    Exif,
    Gps,
    Interop,
}

/// An EXIF tag: context plus tag number.
#[derive(Copy, Clone, Debug, PartialEq, Eq, Structural, Hash)]
pub struct ExifTag {
    pub context: TagContext,
    pub number: u16,
}

/// `Orientation` (TIFF 0x0112).
pub const TAG_ORIENTATION: u16 = 0x0112;
/// `Make` (TIFF 0x010F).
pub const TAG_MAKE: u16 = 0x010F;
/// `Model` (TIFF 0x0110).
pub const TAG_MODEL: u16 = 0x0110;
/// `DateTime` (TIFF 0x0132).
pub const TAG_DATE_TIME: u16 = 0x0132;
/// `DateTimeOriginal` (Exif 0x9003).
pub const TAG_DATE_TIME_ORIGINAL: u16 = 0x9003;
/// `DateTimeDigitized` (Exif 0x9004).
pub const TAG_DATE_TIME_DIGITIZED: u16 = 0x9004;
/// `LensMake` (Exif 0xA433).
pub const TAG_LENS_MAKE: u16 = 0xA433;
/// `LensModel` (Exif 0xA434).
pub const TAG_LENS_MODEL: u16 = 0xA434;
/// `PhotographicSensitivity` (Exif 0x8827).
pub const TAG_PHOTOGRAPHIC_SENSITIVITY: u16 = 0x8827;
/// `RecommendedExposureIndex` (Exif 0x8832).
pub const TAG_RECOMMENDED_EXPOSURE_INDEX: u16 = 0x8832;
/// `ISOSpeed` (Exif 0x8833).
pub const TAG_ISO_SPEED: u16 = 0x8833;
/// `ExposureTime` (Exif 0x829A).
pub const TAG_EXPOSURE_TIME: u16 = 0x829A;
/// `FNumber` (Exif 0x829D).
pub const TAG_F_NUMBER: u16 = 0x829D;
/// `ShutterSpeedValue` (Exif 0x9201), APEX.
pub const TAG_SHUTTER_SPEED_VALUE: u16 = 0x9201;
/// `ApertureValue` (Exif 0x9202), APEX.
pub const TAG_APERTURE_VALUE: u16 = 0x9202;
/// `FocalLength` (Exif 0x920A).
pub const TAG_FOCAL_LENGTH: u16 = 0x920A;
/// `FocalLengthIn35mmFilm` (Exif 0xA405).
pub const TAG_FOCAL_LENGTH_IN_35MM_FILM: u16 = 0xA405;

/// The value of an EXIF field, as far as this library reads it.
#[derive(Clone, Debug)]
pub enum FieldValue {
    Byte(Vec<u8>),
    /// ASCII strings, trailing NULs already removed by the reader.
    Ascii(Vec<Vec<u8>>),
    Short(Vec<u16>),
    Long(Vec<u32>),
    /// Unsigned rationals as `(numerator, denominator)`.
    Rational(Vec<(u32, u32)>),
    /// Signed rationals as `(numerator, denominator)`.
    SRational(Vec<(i32, i32)>),
    /// Signed integers, floating point, undefined bytes.
    Other,
}

/// What the EXIF reader found.
pub enum ExifReadOutcome {
    /// The container has no EXIF segment.
    Absent,
    /// EXIF parsed.
    Parsed(exif::Exif),
    /// EXIF was present but the parser rejected it.
    Malformed(exif::Error),
}

/// The fields a parsed EXIF holds, keyed by (IFD number, tag).
pub uninterp spec fn exif_fields(exif: exif::Exif) -> Map<(u16, ExifTag), FieldValue>;

/// What kamadak-exif's `Reader::read_from_container` makes of `bytes`.
pub uninterp spec fn container_outcome(bytes: Seq<u8>) -> ExifReadOutcome;

/// What kamadak-exif's `Reader::read_raw` makes of a bare TIFF blob.
pub uninterp spec fn raw_outcome(blob: Seq<u8>) -> ExifReadOutcome;

/// The primary image's field for `tag`, if present.
pub open spec fn primary_field(exif: exif::Exif, tag: ExifTag) -> Option<FieldValue> {
    let m = exif_fields(exif);
    if m.dom().contains((0u16, tag)) {
        Some(m[(0u16, tag)])
    } else {
        None
    }
}

/// kamadak-exif `Exif::get_field(tag, In::PRIMARY)`: the field's value,
/// converted variant by variant into [`FieldValue`].
#[verifier::external_body]
pub(crate) fn get_primary_field(exif: &exif::Exif, tag: ExifTag) -> (r: Option<FieldValue>)
    ensures
        exif_fields(*exif).dom().contains((0u16, tag)) ==> r == Some(
            exif_fields(*exif)[(0u16, tag)],
        ),
        !exif_fields(*exif).dom().contains((0u16, tag)) ==> r is None,
{
    let field = exif.get_field(exif_tag(tag), exif::In::PRIMARY)?;
    Some(match &field.value {
        exif::Value::Byte(v) => FieldValue::Byte(v.clone()),
        exif::Value::Ascii(v) => FieldValue::Ascii(v.clone()),
        exif::Value::Short(v) => FieldValue::Short(v.clone()),
        exif::Value::Long(v) => FieldValue::Long(v.clone()),
        exif::Value::Rational(v) => FieldValue::Rational(v.iter().map(|r| (r.num, r.denom)).collect()),
        exif::Value::SRational(v) => FieldValue::SRational(v.iter().map(|r| (r.num, r.denom)).collect()),
        _ => FieldValue::Other,
    })
}

/// The kamadak-exif `Tag` for a tag of this library: the same context
/// and number.
#[verifier::external_body]
fn exif_tag(tag: ExifTag) -> exif::Tag {
    let context = match tag.context {
        TagContext::Tiff => exif::Context::Tiff,
        TagContext::Exif => exif::Context::Exif,
        TagContext::Gps => exif::Context::Gps,
        TagContext::Interop => exif::Context::Interop,
    };
    exif::Tag(context, tag.number)
}

/// kamadak-exif `Reader::read_from_container` over an in-memory cursor,
/// with `Error::NotFound` told apart from the other errors.
#[verifier::external_body]
fn read_from_container(bytes: &[u8]) -> (r: ExifReadOutcome)
    ensures
        r == container_outcome(bytes@),
{
    match exif::Reader::new().read_from_container(&mut std::io::Cursor::new(bytes)) {
        Ok(parsed) => ExifReadOutcome::Parsed(parsed),
        Err(exif::Error::NotFound(_)) => ExifReadOutcome::Absent,
        Err(error) => ExifReadOutcome::Malformed(error),
    }
}

/// kamadak-exif `Reader::read_raw` on a copy of `blob`, with
/// `Error::NotFound` told apart from the other errors.
#[verifier::external_body]
fn read_raw_blob(blob: &[u8]) -> (r: ExifReadOutcome)
    ensures
        r == raw_outcome(blob@),
{
    match exif::Reader::new().read_raw(blob.to_vec()) {
        Ok(parsed) => ExifReadOutcome::Parsed(parsed),
        Err(exif::Error::NotFound(_)) => ExifReadOutcome::Absent,
        Err(error) => ExifReadOutcome::Malformed(error),
    }
}

/// `std::str::from_utf8`: the string the bytes encode, if they are UTF-8.
#[verifier::external_body]
fn str_from_utf8(bytes: &[u8]) -> (r: Option<&str>)
    ensures
        r is Some <==> valid_utf8(bytes@),
        r matches Some(s) ==> s@ == decode_utf8(bytes@),
{
    std::str::from_utf8(bytes).ok()
}

impl ExifReadOutcome {
    /// The parsed EXIF, if one was read.
    pub fn as_parsed(&self) -> (r: Option<&exif::Exif>)
        ensures
            match self {
                ExifReadOutcome::Parsed(e) => r == Some(e),
                _ => r is None,
            },
    {
        match self {
            ExifReadOutcome::Parsed(e) => Some(e),
            ExifReadOutcome::Absent => None,
            ExifReadOutcome::Malformed(_) => None,
        }
    }

    /// `true` when EXIF was present at all, parseable or not.
    pub fn was_present(&self) -> (b: bool)
        ensures
            b == !(self is Absent),
    {
        match self {
            ExifReadOutcome::Absent => false,
            _ => true,
        }
    }
}

/// Read EXIF from a container-format input (JPEG, TIFF, PNG, HEIF).
pub fn read(bytes: &[u8]) -> (r: ExifReadOutcome)
    ensures
        r == container_outcome(bytes@),
{
    read_from_container(bytes)
}

/// Read EXIF from a bare TIFF blob.
pub fn read_raw(blob: &[u8]) -> (r: ExifReadOutcome)
    ensures
        r == raw_outcome(blob@),
{
    read_raw_blob(blob)
}

/// kamadak-exif's `Value::get_uint(index)`: BYTE, SHORT and LONG values
/// widened to `u32`; anything else, or an index past the end, is `None`.
pub open spec fn spec_get_uint(v: FieldValue, index: int) -> Option<u32> {
    match v {
        FieldValue::Byte(b) => if 0 <= index < b@.len() { Some(b@[index] as u32) } else { None },
        FieldValue::Short(s) => if 0 <= index < s@.len() { Some(s@[index] as u32) } else { None },
        FieldValue::Long(l) => if 0 <= index < l@.len() { Some(l@[index]) } else { None },
        _ => None,
    }
}

impl FieldValue {
    /// The `index`-th unsigned integer of a BYTE, SHORT or LONG value.
    pub fn get_uint(&self, index: usize) -> (r: Option<u32>)
        ensures
            r == spec_get_uint(*self, index as int),
    {
        match self {
            FieldValue::Byte(b) => if index < b.len() { Some(b[index] as u32) } else { None },
            FieldValue::Short(s) => if index < s.len() { Some(s[index] as u32) } else { None },
            FieldValue::Long(l) => if index < l.len() { Some(l[index]) } else { None },
            _ => None,
        }
    }
}

/// The first unsigned integer of the primary image's `tag`.
pub open spec fn spec_uint(exif: exif::Exif, tag: ExifTag) -> Option<u32> {
    match primary_field(exif, tag) {
        Some(v) => spec_get_uint(v, 0),
        None => None,
    }
}

/// Read a BYTE/SHORT/LONG tag as `u32`.
pub fn uint(exif: &exif::Exif, tag: ExifTag) -> (r: Option<u32>)
    ensures
        r == spec_uint(*exif, tag),
{
    match get_primary_field(exif, tag) {
        Some(v) => v.get_uint(0),
        None => None,
    }
}

/// The raw EXIF `Orientation` value, if any.
pub fn orientation_value(exif: Option<&exif::Exif>) -> (r: Option<u32>)
    ensures
        r == match exif {
            Some(e) => spec_uint(*e, ExifTag { context: TagContext::Tiff, number: TAG_ORIENTATION }),
            None => None,
        },
{
    match exif {
        Some(e) => uint(e, ExifTag { context: TagContext::Tiff, number: TAG_ORIENTATION }),
        None => None,
    }
}

/// An ASCII tag's first string, NULs and surrounding whitespace trimmed;
/// `None` when absent, not ASCII-typed, not UTF-8, or empty after trimming.
pub open spec fn spec_ascii(exif: exif::Exif, tag: ExifTag) -> Option<Seq<char>> {
    match primary_field(exif, tag) {
        Some(FieldValue::Ascii(strings)) => {
            if strings@.len() > 0 && valid_utf8(strings@[0]@) {
                let cleaned = trim(trim_end_nul(decode_utf8(strings@[0]@)));
                if cleaned.len() > 0 {
                    Some(cleaned)
                } else {
                    None
                }
            } else {
                None
            }
        },
        _ => None,
    }
}

/// Read an ASCII tag (see [`spec_ascii`]).
pub fn ascii(exif: &exif::Exif, tag: ExifTag) -> (r: Option<String>)
    ensures
        match r {
            Some(s) => spec_ascii(*exif, tag) == Some(s@),
            None => spec_ascii(*exif, tag) is None,
        },
{
    let field = get_primary_field(exif, tag);
    let strings = match field {
        Some(FieldValue::Ascii(strings)) => strings,
        _ => {
            return None;
        },
    };
    if strings.len() == 0 {
        return None;
    }
    let s = match str_from_utf8(strings[0].as_slice()) {
        Some(s) => s,
        None => {
            return None;
        },
    };
    let cs = chars_of(s);
    let n = cs.len();
    let e = trim_end_nul_index(cs.as_slice(), 0, n);
    assert(cs@.subrange(0, n as int) =~= cs@);
    assert(cs@.subrange(0, e as int) =~= trim_end_nul(cs@));
    let (a, b) = trim_bounds(cs.as_slice(), 0, e);
    if a == b {
        return None;
    }
    Some(string_from_chars(cs.as_slice(), a, b))
}

} // verus!
