//! Exposure facts — focal length, aperture, shutter, ISO — and the tag
//! each one is read from.
//!
//! Every fact walks a short fallback chain: the tag the EXIF standard
//! defines for it, then a secondary one. A rational is accepted only when
//! it denotes a positive finite number; the APEX secondaries (aperture
//! `2^(Av/2)`, shutter `2^(−Tv)`) are handed on as read, for the caller to
//! evaluate in floating point.

use vstd::prelude::*;
use crate::exif::{
    primary_field, spec_uint, uint, ExifTag, FieldValue, TagContext, TAG_APERTURE_VALUE,
    TAG_EXPOSURE_TIME, TAG_FOCAL_LENGTH, TAG_FOCAL_LENGTH_IN_35MM_FILM, TAG_F_NUMBER,
    TAG_SHUTTER_SPEED_VALUE,
};
use crate::primitives::IsoSensitivity;
use crate::provenance::{iso, spec_iso};

verus! {

/// `num / den`: the first value of a RATIONAL or SRATIONAL field.
#[derive(Copy, Clone, Debug, PartialEq, Eq, Structural, Hash)]
pub struct Ratio {
    pub num: i64,
    pub den: i64,
}

/// The ratio denotes a positive finite number.
pub open spec fn is_positive(r: Ratio) -> bool {
    (r.num > 0 && r.den > 0) || (r.num < 0 && r.den < 0)
}

/// The first value of a RATIONAL or SRATIONAL field; `None` for any other
/// type or an empty field.
pub open spec fn spec_first_ratio(f: Option<FieldValue>) -> Option<Ratio> {
    match f {
        Some(FieldValue::Rational(v)) => if v@.len() > 0 {
            Some(Ratio { num: v@[0].0 as i64, den: v@[0].1 as i64 })
        } else {
            None
        },
        Some(FieldValue::SRational(v)) => if v@.len() > 0 {
            Some(Ratio { num: v@[0].0 as i64, den: v@[0].1 as i64 })
        } else {
            None
        },
        _ => None,
    }
}

/// The Exif-IFD tag with number `n`.
pub open spec fn exif_ifd(n: u16) -> ExifTag {
    ExifTag { context: TagContext::Exif, number: n }
}

/// The first rational of the primary image's `tag`.
pub fn ratio(exif: &exif::Exif, tag: ExifTag) -> (r: Option<Ratio>)
    ensures
        r == spec_first_ratio(primary_field(*exif, tag)),
{
    match crate::exif::get_primary_field(exif, tag) {
        Some(FieldValue::Rational(v)) => if v.len() > 0 {
            Some(Ratio { num: v[0].0 as i64, den: v[0].1 as i64 })
        } else {
            None
        },
        Some(FieldValue::SRational(v)) => if v.len() > 0 {
            Some(Ratio { num: v[0].0 as i64, den: v[0].1 as i64 })
        } else {
            None
        },
        _ => None,
    }
}

/// Where the focal length was read.
#[derive(Copy, Clone, Debug, PartialEq, Eq, Structural, Hash)]
pub enum FocalSource {
    /// `FocalLength`, in millimetres, positive.
    Lens(Ratio),
    /// `FocalLengthIn35mmFilm`, in millimetres, positive.
    Film35(u32),
}

/// Where the aperture was read.
#[derive(Copy, Clone, Debug, PartialEq, Eq, Structural, Hash)]
pub enum ApertureSource {
    /// `FNumber`, positive.
    FNumber(Ratio),
    /// `ApertureValue`, APEX `Av` with a non-zero denominator: `F = 2^(Av/2)`.
    Apex(Ratio),
}

/// Where the shutter time was read.
#[derive(Copy, Clone, Debug, PartialEq, Eq, Structural, Hash)]
pub enum ShutterSource {
    /// `ExposureTime`, in seconds, positive.
    Seconds(Ratio),
    /// `ShutterSpeedValue`, APEX `Tv` with a non-zero denominator: `T = 2^(−Tv)`.
    Apex(Ratio),
}

/// The exposure facts of one photograph, as read.
#[derive(Copy, Clone, Debug, PartialEq, Eq, Structural)]
pub struct Exposure {
    pub focal_length: Option<FocalSource>,
    pub aperture: Option<ApertureSource>,
    pub shutter: Option<ShutterSource>,
    pub iso: Option<IsoSensitivity>,
}

/// `FocalLength` when positive, else a positive `FocalLengthIn35mmFilm`.
pub open spec fn spec_focal(exif: exif::Exif) -> Option<FocalSource> {
    match spec_first_ratio(primary_field(exif, exif_ifd(TAG_FOCAL_LENGTH))) {
        Some(r) if is_positive(r) => Some(FocalSource::Lens(r)),
        _ => match spec_uint(exif, exif_ifd(TAG_FOCAL_LENGTH_IN_35MM_FILM)) {
            Some(v) if v > 0 => Some(FocalSource::Film35(v)),
            _ => None,
        },
    }
}

/// `FNumber` when positive, else `ApertureValue` when its denominator is
/// not zero.
pub open spec fn spec_aperture(exif: exif::Exif) -> Option<ApertureSource> {
    match spec_first_ratio(primary_field(exif, exif_ifd(TAG_F_NUMBER))) {
        Some(r) if is_positive(r) => Some(ApertureSource::FNumber(r)),
        _ => match spec_first_ratio(primary_field(exif, exif_ifd(TAG_APERTURE_VALUE))) {
            Some(r) if r.den != 0 => Some(ApertureSource::Apex(r)),
            _ => None,
        },
    }
}

/// `ExposureTime` when positive, else `ShutterSpeedValue` when its
/// denominator is not zero.
pub open spec fn spec_shutter(exif: exif::Exif) -> Option<ShutterSource> {
    match spec_first_ratio(primary_field(exif, exif_ifd(TAG_EXPOSURE_TIME))) {
        Some(r) if is_positive(r) => Some(ShutterSource::Seconds(r)),
        _ => match spec_first_ratio(primary_field(exif, exif_ifd(TAG_SHUTTER_SPEED_VALUE))) {
            Some(r) if r.den != 0 => Some(ShutterSource::Apex(r)),
            _ => None,
        },
    }
}

/// A positive ISO reading from the ISO fallback chain.
pub open spec fn spec_iso_reading(exif: exif::Exif) -> Option<u32> {
    match spec_iso(exif) {
        Some((v, _)) if v > 0 => Some(v),
        _ => None,
    }
}

/// Read the focal length (see [`spec_focal`]).
pub fn focal_length(exif: &exif::Exif) -> (r: Option<FocalSource>)
    ensures
        r == spec_focal(*exif),
{
    if let Some(r) = ratio(exif, ExifTag { context: TagContext::Exif, number: TAG_FOCAL_LENGTH }) {
        if (r.num > 0 && r.den > 0) || (r.num < 0 && r.den < 0) {
            return Some(FocalSource::Lens(r));
        }
    }
    match uint(exif, ExifTag { context: TagContext::Exif, number: TAG_FOCAL_LENGTH_IN_35MM_FILM }) {
        Some(v) if v > 0 => Some(FocalSource::Film35(v)),
        _ => None,
    }
}

/// Read the aperture (see [`spec_aperture`]).
pub fn aperture(exif: &exif::Exif) -> (r: Option<ApertureSource>)
    ensures
        r == spec_aperture(*exif),
{
    if let Some(r) = ratio(exif, ExifTag { context: TagContext::Exif, number: TAG_F_NUMBER }) {
        if (r.num > 0 && r.den > 0) || (r.num < 0 && r.den < 0) {
            return Some(ApertureSource::FNumber(r));
        }
    }
    match ratio(exif, ExifTag { context: TagContext::Exif, number: TAG_APERTURE_VALUE }) {
        Some(r) if r.den != 0 => Some(ApertureSource::Apex(r)),
        _ => None,
    }
}

/// Read the shutter time (see [`spec_shutter`]).
pub fn shutter_seconds(exif: &exif::Exif) -> (r: Option<ShutterSource>)
    ensures
        r == spec_shutter(*exif),
{
    if let Some(r) = ratio(exif, ExifTag { context: TagContext::Exif, number: TAG_EXPOSURE_TIME }) {
        if (r.num > 0 && r.den > 0) || (r.num < 0 && r.den < 0) {
            return Some(ShutterSource::Seconds(r));
        }
    }
    match ratio(exif, ExifTag { context: TagContext::Exif, number: TAG_SHUTTER_SPEED_VALUE }) {
        Some(r) if r.den != 0 => Some(ShutterSource::Apex(r)),
        _ => None,
    }
}

/// The exposure facts; `None` when not one of the four was read.
pub open spec fn spec_exposure_present(exif: exif::Exif) -> bool {
    spec_focal(exif) is Some || spec_aperture(exif) is Some || spec_shutter(exif) is Some
        || spec_iso_reading(exif) is Some
}

/// Read the four exposure facts; `None` when none of them is there.
pub fn exposure(exif: &exif::Exif) -> (r: Option<Exposure>)
    ensures
        r is Some <==> spec_exposure_present(*exif),
        r matches Some(e) ==> {
            &&& e.focal_length == spec_focal(*exif)
            &&& e.aperture == spec_aperture(*exif)
            &&& e.shutter == spec_shutter(*exif)
            &&& (e.iso matches Some(i) ==> spec_iso_reading(*exif) == Some(i.value()))
            &&& (e.iso is None ==> spec_iso_reading(*exif) is None)
        },
{
    let iso_sensitivity = match iso(exif) {
        Some(v) => IsoSensitivity::new(v),
        None => None,
    };
    let e = Exposure {
        focal_length: focal_length(exif),
        aperture: aperture(exif),
        shutter: shutter_seconds(exif),
        iso: iso_sensitivity,
    };
    if e.focal_length.is_none() && e.aperture.is_none() && e.shutter.is_none() && e.iso.is_none() {
        return None;
    }
    Some(e)
}

} // verus!
