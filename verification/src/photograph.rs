//! A decoded photograph: upright pixels plus what its EXIF says about how
//! it was taken.

use vstd::prelude::*;
use crate::exposure::{exposure, spec_exposure_present, spec_focal, spec_aperture, spec_shutter, spec_iso_reading, Exposure};
use crate::pixels::Pixels;
use crate::provenance::{camera, camera_read, captured_at, lens, lens_read, spec_captured_at, Camera, DateTime, Lens};

verus! {

/// Capture facts; each group is `None` when nothing of it was read.
#[derive(Debug, Default, PartialEq)]
pub struct Provenance {
    pub camera: Option<Camera>,
    pub lens: Option<Lens>,
    pub exposure: Option<Exposure>,
    pub captured_at: Option<DateTime>,
}

/// No group of facts is present.
pub open spec fn provenance_is_empty(p: Provenance) -> bool {
    p.camera is None && p.lens is None && p.exposure is None && p.captured_at is None
}

/// `e` holds exactly the exposure facts `exif` yields.
pub open spec fn exposure_read(exif: exif::Exif, e: Option<Exposure>) -> bool {
    &&& (e is Some <==> spec_exposure_present(exif))
    &&& (e matches Some(x) ==> {
        &&& x.focal_length == spec_focal(exif)
        &&& x.aperture == spec_aperture(exif)
        &&& x.shutter == spec_shutter(exif)
        &&& (x.iso matches Some(i) ==> spec_iso_reading(exif) == Some(i.value()))
        &&& (x.iso is None ==> spec_iso_reading(exif) is None)
    })
}

/// `p` is what `exif` says: camera, lens, exposure and capture time.
pub open spec fn provenance_of(exif: exif::Exif, p: Provenance) -> bool {
    &&& camera_read(exif, p.camera)
    &&& lens_read(exif, p.lens)
    &&& exposure_read(exif, p.exposure)
    &&& p.captured_at == match spec_captured_at(exif) {
        Some((d, _)) => Some(d),
        None => None,
    }
}

impl Clone for Provenance {
    fn clone(&self) -> (c: Self)
        ensures
            c == *self,
    {
        Provenance {
            camera: match &self.camera {
                Some(cam) => Some(cam.clone()),
                None => None,
            },
            lens: match &self.lens {
                Some(l) => Some(l.clone()),
                None => None,
            },
            exposure: self.exposure,
            captured_at: self.captured_at,
        }
    }
}

impl Provenance {
    /// `true` when no group of facts is present.
    pub fn is_empty(&self) -> (b: bool)
        ensures
            b == provenance_is_empty(*self),
    {
        self.camera.is_none() && self.lens.is_none() && self.exposure.is_none()
            && self.captured_at.is_none()
    }
}

/// Project a parsed EXIF onto a [`Provenance`].
pub fn extract(exif: &exif::Exif) -> (p: Provenance)
    ensures
        provenance_of(*exif, p),
{
    Provenance {
        camera: camera(exif),
        lens: lens(exif),
        exposure: exposure(exif),
        captured_at: captured_at(exif),
    }
}

/// Upright pixels and their capture facts.
#[derive(Clone, Debug, PartialEq)]
pub struct Photograph {
    pub pixels: Pixels,
    pub provenance: Provenance,
}

impl Photograph {
    /// Pair the pixels with their provenance.
    pub fn new(pixels: Pixels, provenance: Provenance) -> (p: Self)
        ensures
            p.pixels == pixels,
            p.provenance == provenance,
    {
        Photograph { pixels, provenance }
    }

    /// `(width, height)` of the pixels.
    pub fn dimensions(&self) -> (d: (u32, u32))
        ensures
            d == (self.pixels.spec_width(), self.pixels.spec_height()),
    {
        self.pixels.dimensions()
    }
}

} // verus!
