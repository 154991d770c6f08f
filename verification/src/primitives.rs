//! Newtypes that pin an invariant once, at construction.
//!
//! Each wraps a raw value behind a validating `new`; the invariant is a
//! type invariant, so every accessor hands it back to the caller.

use vstd::prelude::*;
use crate::text::{chars_of, trim, trim_bounds};

verus! {

/// JPEG encoder quality on the canonical `1..=100` scale.
#[derive(Copy, Clone, Debug, PartialEq, Eq, Structural, PartialOrd, Ord, Hash)]
pub struct JpegQuality(u8);

impl JpegQuality {
    /// Minimum valid JPEG quality.
    pub const MIN: u8 = 1;
    /// Maximum valid JPEG quality.
    pub const MAX: u8 = 100;

    #[verifier::type_invariant]
    spec fn inv(self) -> bool {
        1 <= self.0 <= 100
    }

    /// The wrapped quality.
    pub closed spec fn value(self) -> u8 {
        self.0
    }

    /// `Some` exactly for `1..=100`.
    pub fn new(value: u8) -> (r: Option<Self>)
        ensures
            r is Some <==> 1 <= value <= 100,
            r matches Some(q) ==> q.value() == value,
    {
        if value >= Self::MIN && value <= Self::MAX {
            Some(JpegQuality(value))
        } else {
            None
        }
    }

    /// The wrapped quality, always within `1..=100`.
    pub fn get(self) -> (v: u8)
        ensures
            v == self.value(),
            1 <= v <= 100,
    {
        proof {
            use_type_invariant(&self);
        }
        self.0
    }
}

/// Longest-edge pixel cap for a downscale pass; never zero.
#[derive(Copy, Clone, Debug, PartialEq, Eq, Structural, PartialOrd, Ord, Hash)]
pub struct LongEdge(u32);

impl LongEdge {
    #[verifier::type_invariant]
    spec fn inv(self) -> bool {
        self.0 > 0
    }

    /// The wrapped pixel count.
    pub closed spec fn value(self) -> u32 {
        self.0
    }

    /// `None` for zero.
    pub fn new(value: u32) -> (r: Option<Self>)
        ensures
            r is Some <==> value > 0,
            r matches Some(e) ==> e.value() == value,
    {
        if value == 0 {
            None
        } else {
            Some(LongEdge(value))
        }
    }

    /// The pixel count, never zero.
    pub fn get(self) -> (v: u32)
        ensures
            v == self.value(),
            v > 0,
    {
        proof {
            use_type_invariant(&self);
        }
        self.0
    }
}

/// ISO sensitivity reading; never zero.
#[derive(Copy, Clone, Debug, PartialEq, Eq, Structural, PartialOrd, Ord, Hash)]
pub struct IsoSensitivity(u32);

impl IsoSensitivity {
    #[verifier::type_invariant]
    spec fn inv(self) -> bool {
        self.0 > 0
    }

    /// The wrapped reading.
    pub closed spec fn value(self) -> u32 {
        self.0
    }

    /// `None` for zero.
    pub fn new(value: u32) -> (r: Option<Self>)
        ensures
            r is Some <==> value > 0,
            r matches Some(i) ==> i.value() == value,
    {
        if value == 0 {
            None
        } else {
            Some(IsoSensitivity(value))
        }
    }

    /// The reading, never zero.
    pub fn get(self) -> (v: u32)
        ensures
            v == self.value(),
            v > 0,
    {
        proof {
            use_type_invariant(&self);
        }
        self.0
    }
}

/// A free-form EXIF string that is not empty once whitespace is trimmed.
/// The string itself is kept verbatim.
#[derive(Debug, PartialEq, Eq, Hash)]
pub struct ExifString(String);

impl Clone for ExifString {
    fn clone(&self) -> (c: Self)
        ensures
            c == *self,
    {
        proof {
            use_type_invariant(self);
        }
        ExifString(self.0.clone())
    }
}

impl ExifString {
    #[verifier::type_invariant]
    spec fn inv(self) -> bool {
        trim(self.0@).len() > 0
    }

    /// The characters of the wrapped string.
    pub closed spec fn view(self) -> Seq<char> {
        self.0@
    }

    /// `None` when `value` is empty or whitespace only.
    pub fn new(value: String) -> (r: Option<Self>)
        ensures
            r is Some <==> trim(value@).len() > 0,
            r matches Some(e) ==> e.view() == value@,
    {
        let cs = chars_of(value.as_str());
        let n = cs.len();
        let (a, b) = trim_bounds(cs.as_slice(), 0, n);
        assert(cs@.subrange(0, n as int) =~= value@);
        if a == b {
            None
        } else {
            Some(ExifString(value))
        }
    }

    /// The wrapped string.
    pub fn as_str(&self) -> (s: &str)
        ensures
            s@ == self.view(),
            trim(s@).len() > 0,
    {
        proof {
            use_type_invariant(self);
        }
        self.0.as_str()
    }

    /// Unwrap into the underlying `String`.
    pub fn into_inner(self) -> (s: String)
        ensures
            s@ == self.view(),
            trim(s@).len() > 0,
    {
        proof {
            use_type_invariant(&self);
        }
        self.0
    }
}

/// Image dimensions with both axes non-zero.
#[derive(Copy, Clone, Debug, PartialEq, Eq, Structural, Hash)]
pub struct Dimensions {
    width: u32,
    height: u32,
}

impl Dimensions {
    #[verifier::type_invariant]
    spec fn inv(self) -> bool {
        self.width > 0 && self.height > 0
    }

    /// Width in pixels.
    pub closed spec fn spec_width(self) -> u32 {
        self.width
    }

    /// Height in pixels.
    pub closed spec fn spec_height(self) -> u32 {
        self.height
    }

    /// `None` when either axis is zero.
    pub fn new(width: u32, height: u32) -> (r: Option<Self>)
        ensures
            r is Some <==> width > 0 && height > 0,
            r matches Some(d) ==> d.spec_width() == width && d.spec_height() == height,
    {
        if width == 0 || height == 0 {
            None
        } else {
            Some(Dimensions { width, height })
        }
    }

    /// Width in pixels, never zero.
    pub fn width(self) -> (w: u32)
        ensures
            w == self.spec_width(),
            w > 0,
    {
        proof {
            use_type_invariant(&self);
        }
        self.width
    }

    /// Height in pixels, never zero.
    pub fn height(self) -> (h: u32)
        ensures
            h == self.spec_height(),
            h > 0,
    {
        proof {
            use_type_invariant(&self);
        }
        self.height
    }

    /// `width · height · 4`: the byte length of an RGBA8 buffer filling
    /// the grid.
    pub fn rgba8_bytes(self) -> (n: usize)
        requires
            self.spec_width() * self.spec_height() * 4 <= usize::MAX,
        ensures
            n == self.spec_width() * self.spec_height() * 4,
    {
        let w = self.width as usize;
        let h = self.height as usize;
        assert(w * h <= w * h * 4) by (nonlinear_arith)
            requires
                w >= 0,
                h >= 0,
        ;
        w * h * 4
    }
}

/// An 8-bit RGBA colour, `[red, green, blue, alpha]`.
#[derive(Copy, Clone, Debug, PartialEq, Eq, Structural, Hash)]
pub struct Rgba8 {
    /// Red channel.
    pub r: u8,
    /// Green channel.
    pub g: u8,
    /// Blue channel.
    pub b: u8,
    /// Alpha channel (`255` is opaque).
    pub a: u8,
}

impl Rgba8 {
    /// Construct from explicit channel values.
    pub fn new(r: u8, g: u8, b: u8, a: u8) -> (c: Self)
        ensures
            c == (Rgba8 { r, g, b, a }),
    {
        Rgba8 { r, g, b, a }
    }

    /// Opaque white.
    pub fn white() -> (c: Self)
        ensures
            c == (Rgba8 { r: 255, g: 255, b: 255, a: 255 }),
    {
        Rgba8 { r: 255, g: 255, b: 255, a: 255 }
    }

    /// Opaque black.
    pub fn black() -> (c: Self)
        ensures
            c == (Rgba8 { r: 0, g: 0, b: 0, a: 255 }),
    {
        Rgba8 { r: 0, g: 0, b: 0, a: 255 }
    }

    /// The colour in RGBA byte order.
    pub fn to_array(self) -> (v: [u8; 4])
        ensures
            v@ == seq![self.r, self.g, self.b, self.a],
    {
        [self.r, self.g, self.b, self.a]
    }
}

} // verus!
