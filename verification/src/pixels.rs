//! The owned RGBA8 pixel grid every stage downstream of decoding uses.

use vstd::prelude::*;
use crate::category::{Categorize, Category};

verus! {

/// Why a [`Pixels`] could not be built.
#[derive(Copy, Clone, Debug, PartialEq, Eq, Structural)]
pub enum PixelError {
    /// The buffer is not `width × height × channels` bytes long.
    DataSizeMismatch { width: u32, height: u32, got: usize, expected: usize },
    /// Width or height is zero.
    ZeroDimension { width: u32, height: u32 },
}

impl Categorize for PixelError {
    /// A producer handed over an inconsistent buffer: never the user's fault.
    fn category(&self) -> (c: Category)
        ensures
            c == Category::Internal,
    {
        Category::Internal
    }
}

/// Owned RGBA8 pixel grid, row-major: `width > 0`, `height > 0`, and
/// exactly `width · height · 4` bytes.
#[derive(Debug, PartialEq, Eq)]
pub struct Pixels {
    width: u32,
    height: u32,
    data: Vec<u8>,
}

/// Pixel `j` of an RGBA8 buffer.
pub open spec fn rgba_at(data: Seq<u8>, j: int) -> (u8, u8, u8, u8) {
    (data[4 * j], data[4 * j + 1], data[4 * j + 2], data[4 * j + 3])
}

/// Pixel `j` of an RGB8 buffer, made opaque.
pub open spec fn rgb_as_rgba_at(rgb: Seq<u8>, j: int) -> (u8, u8, u8, u8) {
    (rgb[3 * j], rgb[3 * j + 1], rgb[3 * j + 2], 0xFF)
}

impl Pixels {
    #[verifier::type_invariant]
    spec fn inv(self) -> bool {
        &&& self.width > 0
        &&& self.height > 0
        &&& self.data@.len() == self.width * self.height * 4
    }

    /// Width in pixels.
    pub closed spec fn spec_width(self) -> u32 {
        self.width
    }

    /// Height in pixels.
    pub closed spec fn spec_height(self) -> u32 {
        self.height
    }

    /// The RGBA8 bytes.
    pub closed spec fn spec_data(self) -> Seq<u8> {
        self.data@
    }

    /// Construct from an RGBA8 buffer, taking ownership.
    pub fn from_rgba8(width: u32, height: u32, data: Vec<u8>) -> (r: Result<Self, PixelError>)
        requires
            width * height * 4 <= usize::MAX,
        ensures
            (width == 0 || height == 0) ==> r == Err::<Self, PixelError>(
                PixelError::ZeroDimension { width, height },
            ),
            (width > 0 && height > 0 && data@.len() != width * height * 4) ==> r == Err::<
                Self,
                PixelError,
            >(
                PixelError::DataSizeMismatch {
                    width,
                    height,
                    got: data@.len() as usize,
                    expected: (width * height * 4) as usize,
                },
            ),
            r matches Ok(p) ==> p.spec_width() == width && p.spec_height() == height
                && p.spec_data() == data@,
            r is Ok <==> (width > 0 && height > 0 && data@.len() == width * height * 4),
    {
        Self::ensure_nonzero(width, height)?;
        let expected = expected_rgba8_len(width, height);
        if data.len() != expected {
            return Err(
                PixelError::DataSizeMismatch { width, height, got: data.len(), expected },
            );
        }
        Ok(Pixels { width, height, data })
    }

    /// Construct from an RGB8 buffer, every pixel made opaque.
    pub fn from_rgb8(width: u32, height: u32, rgb: &[u8]) -> (r: Result<Self, PixelError>)
        requires
            width * height * 4 <= usize::MAX,
        ensures
            (width == 0 || height == 0) ==> r == Err::<Self, PixelError>(
                PixelError::ZeroDimension { width, height },
            ),
            (width > 0 && height > 0 && rgb@.len() != width * height * 3) ==> r == Err::<
                Self,
                PixelError,
            >(
                PixelError::DataSizeMismatch {
                    width,
                    height,
                    got: rgb@.len() as usize,
                    expected: (width * height * 3) as usize,
                },
            ),
            r is Ok <==> (width > 0 && height > 0 && rgb@.len() == width * height * 3),
            r matches Ok(p) ==> {
                &&& p.spec_width() == width
                &&& p.spec_height() == height
                &&& forall|j: int|
                    0 <= j < width * height ==> #[trigger] rgba_at(p.spec_data(), j)
                        == rgb_as_rgba_at(rgb@, j)
            },
    {
        Self::ensure_nonzero(width, height)?;
        let pixel_count = (width as usize) * (height as usize);
        assert(pixel_count * 3 <= pixel_count * 4);
        let expected_rgb = pixel_count * 3;
        if rgb.len() != expected_rgb {
            return Err(
                PixelError::DataSizeMismatch { width, height, got: rgb.len(), expected: expected_rgb },
            );
        }
        let mut data: Vec<u8> = Vec::new();
        let mut k: usize = 0;
        while k < pixel_count
            invariant
                k <= pixel_count,
                pixel_count == width * height,
                pixel_count * 4 <= usize::MAX,
                rgb@.len() == 3 * pixel_count,
                data@.len() == 4 * k,
                forall|j: int| 0 <= j < k ==> #[trigger] rgba_at(data@, j) == rgb_as_rgba_at(rgb@, j),
            decreases pixel_count - k,
        {
            let base = 3 * k;
            let ghost before = data@;
            data.push(rgb[base]);
            data.push(rgb[base + 1]);
            data.push(rgb[base + 2]);
            data.push(0xFF);
            assert forall|j: int| 0 <= j < k + 1 implies #[trigger] rgba_at(data@, j) == rgb_as_rgba_at(
                rgb@,
                j,
            ) by {
                if j < k {
                    assert(rgba_at(before, j) == rgb_as_rgba_at(rgb@, j));
                }
            }
            k = k + 1;
        }
        Ok(Pixels { width, height, data })
    }

    /// Width in pixels, never zero.
    pub fn width(&self) -> (w: u32)
        ensures
            w == self.spec_width(),
            w > 0,
    {
        proof {
            use_type_invariant(self);
        }
        self.width
    }

    /// Height in pixels, never zero.
    pub fn height(&self) -> (h: u32)
        ensures
            h == self.spec_height(),
            h > 0,
    {
        proof {
            use_type_invariant(self);
        }
        self.height
    }

    /// `(width, height)`.
    pub fn dimensions(&self) -> (d: (u32, u32))
        ensures
            d == (self.spec_width(), self.spec_height()),
            d.0 > 0 && d.1 > 0,
    {
        proof {
            use_type_invariant(self);
        }
        (self.width, self.height)
    }

    /// The RGBA8 bytes, row-major.
    pub fn as_rgba8(&self) -> (b: &[u8])
        ensures
            b@ == self.spec_data(),
            b@.len() == self.spec_width() * self.spec_height() * 4,
    {
        proof {
            use_type_invariant(self);
        }
        self.data.as_slice()
    }

    /// Give back the dimensions and the buffer.
    pub fn into_parts(self) -> (parts: (u32, u32, Vec<u8>))
        ensures
            parts.0 == self.spec_width(),
            parts.1 == self.spec_height(),
            parts.2@ == self.spec_data(),
            parts.0 > 0 && parts.1 > 0,
            parts.2@.len() == parts.0 * parts.1 * 4,
    {
        proof {
            use_type_invariant(&self);
        }
        (self.width, self.height, self.data)
    }

    fn ensure_nonzero(width: u32, height: u32) -> (r: Result<(), PixelError>)
        ensures
            (width == 0 || height == 0) ==> r == Err::<(), PixelError>(
                PixelError::ZeroDimension { width, height },
            ),
            (width > 0 && height > 0) ==> r is Ok,
    {
        if width == 0 || height == 0 {
            Err(PixelError::ZeroDimension { width, height })
        } else {
            Ok(())
        }
    }
}

impl Clone for Pixels {
    fn clone(&self) -> (c: Self)
        ensures
            c.spec_width() == self.spec_width(),
            c.spec_height() == self.spec_height(),
            c.spec_data() == self.spec_data(),
    {
        proof {
            use_type_invariant(self);
        }
        let data = self.data.clone();
        assert(data@ =~= self.data@);
        Pixels { width: self.width, height: self.height, data }
    }
}

fn expected_rgba8_len(width: u32, height: u32) -> (n: usize)
    requires
        width * height * 4 <= usize::MAX,
    ensures
        n == width * height * 4,
{
    let w = width as usize;
    let h = height as usize;
    assert(w * h <= w * h * 4) by (nonlinear_arith)
        requires
            w >= 0,
            h >= 0,
    ;
    w * h * 4
}


} // verus!
