//! Named quality and size bundles.

use vstd::prelude::*;

verus! {

/// A named quality / size bundle; the numbers are part of the contract.
#[derive(Copy, Clone, Debug, PartialEq, Eq, Structural, Hash)]
pub enum QualityPreset {
    /// Social media: modest quality, long edge clamped to 2048 px.
    Sns,
    /// Balanced default, no downscale.
    Standard,
    /// Print / archive grade, no downscale.
    Maximum,
}

impl Default for QualityPreset {
    fn default() -> (p: Self)
        ensures
            p == QualityPreset::Standard,
    {
        QualityPreset::Standard
    }
}

impl QualityPreset {
    /// The JPEG quality this preset prescribes.
    pub fn jpeg_quality(self) -> (q: u8)
        ensures
            q == match self {
                QualityPreset::Sns => 78u8,
                QualityPreset::Standard => 92u8,
                QualityPreset::Maximum => 98u8,
            },
            1 <= q <= 100,
    {
        match self {
            QualityPreset::Sns => 78,
            QualityPreset::Standard => 92,
            QualityPreset::Maximum => 98,
        }
    }

    /// The long-edge cap, or `None` for "do not downscale".
    pub fn max_long_edge(self) -> (e: Option<u32>)
        ensures
            e == match self {
                QualityPreset::Sns => Some(2048u32),
                _ => None,
            },
    {
        match self {
            QualityPreset::Sns => Some(2048),
            QualityPreset::Standard | QualityPreset::Maximum => None,
        }
    }
}

} // verus!
