//! Benchmark inputs: deterministic noise images encoded as JPEG.

use vstd::prelude::*;
use crate::classic::{encode_rgb8_jpeg, image_jpeg_encoded};

verus! {

/// One benchmark input: a name, its dimensions, and the encoded bytes.
#[derive(Debug)]
pub struct Fixture {
    pub name: &'static str,
    pub width: u32,
    pub height: u32,
    pub bytes: Vec<u8>,
}

impl Fixture {
    /// `width · height`, in `u64` so no product overflows.
    pub fn pixel_count(&self) -> (n: u64)
        ensures
            n == self.width * self.height,
    {
        assert((self.width as u64) * (self.height as u64) <= 0xffff_ffff * 0xffff_ffff)
            by (nonlinear_arith)
            requires
                self.width <= 0xffff_ffff,
                self.height <= 0xffff_ffff,
        ;
        (self.width as u64) * (self.height as u64)
    }
}

/// The seed of the noise generator.
pub const NOISE_SEED: u32 = 0x1234_5678;

/// One xorshift32 step (13, 17, 5).
pub open spec fn xorshift(s: u32) -> u32 {
    let a = s ^ (s << 13u32);
    let b = a ^ (a >> 17u32);
    b ^ (b << 5u32)
}

/// The generator state after `i` steps from [`NOISE_SEED`].
pub open spec fn noise_state(i: nat) -> u32
    decreases i,
{
    if i == 0 {
        NOISE_SEED
    } else {
        xorshift(noise_state((i - 1) as nat))
    }
}

/// Byte `i` of the noise: the low byte of the state after `i + 1` steps.
pub open spec fn noise_byte(i: nat) -> u8 {
    noise_state(i + 1) as u8
}

/// The first `n` noise bytes.
pub open spec fn noise(n: nat) -> Seq<u8> {
    Seq::new(n, |i: int| noise_byte(i as nat))
}

/// `width · height · 3` bytes of deterministic xorshift noise.
pub fn synth_noise_rgb(width: u32, height: u32) -> (buf: Vec<u8>)
    requires
        width * height * 3 <= usize::MAX,
    ensures
        buf@.len() == width * height * 3,
        forall|i: int| 0 <= i < buf@.len() ==> #[trigger] buf@[i] == noise_byte(i as nat),
{
    let w = width as usize;
    let h = height as usize;
    assert(w * h <= w * h * 3) by (nonlinear_arith)
        requires
            w >= 0,
            h >= 0,
    ;
    let total = w * h * 3;
    let mut state: u32 = NOISE_SEED;
    let mut buf: Vec<u8> = Vec::new();
    let mut i: usize = 0;
    while i < total
        invariant
            i <= total,
            buf@.len() == i,
            state == noise_state(i as nat),
            forall|j: int| 0 <= j < i ==> #[trigger] buf@[j] == noise_byte(j as nat),
        decreases total - i,
    {
        state = state ^ (state << 13u32);
        state = state ^ (state >> 17u32);
        state = state ^ (state << 5u32);
        buf.push(state as u8);
        i = i + 1;
    }
    buf
}

/// A JPEG of `width × height` noise at `quality`.
pub fn synth_noise_jpeg(name: &'static str, width: u32, height: u32, quality: u8) -> (f: Fixture)
    requires
        1 <= width <= 65535,
        1 <= height <= 65535,
        width * height * 3 <= usize::MAX,
    ensures
        f.name@ == name@,
        f.width == width,
        f.height == height,
        f.bytes@ == image_jpeg_encoded(noise((width * height * 3) as nat), width, height, quality),
{
    let rgb = synth_noise_rgb(width, height);
    assert(rgb@ =~= noise((width * height * 3) as nat));
    let bytes = match encode_rgb8_jpeg(rgb.as_slice(), width, height, quality) {
        Ok(b) => b,
        Err(_) => {
            assert(false);
            Vec::new()
        },
    };
    Fixture { name, width, height, bytes }
}

/// 2400×1600 (3.84 MP) noise at quality 85: smartphone-class output.
pub fn synth_4mp() -> (f: Fixture)
    ensures
        f.width == 2400 && f.height == 1600,
        f.bytes@ == image_jpeg_encoded(noise(2400 * 1600 * 3), 2400, 1600, 85),
{
    synth_noise_jpeg("synth_noise_4mp_2400x1600", 2400, 1600, 85)
}

/// 4240×2832 (12 MP) noise at quality 85: mid-range mirrorless.
pub fn synth_12mp() -> (f: Fixture)
    ensures
        f.width == 4240 && f.height == 2832,
        f.bytes@ == image_jpeg_encoded(noise(4240 * 2832 * 3), 4240, 2832, 85),
{
    synth_noise_jpeg("synth_noise_12mp_4240x2832", 4240, 2832, 85)
}

/// 6016×4016 (24 MP) noise at quality 85: full-frame sensor size.
pub fn synth_24mp() -> (f: Fixture)
    ensures
        f.width == 6016 && f.height == 4016,
        f.bytes@ == image_jpeg_encoded(noise(6016 * 4016 * 3), 6016, 4016, 85),
{
    synth_noise_jpeg("synth_noise_24mp_6016x4016", 6016, 4016, 85)
}

/// 10000×100 noise at quality 85: an extreme aspect ratio.
pub fn synth_panorama() -> (f: Fixture)
    ensures
        f.width == 10000 && f.height == 100,
{
    synth_noise_jpeg("synth_noise_panorama_10000x100", 10000, 100, 85)
}

/// The present real fixtures in order, then the synthetic ones.
pub open spec fn spec_all<'a>(reals: Seq<Option<&'a Fixture>>, synths: Seq<&'a Fixture>) -> Seq<
    &'a Fixture,
>
    decreases reals.len(),
{
    if reals.len() == 0 {
        synths
    } else {
        match reals[0] {
            Some(f) => seq![f] + spec_all(reals.drop_first(), synths),
            None => spec_all(reals.drop_first(), synths),
        }
    }
}

/// Every available fixture in a fixed order: the real ones that could
/// be loaded first, the synthetic ones after.
pub fn all<'a>(reals: &[Option<&'a Fixture>], synths: &[&'a Fixture]) -> (v: Vec<&'a Fixture>)
    ensures
        v@ == spec_all(reals@, synths@),
{
    let mut v: Vec<&'a Fixture> = Vec::new();
    let mut i: usize = 0;
    assert(reals@.skip(0) =~= reals@);
    assert(v@ + spec_all(reals@, synths@) =~= spec_all(reals@, synths@));
    while i < reals.len()
        invariant
            i <= reals@.len(),
            v@ + spec_all(reals@.skip(i as int), synths@) == spec_all(reals@, synths@),
        decreases reals.len() - i,
    {
        assert(reals@.skip(i as int).drop_first() =~= reals@.skip(i as int + 1));
        match reals[i] {
            Some(f) => {
                assert(v@.push(f) + spec_all(reals@.skip(i as int + 1), synths@) =~= v@ + (seq![f]
                    + spec_all(reals@.skip(i as int + 1), synths@)));
                v.push(f);
            },
            None => {},
        }
        i = i + 1;
    }
    assert(reals@.skip(reals@.len() as int) =~= Seq::<Option<&'a Fixture>>::empty());
    let mut j: usize = 0;
    let ghost base = v@;
    while j < synths.len()
        invariant
            j <= synths@.len(),
            v@ == base + synths@.take(j as int),
            base + synths@ == spec_all(reals@, synths@),
        decreases synths.len() - j,
    {
        v.push(synths[j]);
        j = j + 1;
        assert(v@ =~= base + synths@.take(j as int));
    }
    assert(synths@.take(synths@.len() as int) =~= synths@);
    v
}

} // verus!
