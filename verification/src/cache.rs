//! A cheap content fingerprint for caching decoded inputs.

use vstd::prelude::*;
use vstd::wrapping::u64_specs;
use crate::decode::{decode_outcome, from_bytes, DecodeError};
use crate::photograph::Photograph;

verus! {

/// The multiplier the byte length is spread with.
pub const LENGTH_MIX: u64 = 0x9E37_79B9_7F4A_7C15;

/// One step of the rolling hash: `h · 31 + b`, wrapping.
pub open spec fn fp_step(h: u64, b: u8) -> u64 {
    u64_specs::wrapping_add(u64_specs::wrapping_mul(h, 31), b as u64)
}

/// The rolling hash folded over `s`, starting from `h`.
pub open spec fn fp_fold(h: u64, s: Seq<u8>) -> u64
    decreases s.len(),
{
    if s.len() == 0 {
        h
    } else {
        fp_fold(fp_step(h, s[0]), s.drop_first())
    }
}

/// The length spread by [`LENGTH_MIX`], then the rolling hash over up to
/// 16 bytes from the head and up to 16 from the tail (the two overlap on
/// short inputs).
pub open spec fn spec_fingerprint(bytes: Seq<u8>) -> u64 {
    let n = bytes.len();
    let head = bytes.take(if n < 16 { n as int } else { 16 });
    let tail = bytes.skip(if n < 16 { 0 } else { n - 16 });
    fp_fold(u64_specs::wrapping_mul(n as u64, LENGTH_MIX), head + tail)
}

fn fold_range(h0: u64, bytes: &[u8], from: usize, to: usize) -> (h: u64)
    requires
        from <= to <= bytes@.len(),
    ensures
        h == fp_fold(h0, bytes@.subrange(from as int, to as int)),
{
    let mut h = h0;
    let mut i = from;
    while i < to
        invariant
            from <= i <= to <= bytes@.len(),
            fp_fold(h0, bytes@.subrange(from as int, to as int)) == fp_fold(
                h,
                bytes@.subrange(i as int, to as int),
            ),
        decreases to - i,
    {
        assert(bytes@.subrange(i as int, to as int).drop_first() =~= bytes@.subrange(
            i as int + 1,
            to as int,
        ));
        h = h.wrapping_mul(31).wrapping_add(bytes[i] as u64);
        i = i + 1;
    }
    assert(bytes@.subrange(to as int, to as int) =~= Seq::<u8>::empty());
    h
}

/// Folding over a concatenation folds over each part in turn.
proof fn lemma_fp_fold_concat(h: u64, a: Seq<u8>, b: Seq<u8>)
    ensures
        fp_fold(h, a + b) == fp_fold(fp_fold(h, a), b),
    decreases a.len(),
{
    if a.len() > 0 {
        assert((a + b).drop_first() =~= a.drop_first() + b);
        lemma_fp_fold_concat(fp_step(h, a[0]), a.drop_first(), b);
    } else {
        assert(a + b =~= b);
    }
}

/// Content fingerprint of an input (see [`spec_fingerprint`]).
pub fn fingerprint(bytes: &[u8]) -> (h: u64)
    ensures
        h == spec_fingerprint(bytes@),
{
    let n = bytes.len();
    let h0 = (n as u64).wrapping_mul(LENGTH_MIX);
    let head_n = if n < 16 { n } else { 16 };
    let tail_off = if n < 16 { 0 } else { n - 16 };
    let h1 = fold_range(h0, bytes, 0, head_n);
    let h2 = fold_range(h1, bytes, tail_off, n);
    proof {
        lemma_fp_fold_concat(
            h0,
            bytes@.subrange(0, head_n as int),
            bytes@.subrange(tail_off as int, n as int),
        );
        assert(bytes@.subrange(0, head_n as int) =~= bytes@.take(head_n as int));
        assert(bytes@.subrange(tail_off as int, n as int) =~= bytes@.skip(tail_off as int));
    }
    h2
}

/// Two inputs of the same length that agree on their first and last 16
/// bytes have the same fingerprint, whatever lies between.
pub proof fn lemma_fingerprint_reads_only_ends(a: Seq<u8>, b: Seq<u8>)
    requires
        a.len() == b.len(),
        a.take(if a.len() < 16 { a.len() as int } else { 16 }) == b.take(if b.len() < 16 { b.len() as int } else { 16 }),
        a.skip(if a.len() < 16 { 0 } else { a.len() - 16 }) == b.skip(if b.len() < 16 { 0 } else { b.len() - 16 }),
    ensures
        spec_fingerprint(a) == spec_fingerprint(b),
{
}

/// The last decoded photograph, keyed by its input's fingerprint: a
/// one-slot cache, so re-rendering the same input with new options skips
/// decoding.
pub struct PhotoCache {
    entry: Option<(u64, Photograph)>,
}

impl PhotoCache {
    /// The cached entry.
    pub closed spec fn slot(self) -> Option<(u64, Photograph)> {
        self.entry
    }

    /// An empty cache.
    pub fn new() -> (c: Self)
        ensures
            c.slot() is None,
    {
        PhotoCache { entry: None }
    }

    /// The cached photograph when its fingerprint is `fp`.
    pub fn lookup(&self, fp: u64) -> (r: Option<Photograph>)
        ensures
            match self.slot() {
                Some((k, p)) => if k == fp {
                    r matches Some(q) && q.pixels.spec_width() == p.pixels.spec_width()
                        && q.pixels.spec_height() == p.pixels.spec_height()
                        && q.pixels.spec_data() == p.pixels.spec_data()
                        && q.provenance == p.provenance
                } else {
                    r is None
                },
                None => r is None,
            },
    {
        match &self.entry {
            Some((k, p)) => if *k == fp {
                Some(Photograph { pixels: p.pixels.clone(), provenance: p.provenance.clone() })
            } else {
                None
            },
            None => None,
        }
    }

    /// Remember `photo` under `fp`, replacing whatever was cached.
    pub fn store(&mut self, fp: u64, photo: Photograph)
        ensures
            final(self).slot() == Some((fp, photo)),
    {
        self.entry = Some((fp, photo));
    }
}

/// `q` holds the same pixels and provenance as `p`.
pub open spec fn same_photo(q: Photograph, p: Photograph) -> bool {
    &&& q.pixels.spec_width() == p.pixels.spec_width()
    &&& q.pixels.spec_height() == p.pixels.spec_height()
    &&& q.pixels.spec_data() == p.pixels.spec_data()
    &&& q.provenance == p.provenance
}

/// The cache holds a photograph under `fp`.
pub open spec fn holds(c: PhotoCache, fp: u64) -> bool {
    c.slot() matches Some((k, _)) && k == fp
}

/// The photograph of `bytes`: the cached one when the cache holds their
/// fingerprint; else decoded with [`from_bytes`] and, when that succeeds,
/// stored under the fingerprint in place of what was cached.
pub fn cached_or_decode(cache: &mut PhotoCache, bytes: &[u8]) -> (r: Result<Photograph, DecodeError>)
    ensures
        ({
            let fp = spec_fingerprint(bytes@);
            if holds(*old(cache), fp) {
                &&& r matches Ok(q) && same_photo(q, old(cache).slot()->Some_0.1)
                &&& final(cache).slot() == old(cache).slot()
            } else {
                &&& decode_outcome(bytes@, r)
                &&& (r matches Ok(q) ==> (final(cache).slot() matches Some((k, p)) && k == fp
                    && same_photo(p, q)))
                &&& (r is Err ==> final(cache).slot() == old(cache).slot())
            }
        }),
{
    let fp = fingerprint(bytes);
    if let Some(photo) = cache.lookup(fp) {
        return Ok(photo);
    }
    let photo = from_bytes(bytes)?;
    let copy = Photograph { pixels: photo.pixels.clone(), provenance: photo.provenance.clone() };
    cache.store(fp, copy);
    Ok(photo)
}

/// A lookup right after a store under the same fingerprint gives back
/// the stored photograph's pixels; under another fingerprint, nothing.
pub proof fn lemma_store_then_lookup(c: PhotoCache, fp: u64, other: u64, photo: Photograph)
    requires
        c.slot() == Some((fp, photo)),
        other != fp,
    ensures
        c.slot() matches Some((k, p)) && k == fp && p == photo,
        !(c.slot() matches Some((k, _)) && k == other),
{
}

} // verus!
