//! The pure parts of the HEIC path: repacking a strided RGBA plane and
//! unwrapping the EXIF item HEIF stores.

use vstd::prelude::*;
use crate::exif::{raw_outcome, read_raw, ExifReadOutcome};

verus! {

/// HEIF prefixes its EXIF item with a 4-byte big-endian offset; the TIFF
/// data follows. `None` when the blob is too short to hold the prefix.
pub fn strip_heif_exif_prefix(blob: &[u8]) -> (r: Option<&[u8]>)
    ensures
        blob@.len() < 4 ==> r is None,
        blob@.len() >= 4 ==> (r matches Some(s) && s@ == blob@.subrange(4, blob@.len() as int)),
{
    if blob.len() < 4 {
        return None;
    }
    Some(vstd::slice::slice_subrange(blob, 4, blob.len()))
}

/// Read the EXIF a HEIF EXIF item holds; an item too short for its prefix
/// holds none.
pub fn exif_from_heif_item(item: &[u8]) -> (r: ExifReadOutcome)
    ensures
        item@.len() < 4 ==> r is Absent,
        item@.len() >= 4 ==> r == raw_outcome(item@.subrange(4, item@.len() as int)),
{
    match strip_heif_exif_prefix(item) {
        Some(tiff) => read_raw(tiff),
        None => ExifReadOutcome::Absent,
    }
}

/// Bytes in one packed RGBA8 row.
pub fn rgba_row_len(width: u32) -> (n: usize)
    requires
        width * 4 <= usize::MAX,
    ensures
        n == width * 4,
{
    (width as usize) * 4
}

/// How many whole rows a plane of `len` bytes holds, rows starting
/// `stride` bytes apart and `row` bytes long, up to `height`: the copy
/// stops at the first row that runs past the end.
pub open spec fn rows_available(len: int, stride: int, row: int, height: int, y: int) -> int
    decreases height - y,
{
    if y >= height || y * stride + row > len {
        y
    } else {
        rows_available(len, stride, row, height, y + 1)
    }
}

proof fn lemma_rows_available(len: int, stride: int, row: int, height: int, y: int)
    requires
        0 <= y <= height,
    ensures
        y <= rows_available(len, stride, row, height, y) <= height,
    decreases height - y,
{
    if y < height && y * stride + row <= len {
        lemma_rows_available(len, stride, row, height, y + 1);
    }
}

/// Byte `i` of row `y` of the packed copy equals byte `i` of row `y` of
/// the strided source.
pub open spec fn row_copied(out: Seq<u8>, data: Seq<u8>, stride: int, row: int, y: int, i: int) -> bool {
    out[y * row + i] == data[y * stride + i]
}

/// Copy a possibly strided RGBA8 plane into a packed buffer of
/// `width · 4`-byte rows; a source too short for all `height` rows yields
/// only the rows it holds.
pub fn copy_rgba_with_stride(data: &[u8], stride: usize, width: u32, height: u32) -> (out: Vec<u8>)
    requires
        width * 4 * height <= usize::MAX,
        height * stride + width * 4 <= usize::MAX,
    ensures
        ({
            let row = width * 4;
            let k = rows_available(data@.len() as int, stride as int, row, height as int, 0);
            &&& out@.len() == k * row
            &&& forall|y: int, i: int|
                0 <= y < k && 0 <= i < row ==> #[trigger] row_copied(
                    out@,
                    data@,
                    stride as int,
                    row,
                    y,
                    i,
                )
        }),
{
    let row_bytes = rgba_row_len(width);
    let ghost len = data@.len() as int;
    let ghost row = row_bytes as int;
    proof {
        lemma_rows_available(len, stride as int, row, height as int, 0);
    }
    let mut out: Vec<u8> = Vec::new();
    let mut y: usize = 0;
    while y < height as usize
        invariant
            y <= height,
            row == width * 4,
            row_bytes == row,
            len == data@.len(),
            height * stride + width * 4 <= usize::MAX,
            rows_available(len, stride as int, row, height as int, 0) == rows_available(
                len,
                stride as int,
                row,
                height as int,
                y as int,
            ),
            out@.len() == y * row,
            forall|yy: int, i: int|
                0 <= yy < y && 0 <= i < row ==> #[trigger] row_copied(
                    out@,
                    data@,
                    stride as int,
                    row,
                    yy,
                    i,
                ),
        decreases height - y,
    {
        assert(y * stride <= height * stride) by (nonlinear_arith)
            requires
                y <= height,
                stride >= 0,
        ;
        let start = y * stride;
        let end = start + row_bytes;
        if end > data.len() {
            return out;
        }
        let ghost before = out@;
        let mut j: usize = start;
        while j < end
            invariant
                start <= j <= end <= data@.len(),
                start == y * stride,
                end == start + row,
                out@.len() == y * row + (j - start),
                out@.subrange(0, y * row) == before.subrange(0, y * row),
                before.len() == y * row,
                forall|i: int|
                    0 <= i < j - start ==> #[trigger] row_copied(
                        out@,
                        data@,
                        stride as int,
                        row,
                        y as int,
                        i,
                    ),
            decreases end - j,
        {
            let ghost prev = out@;
            out.push(data[j]);
            proof {
                assert forall|i: int| 0 <= i < j + 1 - start implies #[trigger] row_copied(
                    out@,
                    data@,
                    stride as int,
                    row,
                    y as int,
                    i,
                ) by {
                    if i < j - start {
                        assert(row_copied(prev, data@, stride as int, row, y as int, i));
                        assert(out@[y * row + i] == prev[y * row + i]);
                    } else {
                        assert(y * row + i == prev.len());
                    }
                }
                assert(out@.subrange(0, y * row) =~= prev.subrange(0, y * row));
            }
            j = j + 1;
        }
        assert forall|yy: int, i: int| 0 <= yy < y + 1 && 0 <= i < row implies #[trigger] row_copied(
            out@,
            data@,
            stride as int,
            row,
            yy,
            i,
        ) by {
            if yy < y {
                assert(yy * row + i < y * row) by (nonlinear_arith)
                    requires
                        0 <= yy < y,
                        0 <= i < row,
                ;
                assert(out@[yy * row + i] == out@.subrange(0, y * row)[yy * row + i]);
                assert(row_copied(before, data@, stride as int, row, yy, i));
            }
        }
        assert(out@.len() == (y + 1) * row) by (nonlinear_arith)
            requires
                out@.len() == y * row + row,
        ;
        y = y + 1;
    }
    out
}

} // verus!
