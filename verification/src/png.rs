//! Reading the pixel size out of a PNG stream.
//!
//! The engine only needs the width and height of the captured raster; the
//! pixels themselves stay with the rasteriser outside the library. A PNG
//! stream starts with an eight-byte signature followed by the IHDR chunk,
//! whose first eight data bytes are the width and the height as big-endian
//! 32-bit integers; both must be nonzero and at most `2^31 - 1`.

use vstd::prelude::*;

verus! {

/// Big-endian 32-bit integer at offset `i`.
pub open spec fn spec_be32(d: Seq<u8>, i: int) -> int {
    d[i] * 0x1000000 + d[i + 1] * 0x10000 + d[i + 2] * 0x100 + d[i + 3]
}

/// The pixel size of a PNG stream, or nothing when the header is not a
/// well-formed PNG signature plus IHDR chunk with valid dimensions.
pub open spec fn spec_png_dims(d: Seq<u8>) -> Option<(int, int)> {
    if d.len() >= 24 && d[0] == 137 && d[1] == 80 && d[2] == 78 && d[3] == 71 && d[4] == 13 && d[5]
        == 10 && d[6] == 26 && d[7] == 10 && d[12] == 73 && d[13] == 72 && d[14] == 68 && d[15]
        == 82 {
        let w = spec_be32(d, 16);
        let h = spec_be32(d, 20);
        if 1 <= w <= 0x7fffffff && 1 <= h <= 0x7fffffff {
            Some((w, h))
        } else {
            None
        }
    } else {
        None
    }
}

fn be32(d: &[u8], i: usize) -> (r: i64)
    requires
        i + 4 <= d@.len(),
    ensures
        r == spec_be32(d@, i as int),
        0 <= r <= 0xffffffff,
{
    (d[i] as i64) * 0x1000000 + (d[i + 1] as i64) * 0x10000 + (d[i + 2] as i64) * 0x100 + (d[i + 3]
        as i64)
}

/// Read the width and height of a PNG stream; malformed bytes give nothing.
pub fn png_dims(d: &[u8]) -> (r: Option<(i64, i64)>)
    ensures
        ({
            match (r, spec_png_dims(d@)) {
                (Some(a), Some(b)) => a.0 == b.0 && a.1 == b.1 && 1 <= a.0 <= 0x7fffffff && 1 <= a.1
                    <= 0x7fffffff,
                (None, None) => true,
                _ => false,
            }
        }),
{
    if d.len() < 24 {
        return None;
    }
    if !(d[0] == 137 && d[1] == 80 && d[2] == 78 && d[3] == 71 && d[4] == 13 && d[5] == 10 && d[6]
        == 26 && d[7] == 10) {
        return None;
    }
    if !(d[12] == 73 && d[13] == 72 && d[14] == 68 && d[15] == 82) {
        return None;
    }
    let w = be32(d, 16);
    let h = be32(d, 20);
    if 1 <= w && w <= 0x7fffffff && 1 <= h && h <= 0x7fffffff {
        Some((w, h))
    } else {
        None
    }
}

} // verus!
