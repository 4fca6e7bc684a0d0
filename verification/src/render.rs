//! Assembly of the RGBA pixel buffer.
//!
//! The raster's escape indices arrive as one row-major sequence (the
//! floating-point mapping from pixel coordinates to plane points happens
//! outside the verified core). Each index becomes four consecutive bytes:
//! the R, G, B channels of its color, then alpha fixed at 255. The buffer is
//! the one binary artifact the host displays, so its layout is pinned down
//! byte for byte.

use crate::color::{color_of, index_to_color};
use vstd::arithmetic::div_mod::lemma_fundamental_div_mod;
use vstd::prelude::*;

verus! {

/// The four bytes of pixel `k` of `buf` show the color of escape index
/// `indices[k]`, with alpha 255.
pub open spec fn pixel_ok(buf: Seq<u8>, indices: Seq<u32>, max_iteration: u32, k: int) -> bool {
    &&& buf[4 * k] == color_of(indices[k], max_iteration).0
    &&& buf[4 * k + 1] == color_of(indices[k], max_iteration).1
    &&& buf[4 * k + 2] == color_of(indices[k], max_iteration).2
    &&& buf[4 * k + 3] == 255
}

/// Render the row-major escape indices of a width-by-height raster into a
/// fresh RGBA pixel buffer of exactly four bytes per pixel, alpha always 255.
pub fn render_buffer(
    width: u32,
    height: u32,
    indices: &Vec<u32>,
    max_iteration: u32,
) -> (buf: Vec<u8>)
    requires
        indices@.len() == (width as int) * (height as int),
    ensures
        buf@.len() == 4 * ((width as int) * (height as int)),
        buf@.len() == 4 * indices@.len(),
        forall|k: int| 0 <= k < indices@.len() ==> pixel_ok(buf@, indices@, max_iteration, k),
        forall|p: int| 0 <= p < buf@.len() && p % 4 == 3 ==> buf@[p] == 255,
{
    let mut buf: Vec<u8> = Vec::new();
    let mut k: usize = 0;
    while k < indices.len()
        invariant
            k <= indices@.len(),
            buf@.len() == 4 * k,
            forall|j: int| 0 <= j < k ==> pixel_ok(buf@, indices@, max_iteration, j),
        decreases indices@.len() - k,
    {
        let ghost buf0 = buf@;
        let (r, g, b) = index_to_color(indices[k], max_iteration);
        buf.push(r);
        buf.push(g);
        buf.push(b);
        buf.push(255);
        k = k + 1;
        proof {
            assert forall|j: int| 0 <= j < k implies pixel_ok(
                buf@,
                indices@,
                max_iteration,
                j,
            ) by {
                if j < k - 1 {
                    assert(pixel_ok(buf0, indices@, max_iteration, j));
                    assert(buf@[4 * j] == buf0[4 * j]);
                    assert(buf@[4 * j + 1] == buf0[4 * j + 1]);
                    assert(buf@[4 * j + 2] == buf0[4 * j + 2]);
                    assert(buf@[4 * j + 3] == buf0[4 * j + 3]);
                } else {
                    assert(buf@[4 * j] == r);
                    assert(buf@[4 * j + 1] == g);
                    assert(buf@[4 * j + 2] == b);
                    assert(buf@[4 * j + 3] == 255);
                }
            }
        }
    }
    proof {
        assert forall|p: int| 0 <= p < buf@.len() && p % 4 == 3 implies buf@[p] == 255 by {
            lemma_fundamental_div_mod(p, 4);
            let j: int = p / 4;
            assert(p == 4 * j + 3);
            assert(0 <= j < indices@.len());
            assert(pixel_ok(buf@, indices@, max_iteration, j));
        }
    }
    buf
}

} // verus!
