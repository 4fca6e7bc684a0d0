//! The iteration-count-to-color transfer function.
//!
//! An escape index at or above the iteration bound marks a point presumed in
//! the set and maps to black. Any other index maps to a hue on the HSV wheel
//! at full saturation, derived with integer division so that the hue
//! progression is stepped (banded) rather than smooth, then converted to RGB
//! through the six 60-degree sectors of the wheel. One sector holds its flat
//! channel at 1 instead of 255: the barely-visible green band is a deliberate
//! trait of the transfer function and part of the rendered output.

use vstd::arithmetic::div_mod::{
    lemma_div_is_ordered, lemma_mod_division_less_than_divisor, lemma_multiply_divide_lt,
};
use vstd::prelude::*;

verus! {

/// Hue in [0, 360) for an escape index `i` strictly below the bound. The
/// iteration-proportional term uses integer division, which produces the
/// banded hue progression.
pub open spec fn hue_of(i: u32, max_iteration: u32) -> int
    recommends
        i < max_iteration,
{
    (1440 - (1440 * i) / (max_iteration as int) + 240) % 360
}

/// Channel value for a position `offset` degrees into a 60-degree sector:
/// truncation of `offset/60 * 255`.
pub open spec fn ramp_of(offset: int) -> int
    recommends
        0 <= offset <= 60,
{
    (offset * 255) / 60
}

/// The RGB triple for escape index `i` under bound `max_iteration`: black at
/// or above the bound, otherwise the sector decomposition of `hue_of`.
pub open spec fn color_of(i: u32, max_iteration: u32) -> (u8, u8, u8) {
    if i >= max_iteration {
        (0u8, 0u8, 0u8)
    } else {
        let h = hue_of(i, max_iteration);
        if h < 60 {
            (255u8, ramp_of(h) as u8, 0u8)
        } else if h < 120 {
            (ramp_of(120 - h) as u8, 255u8, 0u8)
        } else if h < 180 {
            (0u8, 1u8, ramp_of(h - 120) as u8)
        } else if h < 240 {
            (0u8, ramp_of(240 - h) as u8, 255u8)
        } else if h < 300 {
            (ramp_of(h - 240) as u8, 0u8, 255u8)
        } else {
            (255u8, 0u8, ramp_of(360 - h) as u8)
        }
    }
}

/// Sector channel ramp: `offset/60` of full brightness, truncated.
fn ramp(offset: u32) -> (v: u8)
    requires
        offset <= 60,
    ensures
        v == ramp_of(offset as int) as u8,
        v as int == ramp_of(offset as int),
{
    let x: u32 = offset * 255;
    let v32: u32 = x / 60;
    proof {
        lemma_div_is_ordered(x as int, 15300, 60);
        assert(v32 <= 255);
    }
    v32 as u8
}

/// Map an escape index to its RGB color, exactly `color_of`.
pub fn index_to_color(i: u32, max_iteration: u32) -> (c: (u8, u8, u8))
    ensures
        c == color_of(i, max_iteration),
{
    if i >= max_iteration {
        return (0, 0, 0);
    }
    let num: u64 = 1440u64 * (i as u64);
    let q: u64 = num / (max_iteration as u64);
    proof {
        lemma_multiply_divide_lt(num as int, max_iteration as int, 1440);
        assert(q < 1440);
    }
    let h64: u64 = (1440 - q + 240) % 360;
    proof {
        lemma_mod_division_less_than_divisor(1440 - q + 240, 360);
        assert(h64 < 360);
    }
    let h: u32 = h64 as u32;
    proof {
        assert(h as int == hue_of(i, max_iteration));
    }
    if h < 60 {
        (255, ramp(h), 0)
    } else if h < 120 {
        (ramp(120 - h), 255, 0)
    } else if h < 180 {
        (0, 1, ramp(h - 120))
    } else if h < 240 {
        (0, ramp(240 - h), 255)
    } else if h < 300 {
        (ramp(h - 240), 0, 255)
    } else {
        (255, 0, ramp(360 - h))
    }
}

/// Law: black is exactly the in-set sentinel. At or above the bound the color
/// is (0,0,0); strictly below the bound every hue sector holds at least one
/// channel away from zero, so the color is never (0,0,0).
pub proof fn lemma_black_iff_at_bound(i: u32, max_iteration: u32)
    ensures
        i >= max_iteration ==> color_of(i, max_iteration) == (0u8, 0u8, 0u8),
        i < max_iteration ==> color_of(i, max_iteration) != (0u8, 0u8, 0u8),
{
}

} // verus!
