use vstd::prelude::*;

verus! {

use crate::classify::lemma_mul_bound;

/// The density of the display this build targets, in dots per inch.
pub const DISPLAY_DPI: i32 = 160;

/// Scales a length given in pixels at the 300 dots-per-inch reference
/// density to the given density, rounding down.
pub fn scale_by_dpi(x: i32, dpi: i32) -> (r: i32)
    requires
        0 <= x <= 1000000,
        0 <= dpi <= 1200,
    ensures
        r == x * dpi / 300,
        0 <= r <= 4 * x,
{
    proof {
        lemma_mul_bound(x as int, dpi as int, 1000000, 1200);
        assert(0 <= x * dpi / 300 <= 4 * x) by (nonlinear_arith)
            requires
                0 <= x <= 1000000,
                0 <= dpi <= 1200,
        ;
    }
    x * dpi / 300
}

/// Converts a length in millimeters to pixels at the given density,
/// rounding down.
pub fn mm_to_px(mm: i32, dpi: i32) -> (r: i32)
    requires
        0 <= mm <= 10000,
        0 <= dpi <= 1200,
    ensures
        r == mm * dpi * 10 / 254,
        0 <= r <= 48 * mm,
{
    proof {
        lemma_mul_bound(mm as int, dpi as int, 10000, 1200);
        assert(0 <= mm * dpi * 10 / 254 <= 48 * mm) by (nonlinear_arith)
            requires
                0 <= mm <= 10000,
                0 <= dpi <= 1200,
        ;
    }
    mm * dpi * 10 / 254
}

} // verus!
