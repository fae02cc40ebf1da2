//! Mapping between the fixed logical viewport that model-facing coordinates
//! use and the physical display's pixel space.

use vstd::prelude::*;
use vstd::arithmetic::div_mod::lemma_basic_div;
use vstd::arithmetic::div_mod::lemma_div_is_ordered;
use vstd::arithmetic::div_mod::lemma_div_pos_is_pos;
use vstd::arithmetic::div_mod::lemma_hoist_over_denominator;
use vstd::arithmetic::mul::lemma_mul_inequality;
use vstd::arithmetic::mul::lemma_mul_nonnegative;
use vstd::arithmetic::mul::lemma_mul_upper_bound;

verus! {

/// Width of the fixed logical viewport in which all incoming coordinates
/// are expressed.
pub const LOGICAL_WIDTH: u32 = 1280;

/// Height of the fixed logical viewport.
pub const LOGICAL_HEIGHT: u32 = 720;

/// A coordinate clamped into `[0, limit - 1]`.
pub open spec fn clamp_coord(x: int, limit: int) -> int {
    if x < 0 {
        0
    } else if x > limit - 1 {
        limit - 1
    } else {
        x
    }
}

/// One logical coordinate mapped onto a display axis of `size` pixels:
/// clamp into the logical range, then round `x * size / limit` half away
/// from zero.  Every quantity is nonnegative, so rounding half away from
/// zero is rounding half up, which adding `limit / 2` before a floor
/// division computes exactly (the limit is even).
pub open spec fn scale_coord(x: int, limit: int, size: int) -> int {
    (clamp_coord(x, limit) * size + limit / 2) / limit
}

/// A scaled coordinate never escapes the display: it lands in `[0, size]`.
pub proof fn lemma_scale_coord_bounds(x: int, limit: int, size: int)
    requires
        2 <= limit,
        1 <= size,
    ensures
        0 <= scale_coord(x, limit, size) <= size,
{
    let c = clamp_coord(x, limit);
    let num = c * size + limit / 2;
    lemma_mul_nonnegative(c, size);
    lemma_div_pos_is_pos(num, limit);
    lemma_mul_inequality(c, limit - 1, size);
    assert((limit - 1) * size == limit * size - size) by (nonlinear_arith);
    assert(num <= limit - 1 + size * limit);
    lemma_div_is_ordered(num, limit - 1 + size * limit, limit);
    lemma_hoist_over_denominator(limit - 1, size, limit as nat);
    lemma_basic_div(limit - 1, limit);
}

/// Scaling is a function of its arguments alone: two results that each
/// satisfy the scaling equations for the same inputs are the same point.
pub proof fn lemma_scale_deterministic(
    p1: (u32, u32),
    p2: (u32, u32),
    x: i64,
    y: i64,
    width: u32,
    height: u32,
)
    requires
        p1.0 == scale_coord(x as int, LOGICAL_WIDTH as int, width as int),
        p1.1 == scale_coord(y as int, LOGICAL_HEIGHT as int, height as int),
        p2.0 == scale_coord(x as int, LOGICAL_WIDTH as int, width as int),
        p2.1 == scale_coord(y as int, LOGICAL_HEIGHT as int, height as int),
    ensures
        p1 == p2,
{
}

/// An out-of-range coordinate behaves exactly as its clamped value: below
/// the range it scales as 0 does, above it as `limit - 1` does.
pub proof fn lemma_scale_clamps(x: int, limit: int, size: int)
    requires
        2 <= limit,
    ensures
        x < 0 ==> scale_coord(x, limit, size) == scale_coord(0, limit, size),
        x > limit - 1 ==> scale_coord(x, limit, size) == scale_coord(limit - 1, limit, size),
{
}

fn scale_one(x: i64, limit: u32, size: u32) -> (r: u32)
    requires
        2 <= limit,
        1 <= size,
    ensures
        r == scale_coord(x as int, limit as int, size as int),
        r <= size,
{
    let clamped: u64 = if x < 0 {
        0
    } else if x > (limit - 1) as i64 {
        (limit - 1) as u64
    } else {
        x as u64
    };
    assert(clamped == clamp_coord(x as int, limit as int));
    proof {
        lemma_mul_upper_bound(clamped as int, 0xffff_fffe, size as int, 0xffff_ffff);
        lemma_scale_coord_bounds(x as int, limit as int, size as int);
    }
    let num: u64 = clamped * (size as u64) + (limit as u64) / 2;
    let q: u64 = num / (limit as u64);
    q as u32
}

/// Maps a logical point onto a physical display of `width x height`
/// pixels.  Each coordinate is clamped into the logical viewport and then
/// scaled, so the result always lies within the display.
pub fn scale_point(x: i64, y: i64, width: u32, height: u32) -> (r: (u32, u32))
    requires
        1 <= width,
        1 <= height,
    ensures
        r.0 == scale_coord(x as int, LOGICAL_WIDTH as int, width as int),
        r.1 == scale_coord(y as int, LOGICAL_HEIGHT as int, height as int),
        r.0 <= width,
        r.1 <= height,
{
    let px = scale_one(x, LOGICAL_WIDTH, width);
    let py = scale_one(y, LOGICAL_HEIGHT, height);
    (px, py)
}

} // verus!
