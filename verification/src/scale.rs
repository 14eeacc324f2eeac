//! Thumbnail geometry: the size to which a frame is scaled so that it fits a
//! square bounding box without changing its aspect.

use vstd::prelude::*;

verus! {

/// The size of a `width` by `height` frame once it is scaled by the ratio
/// `min(target / width, target / height)`: the longer side becomes `target`,
/// the other side shrinks by the same ratio, rounded down.
pub open spec fn fitted(width: nat, height: nat, target: nat) -> (nat, nat)
    recommends
        width > 0,
        height > 0,
{
    if width >= height {
        (target, height * target / width)
    } else {
        (width * target / height, target)
    }
}

/// The shorter side of a scaled frame, rounded down.
fn shrink(short: u32, long: u32, target: u32) -> (out: u32)
    requires
        0 < long,
        short <= long,
    ensures
        out as nat == (short as nat) * (target as nat) / (long as nat),
        out <= target,
{
    assert((short as u64) * (target as u64) <= 0xFFFF_FFFF * 0xFFFF_FFFF) by (nonlinear_arith)
        requires
            short <= 0xFFFF_FFFF,
            target <= 0xFFFF_FFFF,
    ;
    let product: u64 = (short as u64) * (target as u64);
    let out: u64 = product / (long as u64);
    proof {
        let s = short as int;
        let l = long as int;
        let t = target as int;
        assert(s * t <= l * t) by (nonlinear_arith)
            requires
                s <= l,
                0 <= t,
        ;
        assert((s * t) / l <= t) by (nonlinear_arith)
            requires
                s * t <= l * t,
                0 < l,
                0 <= t,
        ;
    }
    out as u32
}

/// Computes the size of the thumbnail for a frame: `None` for a frame without
/// area, which has no aspect to keep.
pub fn scaled_dimensions(width: u32, height: u32, target: u32) -> (size: Option<(u32, u32)>)
    ensures
        size is None <==> (width == 0 || height == 0),
        size matches Some((w, h)) ==> (w as nat, h as nat) == fitted(width as nat, height as nat, target as nat),
{
    if width == 0 || height == 0 {
        None
    } else if width >= height {
        Some((target, shrink(height, width, target)))
    } else {
        Some((shrink(width, height, target), target))
    }
}

/// A scaled frame fits the bounding box exactly on its longer side and keeps
/// its aspect up to rounding: the cross products of old and new sides differ
/// by less than the longer old side.
pub proof fn scaling_preserves_aspect(width: nat, height: nat, target: nat)
    requires
        width > 0,
        height > 0,
    ensures
        ({
            let (w, h) = fitted(width, height, target);
            &&& w <= target
            &&& h <= target
            &&& (w == target || h == target)
            &&& width >= height ==> 0 <= height * w - h * width < width
            &&& width < height ==> 0 <= width * h - w * height < height
        }),
{
    if width >= height {
        shorter_side_bounds(height, width, target);
    } else {
        shorter_side_bounds(width, height, target);
    }
}

/// The rounded-down shorter side stays inside the box and within one unit of
/// the exact ratio.
proof fn shorter_side_bounds(short: nat, long: nat, target: nat)
    requires
        0 < long,
        short <= long,
    ensures
        short * target / long <= target,
        0 <= short * target - (short * target / long) * long < long,
{
    let p = (short * target) as int;
    let l = long as int;
    let t = target as int;
    let s = short as int;
    assert(p == (p / l) * l + p % l && 0 <= p % l < l) by (nonlinear_arith)
        requires
            0 < l,
    ;
    assert(s * t <= l * t) by (nonlinear_arith)
        requires
            s <= l,
            0 <= t,
    ;
    assert(p / l <= t) by (nonlinear_arith)
        requires
            p <= l * t,
            0 < l,
            0 <= t,
    ;
}

} // verus!
