use vstd::prelude::*;

use crate::geometry::{full_extent, full_extent_of, half_extent, half_extent_of, Point};

verus! {

/// One axis of the wrap: a coordinate past one edge is moved by one window
/// extent towards the other edge. A single step, not a modulo.
pub open spec fn wrap_axis(c: int, half: int, full: int) -> int {
    if c > half {
        c - full
    } else if c < -half {
        c + full
    } else {
        c
    }
}

pub open spec fn wrapped(p: Point, width: u32, height: u32) -> Point {
    Point {
        x: wrap_axis(p.x as int, half_extent(width), full_extent(width)) as i64,
        y: wrap_axis(p.y as int, half_extent(height), full_extent(height)) as i64,
    }
}

fn wrap_coordinate(c: i64, half: i64, full: i64) -> (r: i64)
    requires
        0 <= half,
        full == 2 * half,
        full <= 0x800_0000_0000,
    ensures
        r == wrap_axis(c as int, half as int, full as int),
{
    if c > half {
        c - full
    } else if c < -half {
        c + full
    } else {
        c
    }
}

/// Teleports a position that left the window, centred on the origin, to the
/// opposite edge.
pub fn wrap_position(position: Point, screen_width: u32, screen_height: u32) -> (r: Point)
    ensures
        r == wrapped(position, screen_width, screen_height),
{
    Point {
        x: wrap_coordinate(position.x, half_extent_of(screen_width), full_extent_of(screen_width)),
        y: wrap_coordinate(
            position.y,
            half_extent_of(screen_height),
            full_extent_of(screen_height),
        ),
    }
}

/// A position at most one window extent away from the centre on an axis is
/// brought inside the window on that axis by one wrap.
pub proof fn lemma_wrap_lands_inside(p: Point, width: u32, height: u32)
    ensures
        -full_extent(width) <= p.x <= full_extent(width) ==> -half_extent(width) <= wrapped(
            p,
            width,
            height,
        ).x <= half_extent(width),
        -full_extent(height) <= p.y <= full_extent(height) ==> -half_extent(height) <= wrapped(
            p,
            width,
            height,
        ).y <= half_extent(height),
{
    assert(width * 1000 == 2 * (width * 500)) by (nonlinear_arith);
    assert(height * 1000 == 2 * (height * 500)) by (nonlinear_arith);
}

/// Wrapping keeps a well-formed position well-formed.
pub proof fn lemma_wrap_keeps_range(p: Point, width: u32, height: u32)
    requires
        p.in_range(),
    ensures
        wrapped(p, width, height).in_range(),
{
    assert(width * 1000 == 2 * (width * 500) && width * 500 <= 0x400_0000_0000) by (nonlinear_arith);
    assert(height * 1000 == 2 * (height * 500) && height * 500 <= 0x400_0000_0000) by (nonlinear_arith);
}

} // verus!
