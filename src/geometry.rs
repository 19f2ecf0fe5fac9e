use vstd::prelude::*;

verus! {

/// Number of world units in one pixel.
pub const UNITS_PER_PIXEL: i64 = 1000;

/// Largest coordinate magnitude of a well-formed world position.
pub const COORD_LIMIT: i64 = 0x4_0000_0000_0000;

/// A point (or a vector) of the plane, in milli-pixels.
#[derive(Clone, Copy, Debug, PartialEq, Eq, Structural)]
pub struct Point {
    pub x: i64,
    pub y: i64,
}

impl Point {
    pub open spec fn in_range(self) -> bool {
        -COORD_LIMIT <= self.x <= COORD_LIMIT && -COORD_LIMIT <= self.y <= COORD_LIMIT
    }
}

/// Half of a window extent of `pixels` pixels, in world units.
pub open spec fn half_extent(pixels: u32) -> int {
    pixels * (UNITS_PER_PIXEL / 2)
}

/// A window extent of `pixels` pixels, in world units.
pub open spec fn full_extent(pixels: u32) -> int {
    pixels * UNITS_PER_PIXEL
}

pub open spec fn world_to_screen(width: u32, height: u32, p: Point) -> Point {
    Point { x: (p.x + half_extent(width)) as i64, y: (p.y + half_extent(height)) as i64 }
}

pub open spec fn screen_to_world(width: u32, height: u32, p: Point) -> Point {
    Point { x: (p.x - half_extent(width)) as i64, y: (p.y - half_extent(height)) as i64 }
}

/// The screen point `p` can be converted to world space without overflow.
pub open spec fn screen_convertible(width: u32, height: u32, p: Point) -> bool {
    p.x - half_extent(width) >= i64::MIN && p.y - half_extent(height) >= i64::MIN
}

/// The world point `p` can be converted to screen space without overflow.
pub open spec fn world_convertible(width: u32, height: u32, p: Point) -> bool {
    p.x + half_extent(width) <= i64::MAX && p.y + half_extent(height) <= i64::MAX
}

pub fn half_extent_of(pixels: u32) -> (r: i64)
    ensures
        r == half_extent(pixels),
        0 <= r <= 0x400_0000_0000,
{
    pixels as i64 * (UNITS_PER_PIXEL / 2)
}

pub fn full_extent_of(pixels: u32) -> (r: i64)
    ensures
        r == full_extent(pixels),
        r == 2 * half_extent(pixels),
        0 <= r <= 0x800_0000_0000,
{
    proof {
        assert(pixels * 1000 == 2 * (pixels * 500)) by (nonlinear_arith);
    }
    pixels as i64 * UNITS_PER_PIXEL
}

/// Moves a world point, whose origin is the window centre, into screen space,
/// whose origin is the window's lower left corner.
pub fn world_to_screen_coords(screen_width: u32, screen_height: u32, point: Point) -> (r: Point)
    requires
        world_convertible(screen_width, screen_height, point),
    ensures
        r == world_to_screen(screen_width, screen_height, point),
        r.x == point.x + half_extent(screen_width),
        r.y == point.y + half_extent(screen_height),
{
    Point {
        x: point.x + half_extent_of(screen_width),
        y: point.y + half_extent_of(screen_height),
    }
}

/// Moves a screen point back into world space.
pub fn screen_to_world_coords(screen_width: u32, screen_height: u32, point: Point) -> (r: Point)
    requires
        screen_convertible(screen_width, screen_height, point),
    ensures
        r == screen_to_world(screen_width, screen_height, point),
        r.x == point.x - half_extent(screen_width),
        r.y == point.y - half_extent(screen_height),
{
    Point {
        x: point.x - half_extent_of(screen_width),
        y: point.y - half_extent_of(screen_height),
    }
}

/// Converting a world point to screen space and back gives the point itself.
pub proof fn lemma_screen_world_round_trip(width: u32, height: u32, p: Point)
    requires
        world_convertible(width, height, p),
    ensures
        screen_convertible(width, height, world_to_screen(width, height, p)),
        screen_to_world(width, height, world_to_screen(width, height, p)) == p,
{
}

} // verus!
