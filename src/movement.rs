use vstd::prelude::*;

use crate::arith::{floor_sqrt, is_floor_sqrt};
use crate::geometry::Point;

verus! {

/// Speed of the player, in pixels per second (world units per millisecond).
pub const PLAYER_SPEED: u64 = 400;

/// The state of the four direction keys during one frame.
#[derive(Clone, Copy, Debug, PartialEq, Eq, Structural)]
pub struct Keys {
    pub up: bool,
    pub down: bool,
    pub left: bool,
    pub right: bool,
}

/// One axis of the direction: `+1`, `-1`, or `0` when neither or both keys are held.
pub open spec fn axis(plus: bool, minus: bool) -> int {
    (if plus { 1int } else { 0int }) - (if minus { 1int } else { 0int })
}

pub open spec fn key_dir(keys: Keys) -> Point {
    Point { x: axis(keys.right, keys.left) as i64, y: axis(keys.up, keys.down) as i64 }
}

/// `m` is the leg of a diagonal move of length `dist`: `dist / sqrt(2)`
/// rounded to the nearest unit.
pub open spec fn is_diagonal_leg(dist: int, m: int) -> bool {
    &&& 0 <= m
    &&& m == 0 || (2 * m - 1) * (2 * m - 1) <= 2 * dist * dist
    &&& 2 * dist * dist < (2 * m + 1) * (2 * m + 1)
}

/// `m` is the length of each nonzero leg of a move of length `dist` along
/// `dir`: the whole length along one axis, rounded down on a diagonal.
pub open spec fn is_leg(dir: Point, dist: int, m: int) -> bool {
    if dir.x != 0 && dir.y != 0 {
        is_diagonal_leg(dist, m)
    } else {
        0 <= m && m == dist
    }
}

/// `r` is the move of length `dist` along the unit-or-zero direction `dir`.
pub open spec fn is_step(dir: Point, dist: int, r: Point) -> bool {
    exists|m: int|
        #[trigger] is_leg(dir, dist, m) && r.x == dir.x * m && r.y == dir.y
            * m
}

/// The leg of a diagonal move of length `dist`.
pub open spec fn diagonal_leg_of(dist: int) -> int {
    choose|m: int| is_diagonal_leg(dist, m)
}

/// The move of length `dist` along `dir`.
pub open spec fn step_of(dir: Point, dist: int) -> Point {
    let m = if dir.x != 0 && dir.y != 0 {
        diagonal_leg_of(dist)
    } else {
        dist
    };
    Point { x: signed(dir.x as int, m) as i64, y: signed(dir.y as int, m) as i64 }
}

/// `m` with the sign of `s`.
pub open spec fn signed(s: int, m: int) -> int {
    if s > 0 {
        m
    } else if s < 0 {
        -m
    } else {
        0
    }
}

/// The player's position after a frame of `dt_ms` milliseconds with `keys` held.
pub open spec fn moved(position: Point, keys: Keys, dt_ms: u32) -> Point {
    Point {
        x: (position.x + step_of(key_dir(keys), PLAYER_SPEED * dt_ms).x) as i64,
        y: (position.y + step_of(key_dir(keys), PLAYER_SPEED * dt_ms).y) as i64,
    }
}

/// A diagonal move has one leg per length.
pub proof fn lemma_diagonal_leg_unique(dist: int, m: int)
    requires
        is_diagonal_leg(dist, m),
    ensures
        diagonal_leg_of(dist) == m,
{
    let c = diagonal_leg_of(dist);
    if c < m {
        assert((2 * c + 1) * (2 * c + 1) <= (2 * m - 1) * (2 * m - 1)) by (nonlinear_arith)
            requires
                0 <= c < m,
        ;
    } else if m < c {
        assert((2 * m + 1) * (2 * m + 1) <= (2 * c - 1) * (2 * c - 1)) by (nonlinear_arith)
            requires
                0 <= m < c,
        ;
    }
}

/// The direction that the held keys ask for, one unit or zero on each axis.
pub fn key_direction(keys: Keys) -> (r: Point)
    ensures
        r == key_dir(keys),
{
    let mut x: i64 = 0;
    let mut y: i64 = 0;
    if keys.up {
        y = y + 1;
    }
    if keys.down {
        y = y - 1;
    }
    if keys.left {
        x = x - 1;
    }
    if keys.right {
        x = x + 1;
    }
    Point { x, y }
}

/// The length of each leg of a diagonal move of length `dist`, rounded to the
/// nearest unit.
fn diagonal_leg(dist: u64) -> (m: u64)
    requires
        dist < 0x100_0000_0000_0000,
    ensures
        is_diagonal_leg(dist as int, m as int),
        m <= dist,
{
    let d: u128 = dist as u128;
    assert(2 * d * d < 0x2_0000_0000_0000_0000_0000_0000_0000) by (nonlinear_arith)
        requires
            d < 0x100_0000_0000_0000,
    ;
    let r = floor_sqrt(2 * d * d);
    let m: u64 = (r + 1) / 2;
    proof {
        let n = 2 * dist * dist;
        assert(r * r <= n < (r + 1) * (r + 1));
        assert(m == 0 || (2 * m - 1) * (2 * m - 1) <= n) by (nonlinear_arith)
            requires
                r * r <= n,
                r >= 0,
                2 * m == r + 1 || 2 * m == r,
        ;
        assert(n < (2 * m + 1) * (2 * m + 1)) by (nonlinear_arith)
            requires
                n < (r + 1) * (r + 1),
                r >= 0,
                2 * m == r + 1 || 2 * m == r,
        ;
        assert(m <= dist) by (nonlinear_arith)
            requires
                m == 0 || (2 * m - 1) * (2 * m - 1) <= n,
                n == 2 * dist * dist,
                m >= 0,
                dist >= 0,
        ;
    }
    m
}

/// The move of length `dist` along `dir`: diagonal moves are scaled so that
/// they are as long as moves along one axis.
pub fn direction_step(dir: Point, dist: u64) -> (r: Point)
    requires
        -1 <= dir.x <= 1,
        -1 <= dir.y <= 1,
        dist < 0x100_0000_0000_0000,
    ensures
        r == step_of(dir, dist as int),
        is_step(dir, dist as int, r),
        -dist <= r.x <= dist,
        -dist <= r.y <= dist,
{
    let m: u64 = if dir.x != 0 && dir.y != 0 {
        diagonal_leg(dist)
    } else {
        dist
    };
    let mi: i64 = m as i64;
    let x: i64 = if dir.x > 0 {
        mi
    } else if dir.x < 0 {
        -mi
    } else {
        0
    };
    let y: i64 = if dir.y > 0 {
        mi
    } else if dir.y < 0 {
        -mi
    } else {
        0
    };
    let r = Point { x, y };
    assert(r.x == dir.x * m && r.y == dir.y * m) by (nonlinear_arith)
        requires
            -1 <= dir.x <= 1,
            -1 <= dir.y <= 1,
            dir.x > 0 ==> x == m,
            dir.x < 0 ==> x == -m,
            dir.x == 0 ==> x == 0,
            dir.y > 0 ==> y == m,
            dir.y < 0 ==> y == -m,
            dir.y == 0 ==> y == 0,
            r.x == x,
            r.y == y,
    ;
    assert(is_leg(dir, dist as int, m as int));
    if dir.x != 0 && dir.y != 0 {
        proof {
            lemma_diagonal_leg_unique(dist as int, m as int);
        }
    }
    r
}

/// Where the player stands after one frame of `dt_ms` milliseconds with `keys` held.
pub fn player_movement(position: Point, keys: Keys, dt_ms: u32) -> (r: Point)
    requires
        position.in_range(),
    ensures
        r == moved(position, keys, dt_ms),
        r.x == position.x + step_of(key_dir(keys), PLAYER_SPEED * dt_ms).x,
        r.y == position.y + step_of(key_dir(keys), PLAYER_SPEED * dt_ms).y,
        is_step(
            key_dir(keys),
            PLAYER_SPEED * dt_ms,
            Point { x: (r.x - position.x) as i64, y: (r.y - position.y) as i64 },
        ),
        -0x200_0000_0000 <= r.x - position.x <= 0x200_0000_0000,
        -0x200_0000_0000 <= r.y - position.y <= 0x200_0000_0000,
{
    let dir = key_direction(keys);
    let dist: u64 = PLAYER_SPEED * dt_ms as u64;
    let s = direction_step(dir, dist);

    Point { x: position.x + s.x, y: position.y + s.y }
}

/// Holding both keys of an axis cancels the move along it; holding all four
/// keys stands still.
pub proof fn lemma_opposite_keys_cancel(keys: Keys)
    ensures
        keys.up && keys.down ==> key_dir(keys).y == 0,
        keys.left && keys.right ==> key_dir(keys).x == 0,
        keys.up && keys.down && keys.left && keys.right ==> (key_dir(keys) == Point { x: 0, y: 0 }),
{
}

/// A step of length `dist` along the direction of held keys has the length
/// `dist`: exactly along one axis; on a diagonal both legs are `dist / sqrt(2)`
/// rounded to the nearest unit, so that the squared length differs from
/// `dist * dist` by at most twice a leg.
pub proof fn lemma_step_length(keys: Keys, dist: int, s: Point)
    requires
        dist >= 0,
        key_dir(keys) != (Point { x: 0, y: 0 }),
        is_step(key_dir(keys), dist, s),
    ensures
        key_dir(keys).x == 0 || key_dir(keys).y == 0 ==> s.x * s.x + s.y * s.y == dist * dist,
        key_dir(keys).x != 0 && key_dir(keys).y != 0 ==> {
            &&& abs_int(s.x as int) == abs_int(s.y as int)
            &&& is_diagonal_leg(dist, abs_int(s.x as int))
            &&& dist * dist - 2 * abs_int(s.x as int) <= s.x * s.x + s.y * s.y
            &&& s.x * s.x + s.y * s.y <= dist * dist + 2 * abs_int(s.x as int)
        },
{
    let dir = key_dir(keys);
    let m = choose|m: int| #[trigger] is_leg(dir, dist, m) && s.x == dir.x * m && s.y == dir.y * m;
    let ax = abs_int(s.x as int);
    let ay = abs_int(s.y as int);
    assert(s.x * s.x == ax * ax && s.y * s.y == ay * ay) by (nonlinear_arith)
        requires
            s.x < 0 ==> ax == -s.x,
            s.x >= 0 ==> ax == s.x,
            s.y < 0 ==> ay == -s.y,
            s.y >= 0 ==> ay == s.y,
    ;
    if dir.x != 0 && dir.y != 0 {
        assert(ax == m && ay == m) by (nonlinear_arith)
            requires
                s.x == dir.x * m,
                s.y == dir.y * m,
                dir.x == 1 || dir.x == -1,
                dir.y == 1 || dir.y == -1,
                m >= 0,
                s.x < 0 ==> ax == -s.x,
                s.x >= 0 ==> ax == s.x,
                s.y < 0 ==> ay == -s.y,
                s.y >= 0 ==> ay == s.y,
        ;
        assert(dist * dist - 2 * m <= 2 * m * m <= dist * dist + 2 * m) by (nonlinear_arith)
            requires
                m >= 0,
                dist >= 0,
                m == 0 || (2 * m - 1) * (2 * m - 1) <= 2 * dist * dist,
                2 * dist * dist < (2 * m + 1) * (2 * m + 1),
        ;
        assert(ax * ax + ay * ay == 2 * m * m) by (nonlinear_arith)
            requires
                ax == m,
                ay == m,
        ;
    } else if dir.x != 0 {
        assert(ax == dist && ay == 0) by (nonlinear_arith)
            requires
                s.x == dir.x * m,
                s.y == dir.y * m,
                dir.x == 1 || dir.x == -1,
                dir.y == 0,
                m == dist,
                m >= 0,
                s.x < 0 ==> ax == -s.x,
                s.x >= 0 ==> ax == s.x,
                s.y < 0 ==> ay == -s.y,
                s.y >= 0 ==> ay == s.y,
        ;
        assert(ax * ax + ay * ay == dist * dist) by (nonlinear_arith)
            requires
                ax == dist,
                ay == 0,
        ;
    } else {
        assert(ax == 0 && ay == dist) by (nonlinear_arith)
            requires
                s.x == dir.x * m,
                s.y == dir.y * m,
                dir.y == 1 || dir.y == -1,
                dir.x == 0,
                m == dist,
                m >= 0,
                s.x < 0 ==> ax == -s.x,
                s.x >= 0 ==> ax == s.x,
                s.y < 0 ==> ay == -s.y,
                s.y >= 0 ==> ay == s.y,
        ;
        assert(ax * ax + ay * ay == dist * dist) by (nonlinear_arith)
            requires
                ax == 0,
                ay == dist,
        ;
    }
}

pub open spec fn abs_int(v: int) -> int {
    if v < 0 {
        -v
    } else {
        v
    }
}

} // verus!
