use vstd::prelude::*;

use crate::arith::{floor_sqrt, is_floor_sqrt, lemma_root_of, root_of};
use crate::movement::signed;
use crate::geometry::Point;

#[allow(unused_imports)]
use vstd::arithmetic::div_mod::{lemma_div_by_multiple, lemma_div_is_ordered};

verus! {

/// Speed of a projectile, in pixels per second (world units per millisecond).
pub const BULLET_SPEED: u64 = 500;

/// Largest coordinate magnitude that an aim computation accepts.
pub const AIM_LIMIT: i64 = 0x8_0000_0000_0000;

/// A projectile: where it is, and how far it moves per millisecond.
#[derive(Clone, Copy, Debug, PartialEq, Eq, Structural)]
pub struct Bullet {
    pub position: Point,
    pub velocity: Point,
}

pub open spec fn within(p: Point, bound: int) -> bool {
    -bound <= p.x <= bound && -bound <= p.y <= bound
}

/// One component of the vector of length `speed` along a vector with
/// component `d` and squared length `dsq`: `speed * |d| / sqrt(dsq)` rounded
/// down, with the sign of `d`. The zero vector gives zero.
pub open spec fn scaled_component(d: int, dsq: int, speed: int) -> int {
    if dsq == 0 {
        0
    } else {
        signed(d, root_of(speed * speed * (d * d) / dsq))
    }
}

/// The squared distance from `from` to `target`.
pub open spec fn dist_sq(from: Point, target: Point) -> int {
    (target.x - from.x) * (target.x - from.x) + (target.y - from.y) * (target.y - from.y)
}

/// The velocity of a projectile aimed from `from` at `target`.
pub open spec fn shot_velocity_spec(from: Point, target: Point) -> Point {
    Point {
        x: scaled_component(target.x - from.x, dist_sq(from, target), BULLET_SPEED as int) as i64,
        y: scaled_component(target.y - from.y, dist_sq(from, target), BULLET_SPEED as int) as i64,
    }
}

/// The vector from `from` to `target`, whose angle is the facing of a sprite
/// at `from` that looks at `target`.
pub fn aim_direction(from: Point, target: Point) -> (r: Point)
    requires
        within(from, AIM_LIMIT as int),
        within(target, AIM_LIMIT as int),
    ensures
        r.x == target.x - from.x,
        r.y == target.y - from.y,
{
    Point { x: target.x - from.x, y: target.y - from.y }
}

/// Aiming at the point one stands on gives the zero vector, and a projectile
/// fired there gets the zero velocity: the degenerate aim is defined.
pub proof fn lemma_degenerate_aim(from: Point)
    ensures
        shot_velocity_spec(from, from) == (Point { x: 0, y: 0 }),
{
    assert(dist_sq(from, from) == 0);
}

/// `|d|` as an unsigned number.
fn magnitude(d: i64) -> (a: u128)
    ensures
        a == abs_of(d as int),
        a * a == d * d,
{
    let a: u128 = if d < 0 {
        (-(d as i128)) as u128
    } else {
        d as u128
    };
    assert(a * a == d * d) by (nonlinear_arith)
        requires
            a == d || a == -d,
    ;
    a
}

pub open spec fn abs_of(v: int) -> int {
    if v < 0 {
        -v
    } else {
        v
    }
}

fn scale_component(d: i64, dsq: u128) -> (r: i64)
    requires
        -AIM_LIMIT * 2 <= d <= AIM_LIMIT * 2,
        d * d <= dsq,
    ensures
        r == scaled_component(d as int, dsq as int, BULLET_SPEED as int),
        -(BULLET_SPEED as int) <= r <= BULLET_SPEED,
        r * r * dsq <= BULLET_SPEED * BULLET_SPEED * (d * d),
{
    if dsq == 0 {
        assert(BULLET_SPEED * BULLET_SPEED * (d * d) >= 0) by (nonlinear_arith);
        return 0;
    }
    let a = magnitude(d);
    assert(a * a <= 0x100_0000_0000_0000_0000_0000_0000 && 250000 * (a * a)
        <= 0x400_0000_0000_0000_0000_0000_0000_0000) by (nonlinear_arith)
        requires
            a <= 0x10_0000_0000_0000,
    ;
    let num: u128 = 250000 * (a * a);
    let q: u128 = num / dsq;
    proof {
        lemma_div_is_ordered(num as int, 250000 * dsq, dsq as int);
        lemma_div_by_multiple(250000, dsq as int);
        assert(250000 * dsq == 250000int * dsq);
    }
    let root = floor_sqrt(q);
    proof {
        lemma_root_of(q as int, root as int);
        assert(root <= 500) by (nonlinear_arith)
            requires
                root * root <= q,
                q <= 250000,
                root >= 0,
        ;
        assert(q * dsq <= num) by (nonlinear_arith)
            requires
                q == num / dsq,
                dsq > 0,
                num >= 0,
        ;
        assert(root * root * dsq <= num) by (nonlinear_arith)
            requires
                root * root <= q,
                q * dsq <= num,
                dsq > 0,
        ;
    }
    assert(num == BULLET_SPEED * BULLET_SPEED * (d * d));
    let r: i64 = if d < 0 {
        -(root as i64)
    } else {
        root as i64
    };
    assert(r * r == root * root) by (nonlinear_arith)
        requires
            r == root || r == -root,
    ;
    assert((BULLET_SPEED as int) * (BULLET_SPEED as int) * (d * d) / (dsq as int) == q as int);
    assert(root_of((BULLET_SPEED as int) * (BULLET_SPEED as int) * (d * d) / (dsq as int)) == root);
    if d == 0 {
        assert(root == 0) by (nonlinear_arith)
            requires
                root * root <= q,
                q == 0,
                root >= 0,
        ;
    }
    r
}

/// The velocity of a projectile fired from `from` towards `target`: each
/// component is `BULLET_SPEED` times the direction's component, rounded
/// towards zero, so the speed is at most `BULLET_SPEED`; the velocity is
/// zero when the two points coincide.
pub fn shot_velocity(from: Point, target: Point) -> (r: Point)
    requires
        within(from, AIM_LIMIT as int),
        within(target, AIM_LIMIT as int),
    ensures
        r == shot_velocity_spec(from, target),
        within(r, BULLET_SPEED as int),
        r.x * r.x + r.y * r.y <= BULLET_SPEED * BULLET_SPEED,
{
    let dx: i64 = target.x - from.x;
    let dy: i64 = target.y - from.y;
    let ax = magnitude(dx);
    let ay = magnitude(dy);
    assert(ax * ax <= 0x100_0000_0000_0000_0000_0000_0000 && ay * ay
        <= 0x100_0000_0000_0000_0000_0000_0000) by (nonlinear_arith)
        requires
            ax <= 0x10_0000_0000_0000,
            ay <= 0x10_0000_0000_0000,
    ;
    let dsq: u128 = ax * ax + ay * ay;
    assert(dist_sq(from, target) == dsq);
    let vx = scale_component(dx, dsq);
    let vy = scale_component(dy, dsq);
    proof {
        if dsq > 0 {
            assert(vx * vx + vy * vy <= 250000) by (nonlinear_arith)
                requires
                    vx * vx * dsq <= 250000 * (dx * dx),
                    vy * vy * dsq <= 250000 * (dy * dy),
                    dsq == dx * dx + dy * dy,
                    dsq > 0,
            ;
        }
    }
    Point { x: vx, y: vy }
}

/// Where a projectile is after `dt_ms` milliseconds.
pub fn advance_bullet(bullet: Bullet, dt_ms: u32) -> (r: Bullet)
    requires
        bullet.position.in_range(),
        within(bullet.velocity, BULLET_SPEED as int),
    ensures
        r.velocity == bullet.velocity,
        r.position.x == bullet.position.x + bullet.velocity.x * dt_ms,
        r.position.y == bullet.position.y + bullet.velocity.y * dt_ms,
{
    let t: i64 = dt_ms as i64;
    assert(-0x200_0000_0000 <= bullet.velocity.x * t <= 0x200_0000_0000
        && -0x200_0000_0000 <= bullet.velocity.y * t <= 0x200_0000_0000) by (nonlinear_arith)
        requires
            -500 <= bullet.velocity.x <= 500,
            -500 <= bullet.velocity.y <= 500,
            0 <= t <= 0xffff_ffff,
    ;
    Bullet {
        position: Point {
            x: bullet.position.x + bullet.velocity.x * t,
            y: bullet.position.y + bullet.velocity.y * t,
        },
        velocity: bullet.velocity,
    }
}

/// Whether the fire button went down during a frame: some press in `events`
/// (`true` for a press, `false` for a release) found the button up. `held` is
/// the button's state when the frame began.
pub open spec fn rising(held: bool, events: Seq<bool>) -> bool
    decreases events.len(),
{
    if events.len() == 0 {
        false
    } else {
        (events[0] && !held) || rising(events[0], events.drop_first())
    }
}

/// The button's state after the events of a frame.
pub open spec fn held_after(held: bool, events: Seq<bool>) -> bool {
    if events.len() == 0 {
        held
    } else {
        events.last()
    }
}

/// Rising-edge detection of the fire button over one frame: returns whether
/// the button went down during the frame, and whether it is down at its end.
/// However many presses a frame holds, it fires at most once.
pub fn fire_edge(held: bool, events: &Vec<bool>) -> (r: (bool, bool))
    ensures
        r.0 == rising(held, events@),
        r.1 == held_after(held, events@),
{
    let mut level = held;
    let mut fired = false;
    let mut i: usize = 0;
    assert(events@.subrange(0, events.len() as int) =~= events@);
    while i < events.len()
        invariant
            i <= events.len(),
            level == held_after(held, events@.subrange(0, i as int)),
            rising(held, events@) == (fired || rising(level, events@.subrange(i as int, events.len() as int))),
        decreases events.len() - i,
    {
        let e = events[i];
        proof {
            let rest = events@.subrange(i as int, events.len() as int);
            assert(rest.drop_first() =~= events@.subrange(i + 1, events.len() as int));
            assert(events@.subrange(0, i + 1).last() == e);
        }
        if e && !level {
            fired = true;
        }
        level = e;
        i = i + 1;
    }
    proof {
        assert(events@.subrange(0, i as int) =~= events@);
    }
    (fired, level)
}

} // verus!
