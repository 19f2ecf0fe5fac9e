use vstd::prelude::*;

use crate::geometry::{screen_to_world, screen_to_world_coords, Point, COORD_LIMIT};
use crate::movement::{moved, player_movement, Keys};
use crate::shot::{
    advance_bullet, fire_edge, held_after, rising, shot_velocity, shot_velocity_spec, within,
    Bullet, BULLET_SPEED,
};
use crate::wrap::{lemma_wrap_keeps_range, wrap_position, wrapped};

verus! {

/// What the host engine saw during one frame.
pub struct FrameInput {
    /// Time since the previous frame, in milliseconds.
    pub dt_ms: u32,
    pub keys: Keys,
    /// Last pointer position of the frame, in screen units.
    pub pointer: Point,
    /// Fire button events of the frame in order: `true` for a press.
    pub button_events: Vec<bool>,
}

/// Why a frame was not applied.
#[derive(Clone, Copy, Debug, PartialEq, Eq, Structural)]
pub enum FrameError {
    /// The pointer, the player or a projectile would leave the representable world.
    OutOfRange,
}

/// The state of a game: one player, the projectiles fired so far, the fire
/// button's state, and the window size in pixels.
pub struct Game {
    pub player: Point,
    pub bullets: Vec<Bullet>,
    pub fire_held: bool,
    pub width: u32,
    pub height: u32,
}

pub open spec fn bullet_wf(b: Bullet) -> bool {
    b.position.in_range() && within(b.velocity, BULLET_SPEED as int)
}

pub open spec fn wrapped_bullet(b: Bullet, width: u32, height: u32) -> Bullet {
    Bullet { position: wrapped(b.position, width, height), velocity: b.velocity }
}

/// The projectile that a shot from `from` at the screen point `pointer` creates.
pub open spec fn new_shot(from: Point, width: u32, height: u32, pointer: Point) -> Bullet {
    Bullet {
        position: from,
        velocity: shot_velocity_spec(from, screen_to_world(width, height, pointer)),
    }
}

/// A projectile, `dt_ms` milliseconds later, stays in the representable world.
pub open spec fn lands_in_range(b: Bullet, dt_ms: u32) -> bool {
    -COORD_LIMIT <= b.position.x + b.velocity.x * dt_ms <= COORD_LIMIT && -COORD_LIMIT
        <= b.position.y + b.velocity.y * dt_ms <= COORD_LIMIT
}

pub open spec fn advanced(b: Bullet, dt_ms: u32) -> Bullet {
    Bullet {
        position: Point {
            x: (b.position.x + b.velocity.x * dt_ms) as i64,
            y: (b.position.y + b.velocity.y * dt_ms) as i64,
        },
        velocity: b.velocity,
    }
}

impl Game {
    pub open spec fn wf(&self) -> bool {
        &&& self.player.in_range()
        &&& forall|i: int| 0 <= i < self.bullets@.len() ==> bullet_wf(#[trigger] self.bullets@[i])
    }

    /// The player's position after this frame's move and wrap.
    pub open spec fn next_player(&self, input: &FrameInput) -> Point {
        wrapped(moved(self.player, input.keys, input.dt_ms), self.width, self.height)
    }

    /// The projectiles of this frame before they move: the old ones wrapped,
    /// then the new one, where the fire button went down.
    pub open spec fn pending_bullets(&self, input: &FrameInput) -> Seq<Bullet> {
        let kept = self.bullets@.map_values(|b: Bullet| wrapped_bullet(b, self.width, self.height));
        if rising(self.fire_held, input.button_events@) {
            kept.push(new_shot(self.next_player(input), self.width, self.height, input.pointer))
        } else {
            kept
        }
    }

    /// The frame keeps every position in the representable world.
    pub open spec fn frame_fits(&self, input: &FrameInput) -> bool {
        &&& within(input.pointer, COORD_LIMIT as int)
        &&& self.next_player(input).in_range()
        &&& forall|i: int|
            0 <= i < self.pending_bullets(input).len() ==> lands_in_range(
                #[trigger] self.pending_bullets(input)[i],
                input.dt_ms,
            )
    }

    /// A frame adds one projectile when the fire button went down during it,
    /// and none otherwise, however many presses it held.
    pub proof fn lemma_one_shot_per_frame(&self, input: &FrameInput)
        ensures
            self.pending_bullets(input).len() == self.bullets@.len() + if rising(
                self.fire_held,
                input.button_events@,
            ) {
                1int
            } else {
                0int
            },
    {
    }

    /// A game in a window of `width` by `height` pixels, with the player at the
    /// window's centre and no projectile.
    pub fn new(width: u32, height: u32) -> (r: Game)
        ensures
            r.wf(),
            r.player == (Point { x: 0, y: 0 }),
            r.bullets@.len() == 0,
            !r.fire_held,
            r.width == width,
            r.height == height,
    {
        Game { player: Point { x: 0, y: 0 }, bullets: Vec::new(), fire_held: false, width, height }
    }

    /// The number of shots fired so far.
    pub fn shots(&self) -> (r: usize)
        ensures
            r == self.bullets@.len(),
    {
        self.bullets.len()
    }

    /// Follows a change of the window's size.
    pub fn resize(&mut self, width: u32, height: u32)
        ensures
            final(self).width == width,
            final(self).height == height,
            final(self).player == old(self).player,
            final(self).bullets@ == old(self).bullets@,
            final(self).fire_held == old(self).fire_held,
    {
        self.width = width;
        self.height = height;
    }

    /// Runs one frame: moves and wraps the player, wraps the projectiles,
    /// fires on a rising edge of the fire button, then moves the projectiles.
    /// Where a position would leave the representable world, nothing changes
    /// and the frame is refused.
    pub fn frame(&mut self, input: &FrameInput) -> (r: Result<(), FrameError>)
        requires
            old(self).wf(),
        ensures
            final(self).wf(),
            r is Ok <==> old(self).frame_fits(input),
            r is Ok ==> final(self).player == old(self).next_player(input),
            r is Ok ==> final(self).bullets@ == old(self).pending_bullets(input).map_values(
                |b: Bullet| advanced(b, input.dt_ms),
            ),
            r is Ok ==> final(self).fire_held == held_after(
                old(self).fire_held,
                input.button_events@,
            ),
            r is Ok ==> final(self).bullets@.len() == old(self).bullets@.len() + if rising(
                old(self).fire_held,
                input.button_events@,
            ) {
                1int
            } else {
                0int
            },
            r is Err ==> final(self).player == old(self).player,
            r is Err ==> final(self).bullets@ == old(self).bullets@,
            r is Err ==> final(self).fire_held == old(self).fire_held,
            final(self).width == old(self).width,
            final(self).height == old(self).height,
    {
        let w = self.width;
        let h = self.height;
        let dt = input.dt_ms;
        let ptr = input.pointer;
        if !(-COORD_LIMIT <= ptr.x && ptr.x <= COORD_LIMIT && -COORD_LIMIT <= ptr.y && ptr.y
            <= COORD_LIMIT) {
            return Err(FrameError::OutOfRange);
        }
        let moved_to = player_movement(self.player, input.keys, dt);
        let p = wrap_position(moved_to, w, h);
        if !(-COORD_LIMIT <= p.x && p.x <= COORD_LIMIT && -COORD_LIMIT <= p.y && p.y
            <= COORD_LIMIT) {
            return Err(FrameError::OutOfRange);
        }
        let (fired, held) = fire_edge(self.fire_held, &input.button_events);
        let ghost pending = self.pending_bullets(input);
        let ghost kept = self.bullets@.map_values(|b: Bullet| wrapped_bullet(b, w, h));
        let mut out: Vec<Bullet> = Vec::new();
        let mut i: usize = 0;
        while i < self.bullets.len()
            invariant
                *self == *old(self),
                dt == input.dt_ms,
                self.wf(),
                w == self.width,
                h == self.height,
                i <= self.bullets@.len(),
                kept == self.bullets@.map_values(|b: Bullet| wrapped_bullet(b, w, h)),
                pending == self.pending_bullets(input),
                out@.len() == i,
                forall|j: int| 0 <= j < i ==> out@[j] == advanced(#[trigger] kept[j], dt),
                forall|j: int| 0 <= j < i ==> lands_in_range(#[trigger] kept[j], dt),
                forall|j: int| 0 <= j < i ==> bullet_wf(#[trigger] out@[j]),
            decreases self.bullets@.len() - i,
        {
            let b = self.bullets[i];
            proof {
                assert(bullet_wf(self.bullets@[i as int]));
                lemma_wrap_keeps_range(b.position, w, h);
                assert(pending[i as int] == kept[i as int]);
            }
            let wb = Bullet { position: wrap_position(b.position, w, h), velocity: b.velocity };
            let nb = advance_bullet(wb, dt);
            assert(wb == kept[i as int]);
            if !(-COORD_LIMIT <= nb.position.x && nb.position.x <= COORD_LIMIT && -COORD_LIMIT
                <= nb.position.y && nb.position.y <= COORD_LIMIT) {
                assert(!lands_in_range(pending[i as int], dt));
                return Err(FrameError::OutOfRange);
            }
            out.push(nb);
            i = i + 1;
        }
        if fired {
            let target = screen_to_world_coords(w, h, ptr);
            let v = shot_velocity(p, target);
            let nb = advance_bullet(Bullet { position: p, velocity: v }, dt);
            proof {
                assert(pending[kept.len() as int] == new_shot(p, w, h, ptr));
            }
            if !(-COORD_LIMIT <= nb.position.x && nb.position.x <= COORD_LIMIT && -COORD_LIMIT
                <= nb.position.y && nb.position.y <= COORD_LIMIT) {
                assert(!lands_in_range(pending[kept.len() as int], dt));
                return Err(FrameError::OutOfRange);
            }
            out.push(nb);
        }
        proof {
            assert(out@ =~= pending.map_values(|b: Bullet| advanced(b, dt)));
        }
        self.player = p;
        self.bullets = out;
        self.fire_held = held;
        Ok(())
    }
}

} // verus!
