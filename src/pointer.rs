use vstd::prelude::*;

use crate::geometry::Point;

verus! {

/// The latest pointer position, in screen units.
#[derive(Clone, Copy, Debug, PartialEq, Eq, Structural)]
pub struct MousePos {
    pub pos: Point,
}

impl MousePos {
    /// The pointer before any movement: the screen origin.
    pub fn new() -> (r: MousePos)
        ensures
            r.pos == (Point { x: 0, y: 0 }),
    {
        MousePos { pos: Point { x: 0, y: 0 } }
    }

    /// Takes in the pointer moves of one frame: the last one wins, and
    /// without any the position stays.
    pub fn update(&mut self, moves: &Vec<Point>)
        ensures
            moves@.len() == 0 ==> final(self).pos == old(self).pos,
            moves@.len() > 0 ==> final(self).pos == moves@.last(),
    {
        let mut i: usize = 0;
        while i < moves.len()
            invariant
                i <= moves@.len(),
                i == 0 ==> self.pos == old(self).pos,
                i > 0 ==> self.pos == moves@[i - 1],
            decreases moves@.len() - i,
        {
            self.pos = moves[i];
            i = i + 1;
        }
    }
}

} // verus!
