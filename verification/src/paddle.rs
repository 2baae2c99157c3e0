//! A paddle: a fixed-x rectangle that slides vertically inside the playfield.

use vstd::prelude::*;

verus! {

/// Mathematical model of a paddle: its fields as unbounded integers.
pub ghost struct PaddleView {
    pub pos_x: int,
    pub pos_y: int,
    pub vel: int,
    pub score: int,
}

/// A paddle. `pos_x` is fixed at spawn; `pos_y` moves by `vel` each tick,
/// clamped to `[0, playfield_height - 50]` (the paddle is 50 tall).
/// `vel` is a per-tick direction in `{-1, 0, 1}`, set from input each tick.
pub struct Paddle {
    pub pos_x: i32,
    pub pos_y: i32,
    pub vel: i32,
    pub score: i32,
}

impl View for Paddle {
    type V = PaddleView;

    open spec fn view(&self) -> PaddleView {
        PaddleView {
            pos_x: self.pos_x as int,
            pos_y: self.pos_y as int,
            vel: self.vel as int,
            score: self.score as int,
        }
    }
}

/// Where a paddle at `y` ends up after one move by `vel` on a field `height`
/// tall: moving down clamps at `height - 50`, moving up (or standing still)
/// clamps at `0`.
pub open spec fn clamped_y(y: int, vel: int, height: int) -> int {
    if vel > 0 {
        if y + vel >= height - 50 {
            height - 50
        } else {
            y + vel
        }
    } else {
        if y + vel <= 0 {
            0
        } else {
            y + vel
        }
    }
}

impl Paddle {
    /// A fresh paddle at horizontal position `pos_x`, one step below the top,
    /// at rest, with no points yet.
    pub fn new(pos_x: i32) -> (p: Paddle)
        ensures
            p@.pos_x == pos_x as int,
            p@.pos_y == 1,
            p@.vel == 0,
            p@.score == 0,
    {
        Paddle { pos_x, pos_y: 1, vel: 0, score: 0 }
    }

    /// Award one point to this paddle's player.
    pub fn inc_score(&mut self)
        requires
            old(self).score < i32::MAX,
        ensures
            final(self)@.score == old(self)@.score + 1,
            final(self)@.pos_x == old(self)@.pos_x,
            final(self)@.pos_y == old(self)@.pos_y,
            final(self)@.vel == old(self)@.vel,
    {
        self.score = self.score + 1;
    }

    /// One vertical step by the current velocity, clamped so the paddle never
    /// leaves `[0, vh - 50]`.
    pub fn move_paddle(&mut self, vh: u32)
        requires
            50 <= vh <= 0x7fff_ffff,
            -1 <= old(self).vel <= 1,
            0 <= old(self).pos_y as int <= vh as int - 50,
        ensures
            final(self)@.pos_y == clamped_y(old(self)@.pos_y, old(self)@.vel, vh as int),
            0 <= final(self)@.pos_y <= vh as int - 50,
            final(self)@.pos_x == old(self)@.pos_x,
            final(self)@.vel == old(self)@.vel,
            final(self)@.score == old(self)@.score,
    {
        if self.vel > 0 {
            let base = vh as i32 - 50;
            self.pos_y = self.pos_y + self.vel;
            self.pos_y = if self.pos_y >= base {
                base
            } else {
                self.pos_y
            };
        } else {
            self.pos_y = self.pos_y + self.vel;
            self.pos_y = if self.pos_y <= 0 {
                0
            } else {
                self.pos_y
            };
        }
    }
}

} // verus!
