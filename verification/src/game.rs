//! The match state and its per-tick transition.
//!
//! `App` owns two paddles, the ball, the playfield dimensions and the
//! pressed-key set. One call of [`App::update`] is one tick: input is turned
//! into paddle velocities, the paddles move, the ball moves, wall crossings
//! are resolved against the paddle spans (bounce or score), and reaching five
//! points ends the match. The whole transition is written down once as the
//! spec function [`step`], and `update` is proved to perform exactly it.

use vstd::prelude::*;
use crate::paddle::{Paddle, PaddleView, clamped_y};

verus! {

/// Playfield dimensions, in the game's own logical coordinates.
pub struct Size {
    pub width: u32,
    pub height: u32,
}

/// The keys the game reads: arrow keys for the right paddle, W/S for the
/// left one. Every other key a host might see is ignored before it gets here.
#[derive(Clone, Copy, PartialEq, Eq, Structural, Debug)]
pub enum GameKey {
    Up,
    Down,
    W,
    S,
}

/// Which of the four game keys are currently held down.
#[derive(Clone, Copy, PartialEq, Eq, Structural, Debug)]
pub struct KeySet {
    pub up: bool,
    pub down: bool,
    pub w: bool,
    pub s: bool,
}

/// The player a point or a match goes to.
#[derive(Clone, Copy, PartialEq, Eq, Structural, Debug)]
pub enum Winner {
    Left,
    Right,
}

/// Whether the match is still running. `Finished` is terminal: once entered,
/// `update` changes nothing any more.
#[derive(Clone, Copy, PartialEq, Eq, Structural, Debug)]
pub enum Status {
    Playing,
    Finished(Winner),
}

/// Mathematical model of the whole match state.
pub ghost struct AppView {
    pub keys: KeySet,
    pub width: int,
    pub height: int,
    pub left: PaddleView,
    pub right: PaddleView,
    pub ball_x: int,
    pub ball_y: int,
    pub vel_x: int,
    pub vel_y: int,
    pub status: Status,
}

/// An axis-aligned square to draw: top-left corner and side length.
#[derive(Clone, Copy, PartialEq, Eq, Structural, Debug)]
pub struct DrawRect {
    pub x: i32,
    pub y: i32,
    pub size: i32,
}

/// Everything a renderer needs from the match: the two 50x50 paddle squares
/// and the 10x10 ball square, in playfield coordinates.
#[derive(Clone, Copy, PartialEq, Eq, Structural, Debug)]
pub struct Scene {
    pub left: DrawRect,
    pub right: DrawRect,
    pub ball: DrawRect,
}

/// The match state: both paddles, the ball (top-left corner of a 10x10
/// square, with a unit velocity per axis), the playfield, the pressed keys
/// and the running/finished status.
pub struct App {
    pub keys: KeySet,
    pub width: u32,
    pub height: u32,
    pub player_1: Paddle,
    pub player_2: Paddle,
    pub ball_x: i32,
    pub ball_y: i32,
    pub vel_x: i32,
    pub vel_y: i32,
    pub status: Status,
}

impl View for App {
    type V = AppView;

    open spec fn view(&self) -> AppView {
        AppView {
            keys: self.keys,
            width: self.width as int,
            height: self.height as int,
            left: self.player_1@,
            right: self.player_2@,
            ball_x: self.ball_x as int,
            ball_y: self.ball_y as int,
            vel_x: self.vel_x as int,
            vel_y: self.vel_y as int,
            status: self.status,
        }
    }
}

/// Whether `key` is in the pressed set.
pub open spec fn key_pressed(k: KeySet, key: GameKey) -> bool {
    match key {
        GameKey::Up => k.up,
        GameKey::Down => k.down,
        GameKey::W => k.w,
        GameKey::S => k.s,
    }
}

/// The pressed set with `key` set to `down`.
pub open spec fn with_key(k: KeySet, key: GameKey, down: bool) -> KeySet {
    match key {
        GameKey::Up => KeySet { up: down, ..k },
        GameKey::Down => KeySet { down: down, ..k },
        GameKey::W => KeySet { w: down, ..k },
        GameKey::S => KeySet { s: down, ..k },
    }
}

/// Right paddle direction from the keys: Up wins over Down, neither means
/// standing still.
pub open spec fn right_vel_of(k: KeySet) -> int {
    if k.up {
        -1
    } else if k.down {
        1
    } else {
        0
    }
}

/// Left paddle direction from the keys: W wins over S.
pub open spec fn left_vel_of(k: KeySet) -> int {
    if k.w {
        -1
    } else if k.s {
        1
    } else {
        0
    }
}

/// Input resolution: both paddle velocities set from the pressed keys,
/// everything else untouched.
pub open spec fn with_input(v: AppView) -> AppView {
    AppView {
        left: PaddleView { vel: left_vel_of(v.keys), ..v.left },
        right: PaddleView { vel: right_vel_of(v.keys), ..v.right },
        ..v
    }
}

/// Both paddles moved one clamped step by their velocities.
pub open spec fn with_paddles_moved(v: AppView) -> AppView {
    AppView {
        left: PaddleView { pos_y: clamped_y(v.left.pos_y, v.left.vel, v.height), ..v.left },
        right: PaddleView { pos_y: clamped_y(v.right.pos_y, v.right.vel, v.height), ..v.right },
        ..v
    }
}

/// The hit test: the ball's y against the closed span `[paddle_y, paddle_y + 50]`.
/// Only the ball's own top edge is tested, deliberately: that is the game's
/// collision rule, not full rectangle intersection.
pub open spec fn in_span(ball_y: int, paddle_y: int) -> bool {
    paddle_y <= ball_y <= paddle_y + 50
}

/// The right-wall phase. If the ball has crossed `width - 10`, its horizontal
/// velocity flips; a miss of the right paddle's span then scores for the left
/// player, which either ends the match at five points (the ball stays where
/// it is) or respawns the ball at (256, 171).
pub open spec fn after_right_wall(v: AppView) -> AppView {
    if v.ball_x > v.width - 10 {
        let flipped = AppView { vel_x: -v.vel_x, ..v };
        if !in_span(v.ball_y, v.right.pos_y) {
            let scored = AppView {
                left: PaddleView { score: v.left.score + 1, ..v.left },
                ..flipped
            };
            if scored.left.score >= 5 {
                AppView { status: Status::Finished(Winner::Left), ..scored }
            } else {
                AppView { ball_x: 256, ball_y: 171, ..scored }
            }
        } else {
            flipped
        }
    } else {
        v
    }
}

/// The left-wall phase, the mirror image of [`after_right_wall`]: crossing
/// below `x = 1` flips the ball, a miss of the left paddle's span scores for
/// the right player.
pub open spec fn after_left_wall(v: AppView) -> AppView {
    if v.ball_x < 1 {
        let flipped = AppView { vel_x: -v.vel_x, ..v };
        if !in_span(v.ball_y, v.left.pos_y) {
            let scored = AppView {
                right: PaddleView { score: v.right.score + 1, ..v.right },
                ..flipped
            };
            if scored.right.score >= 5 {
                AppView { status: Status::Finished(Winner::Right), ..scored }
            } else {
                AppView { ball_x: 256, ball_y: 171, ..scored }
            }
        } else {
            flipped
        }
    } else {
        v
    }
}

/// The vertical phase: the ball steps by its y velocity, and beyond the
/// asymmetric bounds `1..332` (which leave room for the ball's own 10 px)
/// the y velocity flips. No scoring on the horizontal walls.
pub open spec fn after_y_step(v: AppView) -> AppView {
    let moved = AppView { ball_y: v.ball_y + v.vel_y, ..v };
    if moved.ball_y > 332 || moved.ball_y < 1 {
        AppView { vel_y: -moved.vel_y, ..moved }
    } else {
        moved
    }
}

/// One full tick. A finished match never changes again. Otherwise: input,
/// paddle moves, horizontal ball step, right wall, left wall, vertical ball
/// step — in that order, and a win transition stops the tick on the spot.
pub open spec fn step(v: AppView) -> AppView {
    if v.status is Finished {
        v
    } else {
        let a = with_paddles_moved(with_input(v));
        let b = after_right_wall(AppView { ball_x: a.ball_x + a.vel_x, ..a });
        if b.status is Finished {
            b
        } else {
            let c = after_left_wall(b);
            if c.status is Finished {
                c
            } else {
                after_y_step(c)
            }
        }
    }
}

/// The larger of two integers.
pub open spec fn max_int(a: int, b: int) -> int {
    if a >= b {
        a
    } else {
        b
    }
}

/// Well-formedness of a match state. Everything `update` needs to run without
/// overflow and everything the game promises of itself: paddles inside the
/// field, ball speed exactly one per axis, ball near the field (the bounds
/// are conditioned on the travel direction, and allow for the respawn point
/// even on a narrow field), scores capped at five, and at most four while
/// still playing.
pub open spec fn wf_view(v: AppView) -> bool {
    &&& 51 <= v.height <= 0x7fff_ffff
    &&& 10 <= v.width <= 0x7fff_ffff
    &&& -1 <= v.left.vel <= 1
    &&& -1 <= v.right.vel <= 1
    &&& 0 <= v.left.pos_y <= v.height - 50
    &&& 0 <= v.right.pos_y <= v.height - 50
    &&& (v.vel_x == 1 || v.vel_x == -1)
    &&& (v.vel_y == 1 || v.vel_y == -1)
    &&& (v.vel_x == 1 ==> -1 <= v.ball_x <= max_int(v.width - 9, 256))
    &&& (v.vel_x == -1 ==> 0 <= v.ball_x <= max_int(v.width - 8, 257))
    &&& (v.vel_y == 1 ==> -1 <= v.ball_y <= 332)
    &&& (v.vel_y == -1 ==> 0 <= v.ball_y <= 333)
    &&& 0 <= v.left.score <= 5
    &&& 0 <= v.right.score <= 5
    &&& (v.status is Playing ==> v.left.score <= 4 && v.right.score <= 4)
}

/// The state a fresh match starts in: left paddle spawned at x = -40 (partly
/// off the left edge, as the sprite is drawn), right paddle at `width - 10`,
/// ball at the origin moving down-right, no keys held, nobody has scored.
pub open spec fn initial_view(width: int, height: int) -> AppView {
    AppView {
        keys: KeySet { up: false, down: false, w: false, s: false },
        width: width,
        height: height,
        left: PaddleView { pos_x: -40, pos_y: 1, vel: 0, score: 0 },
        right: PaddleView { pos_x: width - 10, pos_y: 1, vel: 0, score: 0 },
        ball_x: 0,
        ball_y: 0,
        vel_x: 1,
        vel_y: 1,
        status: Status::Playing,
    }
}

impl App {
    /// Well-formedness of this match state; see [`wf_view`].
    pub open spec fn wf(&self) -> bool {
        wf_view(self@)
    }

    /// A fresh match on a `size.width` x `size.height` field.
    pub fn new(size: Size) -> (app: App)
        requires
            51 <= size.height <= 0x7fff_ffff,
            10 <= size.width <= 0x7fff_ffff,
        ensures
            app@ == initial_view(size.width as int, size.height as int),
            app.wf(),
    {
        App {
            keys: KeySet { up: false, down: false, w: false, s: false },
            width: size.width,
            height: size.height,
            player_1: Paddle::new(-40),
            player_2: Paddle::new(size.width as i32 - 10),
            ball_x: 0,
            ball_y: 0,
            vel_x: 1,
            vel_y: 1,
            status: Status::Playing,
        }
    }

    /// Record a game key going down. Pressing a key that is already down
    /// changes nothing.
    pub fn press(&mut self, key: GameKey)
        ensures
            final(self)@ == (AppView { keys: with_key(old(self)@.keys, key, true), ..old(self)@ }),
            key_pressed(old(self).keys, key) ==> final(self)@ == old(self)@,
    {
        match key {
            GameKey::Up => self.keys.up = true,
            GameKey::Down => self.keys.down = true,
            GameKey::W => self.keys.w = true,
            GameKey::S => self.keys.s = true,
        }
    }

    /// Record a game key going up. Releasing a key that is not down changes
    /// nothing.
    pub fn release(&mut self, key: GameKey)
        ensures
            final(self)@ == (AppView { keys: with_key(old(self)@.keys, key, false), ..old(self)@ }),
            !key_pressed(old(self).keys, key) ==> final(self)@ == old(self)@,
    {
        match key {
            GameKey::Up => self.keys.up = false,
            GameKey::Down => self.keys.down = false,
            GameKey::W => self.keys.w = false,
            GameKey::S => self.keys.s = false,
        }
    }

    /// Turn the pressed keys into paddle velocities for this tick. Up wins
    /// over Down and W over S when both are held.
    pub fn get_player_input(&mut self)
        ensures
            final(self)@ == with_input(old(self)@),
            old(self).keys.up ==> final(self)@.right.vel == -1,
            old(self).keys.w ==> final(self)@.left.vel == -1,
    {
        if self.keys.up {
            self.player_2.vel = -1;
        } else if self.keys.down {
            self.player_2.vel = 1;
        } else {
            self.player_2.vel = 0;
        }
        if self.keys.w {
            self.player_1.vel = -1;
        } else if self.keys.s {
            self.player_1.vel = 1;
        } else {
            self.player_1.vel = 0;
        }
    }

    /// The current positions to draw, as a pure read of the state: each
    /// paddle as a 50x50 square at its position, the ball as a 10x10 square
    /// at its position. Rendering never changes the match.
    pub fn render_data(&self) -> (s: Scene)
        ensures
            s.left == (DrawRect { x: self.player_1.pos_x, y: self.player_1.pos_y, size: 50 }),
            s.right == (DrawRect { x: self.player_2.pos_x, y: self.player_2.pos_y, size: 50 }),
            s.ball == (DrawRect { x: self.ball_x, y: self.ball_y, size: 10 }),
    {
        Scene {
            left: DrawRect { x: self.player_1.pos_x, y: self.player_1.pos_y, size: 50 },
            right: DrawRect { x: self.player_2.pos_x, y: self.player_2.pos_y, size: 50 },
            ball: DrawRect { x: self.ball_x, y: self.ball_y, size: 10 },
        }
    }

    /// One tick of the match: exactly the transition [`step`] describes.
    /// A well-formed state stays well-formed, and a finished match is inert.
    pub fn update(&mut self)
        requires
            old(self).wf(),
        ensures
            final(self)@ == step(old(self)@),
            final(self).wf(),
            old(self)@.status is Finished ==> final(self)@ == old(self)@,
    {
        match self.status {
            Status::Finished(_) => {
                return;
            },
            Status::Playing => {},
        }
        self.get_player_input();
        let h = self.height;
        self.player_1.move_paddle(h);
        self.player_2.move_paddle(h);

        self.ball_x = self.ball_x + self.vel_x;
        let wall = self.width as i32 - 10;
        if self.ball_x > wall {
            self.vel_x = -self.vel_x;
            if self.ball_y < self.player_2.pos_y || self.ball_y > self.player_2.pos_y + 50 {
                self.player_1.inc_score();
                if self.player_1.score >= 5 {
                    self.status = Status::Finished(Winner::Left);
                    return;
                }
                self.ball_x = 256;
                self.ball_y = 171;
            }
        }
        if self.ball_x < 1 {
            self.vel_x = -self.vel_x;
            if self.ball_y < self.player_1.pos_y || self.ball_y > self.player_1.pos_y + 50 {
                self.player_2.inc_score();
                if self.player_2.score >= 5 {
                    self.status = Status::Finished(Winner::Right);
                    return;
                }
                self.ball_x = 256;
                self.ball_y = 171;
            }
        }

        self.ball_y = self.ball_y + self.vel_y;
        if self.ball_y > 332 || self.ball_y < 1 {
            self.vel_y = -self.vel_y;
        }
    }
}

/// Law: a tick keeps a match well-formed. Every bound in [`wf_view`] —
/// paddles inside the field, scores capped, ball near the field — survives
/// any one step.
pub proof fn lemma_step_preserves_wf(v: AppView)
    requires
        wf_view(v),
    ensures
        wf_view(step(v)),
{
}

/// Law: ball speed. Across any tick of a well-formed match each velocity
/// component of the ball stays exactly +1 or -1; collisions flip signs and
/// never change the magnitude.
pub proof fn lemma_speed_invariant(v: AppView)
    requires
        wf_view(v),
    ensures
        step(v).vel_x == 1 || step(v).vel_x == -1,
        step(v).vel_y == 1 || step(v).vel_y == -1,
{
}

/// Law: a finished match is inert. Once the status is `Finished`, a further
/// tick changes nothing at all.
pub proof fn lemma_finished_is_terminal(v: AppView)
    requires
        v.status is Finished,
    ensures
        step(v) == v,
{
}

/// Law: the win transition. In a running match with the left player at four
/// points, a right-wall crossing that misses the right paddle's span ends the
/// match on the spot: the score reaches five, the status becomes
/// `Finished(Left)`, and the rest of the tick does not run — the ball keeps
/// its crossing position instead of being respawned.
pub proof fn lemma_win_left(v: AppView)
    requires
        wf_view(v),
        v.status is Playing,
        v.left.score == 4,
        ({
            let a = with_paddles_moved(with_input(v));
            a.ball_x + a.vel_x > a.width - 10 && !in_span(a.ball_y, a.right.pos_y)
        }),
    ensures
        step(v).status == Status::Finished(Winner::Left),
        step(v).left.score == 5,
        step(v).ball_x == v.ball_x + v.vel_x,
        step(v).ball_y == v.ball_y,
{
}

} // verus!
