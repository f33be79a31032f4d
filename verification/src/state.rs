//! The simulation state: two paddles and one ball, with the per-step
//! update rules.

use vstd::prelude::*;

verus! {

use crate::layout::{BALL_RESET_THRESHOLD, BALL_STEP, LEFT_PADDLE_X, RIGHT_PADDLE_X, WINDOW_WIDTH};

/// A paddle: a fixed column and a freely moving vertical position.
#[derive(Clone, Copy, Debug, PartialEq, Eq, Structural)]
pub struct Paddle {
    /// Horizontal position, set at construction and never changed.
    pub x: i64,
    /// Vertical position; key events move it without any clamping, so it
    /// may leave the window in either direction.
    pub y: i64,
}

/// The ball. Only its horizontal position changes; its vertical position
/// is fixed (see `layout::BALL_CENTER_Y`).
#[derive(Clone, Copy, Debug, PartialEq, Eq, Structural)]
pub struct Ball {
    /// Horizontal position; each `GameState::step` keeps it in `[0, WINDOW_WIDTH)`.
    pub x: i64,
}

/// Which paddle a movement applies to.
#[derive(Clone, Copy, Debug, PartialEq, Eq, Structural)]
pub enum Side {
    Left,
    Right,
}

/// The whole simulation state. The host owns one value of this type and
/// drives it through `step`, `on_key_down` and the `scene` read.
#[derive(Clone, Copy, Debug, PartialEq, Eq, Structural)]
pub struct GameState {
    pub left_paddle: Paddle,
    pub right_paddle: Paddle,
    pub ball: Ball,
}

/// The ball's horizontal position after one step, from any starting
/// position. Two independent, sequential rules:
/// the threshold rule undoes the advance whenever the advanced position
/// reaches `BALL_RESET_THRESHOLD`, and the wraparound rule then resets any
/// position outside `[0, WINDOW_WIDTH)` to zero.
pub open spec fn step_ball(x: int) -> int {
    let advanced = x + BALL_STEP;
    let held = if advanced >= BALL_RESET_THRESHOLD {
        advanced - BALL_STEP
    } else {
        advanced
    };
    if held >= WINDOW_WIDTH || held < 0 {
        0
    } else {
        held
    }
}

impl GameState {
    /// The paddle on the given side.
    pub open spec fn paddle(self, side: Side) -> Paddle {
        match side {
            Side::Left => self.left_paddle,
            Side::Right => self.right_paddle,
        }
    }

    /// The ball lies inside the window.
    pub open spec fn ball_in_window(self) -> bool {
        0 <= self.ball.x < WINDOW_WIDTH
    }

    /// Every state the library's own operations can reach: the ball inside
    /// the window and each paddle at its fixed column, the left one strictly
    /// left of the right one.
    pub open spec fn wf(self) -> bool {
        &&& self.ball_in_window()
        &&& self.left_paddle.x == LEFT_PADDLE_X
        &&& self.right_paddle.x == RIGHT_PADDLE_X
    }

    /// The initial state: both paddles at the top of their fixed columns,
    /// the ball at the left window edge.
    pub fn new() -> (r: GameState)
        ensures
            r.wf(),
            r.left_paddle.x == LEFT_PADDLE_X,
            r.left_paddle.y == 0,
            r.right_paddle.x == RIGHT_PADDLE_X,
            r.right_paddle.y == 0,
            r.ball.x == 0,
    {
        GameState {
            left_paddle: Paddle { x: LEFT_PADDLE_X, y: 0 },
            right_paddle: Paddle { x: RIGHT_PADDLE_X, y: 0 },
            ball: Ball { x: 0 },
        }
    }

    /// Advance the simulation by exactly one step: the ball moves by
    /// `BALL_STEP`, the threshold rule holds it short of
    /// `BALL_RESET_THRESHOLD`, and the wraparound rule puts any position
    /// outside the window back to zero. The paddles are untouched.
    ///
    /// Whatever the starting position, the ball ends inside the window.
    pub fn step(&mut self)
        requires
            old(self).ball.x + BALL_STEP <= i64::MAX,
        ensures
            final(self).ball.x == step_ball(old(self).ball.x as int),
            final(self).ball_in_window(),
            final(self).left_paddle == old(self).left_paddle,
            final(self).right_paddle == old(self).right_paddle,
    {
        self.ball.x = self.ball.x + BALL_STEP;
        if self.ball.x >= BALL_RESET_THRESHOLD {
            self.ball.x = self.ball.x - BALL_STEP;
        }
        if self.ball.x >= WINDOW_WIDTH || self.ball.x < 0 {
            self.ball.x = 0;
        }
    }

    /// Move one paddle vertically by `delta`. No clamping: the new position
    /// is exactly the old one plus `delta`, and nothing else changes.
    pub fn move_paddle(&mut self, side: Side, delta: i64)
        requires
            i64::MIN <= old(self).paddle(side).y + delta <= i64::MAX,
        ensures
            final(self).ball == old(self).ball,
            final(self).paddle(side).x == old(self).paddle(side).x,
            final(self).paddle(side).y == old(self).paddle(side).y + delta,
            side == Side::Left ==> final(self).right_paddle == old(self).right_paddle,
            side == Side::Right ==> final(self).left_paddle == old(self).left_paddle,
    {
        match side {
            Side::Left => {
                self.left_paddle.y = self.left_paddle.y + delta;
            }
            Side::Right => {
                self.right_paddle.y = self.right_paddle.y + delta;
            }
        }
    }
}

/// From a position whose advance stays short of the threshold, one step
/// moves the ball forward by exactly `BALL_STEP`. (From `BALL_RESET_THRESHOLD
/// - BALL_STEP` on, the threshold rule undoes the advance instead: see
/// `lemma_step_holds_at_threshold`.)
pub proof fn lemma_step_advances_below_threshold(x: int)
    requires
        0 <= x,
        x + BALL_STEP < BALL_RESET_THRESHOLD,
    ensures
        step_ball(x) == x + BALL_STEP,
{
}

/// In the band just below the threshold, a step leaves the ball exactly
/// where it was: the advance crosses the threshold and is undone. Together
/// with `lemma_step_advances_below_threshold` this gives the sawtooth: the
/// ball creeps up to the band and then holds there under repeated stepping.
pub proof fn lemma_step_holds_at_threshold(x: int)
    requires
        BALL_RESET_THRESHOLD - BALL_STEP <= x < WINDOW_WIDTH,
    ensures
        step_ball(x) == x,
{
}

/// Wraparound invariant: from any starting position whatever, one step puts
/// the ball inside the window.
pub proof fn lemma_step_ball_in_window(x: int)
    ensures
        0 <= step_ball(x) < WINDOW_WIDTH,
{
}

} // verus!
