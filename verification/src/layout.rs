//! Window and layout constants, fixed at startup and never reconfigured.
//!
//! Every constant is in tenths of a distance unit: `WINDOW_WIDTH` of 8000
//! is a window 800 units wide, `BALL_STEP` of 5 is an advance of 0.5 units
//! per step, `PADDLE_STEP` of 100 is a move of 10 units per key event.

use vstd::prelude::*;

verus! {

/// Width of the window; the ball's horizontal position stays in `[0, WINDOW_WIDTH)`.
pub const WINDOW_WIDTH: i64 = 8000;

/// Height of the window.
pub const WINDOW_HEIGHT: i64 = 6000;

/// Distance from a window edge to the near edge of a paddle.
pub const PADDLE_MARGIN: i64 = 100;

/// Horizontal size of a paddle.
pub const PADDLE_WIDTH: i64 = 200;

/// Vertical size of a paddle.
pub const PADDLE_HEIGHT: i64 = 1000;

/// Radius of the ball.
pub const BALL_RADIUS: i64 = 100;

/// Fixed vertical position of the ball's centre: half the window height.
pub const BALL_CENTER_Y: i64 = 3000;

/// How far the ball advances on each step: 0.5 units.
pub const BALL_STEP: i64 = 5;

/// Once an advance would carry the ball to or past this position, the
/// advance is undone for that step, so the ball holds just short of it.
pub const BALL_RESET_THRESHOLD: i64 = 3800;

/// How far a paddle moves on one mapped key event: 10 units.
pub const PADDLE_STEP: i64 = 100;

/// Fixed column of the left paddle.
pub const LEFT_PADDLE_X: i64 = PADDLE_MARGIN;

/// Fixed column of the right paddle: one margin and one paddle width in
/// from the right window edge.
pub const RIGHT_PADDLE_X: i64 = WINDOW_WIDTH - PADDLE_MARGIN - PADDLE_WIDTH;

} // verus!
