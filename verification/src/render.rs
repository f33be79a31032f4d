//! The read-only projection the host's rendering layer consumes once per
//! frame: two paddle rectangles and the ball's circle.

use vstd::prelude::*;

verus! {

use crate::layout::{BALL_CENTER_Y, BALL_RADIUS, PADDLE_HEIGHT, PADDLE_WIDTH};
use crate::state::GameState;

/// An axis-aligned rectangle, in tenths of a unit.
#[derive(Clone, Copy, Debug, PartialEq, Eq, Structural)]
pub struct Rect {
    pub x: i64,
    pub y: i64,
    pub w: i64,
    pub h: i64,
}

/// A circle, in tenths of a unit.
#[derive(Clone, Copy, Debug, PartialEq, Eq, Structural)]
pub struct Circle {
    pub x: i64,
    pub y: i64,
    pub radius: i64,
}

/// Everything the rendering layer reads for one frame.
#[derive(Clone, Copy, Debug, PartialEq, Eq, Structural)]
pub struct Scene {
    pub left_paddle: Rect,
    pub right_paddle: Rect,
    pub ball: Circle,
}

/// The scene a given state projects to: each paddle at its own position
/// with the fixed paddle size, the ball at its horizontal position with the
/// fixed vertical centre and radius.
pub open spec fn scene_of(s: GameState) -> Scene {
    Scene {
        left_paddle: Rect {
            x: s.left_paddle.x,
            y: s.left_paddle.y,
            w: PADDLE_WIDTH,
            h: PADDLE_HEIGHT,
        },
        right_paddle: Rect {
            x: s.right_paddle.x,
            y: s.right_paddle.y,
            w: PADDLE_WIDTH,
            h: PADDLE_HEIGHT,
        },
        ball: Circle { x: s.ball.x, y: BALL_CENTER_Y, radius: BALL_RADIUS },
    }
}

impl GameState {
    /// The render read: a pure function of the state, so two reads with no
    /// mutation in between return identical scenes, and the state itself is
    /// untouched.
    pub fn scene(&self) -> (r: Scene)
        ensures
            r == scene_of(*self),
    {
        Scene {
            left_paddle: Rect {
                x: self.left_paddle.x,
                y: self.left_paddle.y,
                w: PADDLE_WIDTH,
                h: PADDLE_HEIGHT,
            },
            right_paddle: Rect {
                x: self.right_paddle.x,
                y: self.right_paddle.y,
                w: PADDLE_WIDTH,
                h: PADDLE_HEIGHT,
            },
            ball: Circle { x: self.ball.x, y: BALL_CENTER_Y, radius: BALL_RADIUS },
        }
    }
}

} // verus!
