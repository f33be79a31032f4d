//! The input mapper: a stateless translation of key-down events into
//! paddle movements.

use vstd::prelude::*;

verus! {

use crate::layout::PADDLE_STEP;
use crate::state::{GameState, Side};

/// A key-down event, as the host's input dispatch reports it. Only four
/// keys are mapped; the host hands every other key in as `Other`.
#[derive(Clone, Copy, Debug, PartialEq, Eq, Structural)]
pub enum Key {
    /// Moves the left paddle up.
    W,
    /// Moves the left paddle down.
    S,
    /// Moves the right paddle up.
    Up,
    /// Moves the right paddle down.
    Down,
    /// Any unmapped key: a no-op.
    Other,
}

impl GameState {
    /// Apply one key-down event: a mapped key makes exactly one paddle move
    /// of `PADDLE_STEP` on the paddle it is bound to, an unmapped key
    /// changes nothing. The ball is never touched. Auto-repeat is not
    /// suppressed: every event moves the paddle again.
    pub fn on_key_down(&mut self, key: Key)
        requires
            key == Key::W ==> i64::MIN <= old(self).left_paddle.y - PADDLE_STEP,
            key == Key::S ==> old(self).left_paddle.y + PADDLE_STEP <= i64::MAX,
            key == Key::Up ==> i64::MIN <= old(self).right_paddle.y - PADDLE_STEP,
            key == Key::Down ==> old(self).right_paddle.y + PADDLE_STEP <= i64::MAX,
        ensures
            final(self).ball == old(self).ball,
            final(self).left_paddle.x == old(self).left_paddle.x,
            final(self).right_paddle.x == old(self).right_paddle.x,
            key == Key::W ==> final(self).left_paddle.y == old(self).left_paddle.y - PADDLE_STEP
                && final(self).right_paddle == old(self).right_paddle,
            key == Key::S ==> final(self).left_paddle.y == old(self).left_paddle.y + PADDLE_STEP
                && final(self).right_paddle == old(self).right_paddle,
            key == Key::Up ==> final(self).right_paddle.y == old(self).right_paddle.y - PADDLE_STEP
                && final(self).left_paddle == old(self).left_paddle,
            key == Key::Down ==> final(self).right_paddle.y == old(self).right_paddle.y + PADDLE_STEP
                && final(self).left_paddle == old(self).left_paddle,
            key == Key::Other ==> *final(self) == *old(self),
    {
        match key {
            Key::W => self.move_paddle(Side::Left, -PADDLE_STEP),
            Key::S => self.move_paddle(Side::Left, PADDLE_STEP),
            Key::Up => self.move_paddle(Side::Right, -PADDLE_STEP),
            Key::Down => self.move_paddle(Side::Right, PADDLE_STEP),
            Key::Other => {}
        }
    }
}

} // verus!
