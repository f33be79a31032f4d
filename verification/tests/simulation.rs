use pong::state::{GameState, Side};

#[test]
fn new_initial_positions() {
    let s = GameState::new();
    assert_eq!(s.left_paddle.x, 100);
    assert_eq!(s.left_paddle.y, 0);
    assert_eq!(s.right_paddle.x, 7700);
    assert_eq!(s.right_paddle.y, 0);
    assert_eq!(s.ball.x, 0);
}

#[test]
fn step_advances_below_threshold() {
    let mut s = GameState::new();
    s.step();
    assert_eq!(s.ball.x, 5);
    s.step();
    assert_eq!(s.ball.x, 10);

    s.ball.x = 1000;
    s.step();
    assert_eq!(s.ball.x, 1005);

    // The last position whose advance still stays short of the threshold.
    s.ball.x = 3794;
    s.step();
    assert_eq!(s.ball.x, 3799);
}

#[test]
fn step_holds_in_threshold_band() {
    // An advance that lands exactly on the threshold is undone.
    let mut s = GameState::new();
    s.ball.x = 3795;
    s.step();
    assert_eq!(s.ball.x, 3795);
}

#[test]
fn ball_holds_at_379_6() {
    // From 379.6 units, every step advances to 380.1, which the threshold
    // rule undoes: the ball holds at 379.6 for good.
    let mut s = GameState::new();
    s.ball.x = 3796;
    s.step();
    assert_eq!(s.ball.x, 3796);
    let mut i: u32 = 0;
    while i < 50 {
        s.step();
        assert_eq!(s.ball.x, 3796);
        i += 1;
    }
}

#[test]
fn wraparound_resets_negative() {
    let mut s = GameState::new();
    s.ball.x = -50;
    s.step();
    assert_eq!(s.ball.x, 0);
}

#[test]
fn wraparound_resets_past_width() {
    let mut s = GameState::new();
    s.ball.x = 8200;
    s.step();
    assert_eq!(s.ball.x, 0);
}

#[test]
fn sawtooth_end_to_end() {
    // 760 steps of 0.5 units from the left edge: the ball creeps up to the
    // 380-unit threshold, then holds, and never leaves the window.
    let mut s = GameState::new();
    let mut i: u32 = 0;
    while i < 760 {
        s.step();
        assert!(s.ball.x >= 0);
        assert!(s.ball.x < 8000);
        assert!(s.ball.x <= 3795);
        i += 1;
    }
    assert_eq!(s.ball.x, 3795);
    // The paddles never moved.
    assert_eq!(s.left_paddle.y, 0);
    assert_eq!(s.right_paddle.y, 0);
}

#[test]
fn move_paddle_is_unclamped() {
    let mut s = GameState::new();
    s.move_paddle(Side::Left, -1_000_000);
    assert_eq!(s.left_paddle.y, -1_000_000);
    assert_eq!(s.left_paddle.x, 100);
    assert_eq!(s.right_paddle.y, 0);
    assert_eq!(s.ball.x, 0);
    s.move_paddle(Side::Right, 70);
    assert_eq!(s.right_paddle.y, 70);
    assert_eq!(s.left_paddle.y, -1_000_000);
}
