//! A minimal two-player paddle-and-ball simulation, decoupled from any
//! rendering backend.
//!
//! The library owns the per-frame game logic: advancing the ball by a fixed
//! amount per step, holding it at a reset threshold, wrapping it back into
//! the window, and moving the paddles in response to discrete key events.
//! A host event loop drives it by calling `GameState::step` once per frame
//! tick, `GameState::on_key_down` whenever a key arrives, and the read-only
//! `GameState::scene` accessor once per frame.
//!
//! All positions and sizes are integers in tenths of a distance unit, so the
//! simulation's exact decimal arithmetic (a ball step of 0.5 units, a paddle
//! step of 10.0 units) is plain integer arithmetic.

pub mod input;
pub mod layout;
pub mod render;
pub mod state;
