//! A verified model of a small reflex game for a 5x5 LED matrix: a bird,
//! held aloft by button presses, must pass through gaps in a stream of
//! procedurally generated pipes, while a periodic interrupt handler drives
//! an evolving audio cue on a speaker.
//!
//! The crate holds the game's pure logic: the pipe shapes and collision
//! rule, the per-frame engine transition, the render buffer, and the audio
//! state machine that the tick interrupt advances. A driver supplies the
//! hardware at the edges (display, buttons, entropy, timers) and feeds
//! plain values in and out.

pub mod audio;
pub mod game;
pub mod pipes;
