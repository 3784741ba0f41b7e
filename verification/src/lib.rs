//! A verified core for a two-player paddle-and-ball match.
//!
//! The library advances a match by one discrete tick at a time: it moves the
//! two paddles under their control signals, bounces the ball off paddles and
//! the horizontal walls, detects goals, keeps the score, and reports a
//! renderable snapshot together with the side effects of the tick. A host
//! program owns the window, the input devices and the audio device; it calls
//! [`sim::new_match`] once and then [`sim::MatchState::tick`] once per frame.
//!
//! All coordinates are integers in hundredths of an arena unit, so every
//! position and velocity the rules produce is represented exactly.

pub mod geom;
pub mod laws;
pub mod sim;
