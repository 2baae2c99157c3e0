//! Core of a two-player paddle-and-ball game.
//!
//! The library owns the whole simulation: paddle movement clamped to the
//! playfield, discrete unit-step ball motion, collision against walls and
//! paddle spans, scoring, and the terminal win transition. Rendering and the
//! event loop are left to the host program; the library only hands out
//! positions to draw and takes plain key events in.

pub mod paddle;
pub mod game;
