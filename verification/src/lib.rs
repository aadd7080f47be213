//! Heads-up-display state for a small tank game: a three-phase fade timer
//! (in, hold, out) that drives an overlay's alpha channel, dirty-flag
//! synchronization of text fields and an overlay color into display nodes,
//! a console mirror that copies an external log buffer, and the splash
//! screen's enter/update/exit transitions.
//!
//! Engine-facing glue (scene spawning, audio, input, the frame loop) lives
//! outside this crate; everything here works on plain values and is verified.

pub mod color;
pub mod display;
pub mod hud;
pub mod layout;
pub mod splash;
