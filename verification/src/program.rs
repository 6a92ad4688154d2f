//! The animations that populate the back buffer between drives.
//!
//! Each program owns its per-frame state and mutates the framebuffer's back
//! buffer through the bounds-checked, accumulator-resetting setters.  The
//! run loop (owned by the embedding firmware) dispatches over the closed set
//! of programs and interleaves the driver's mid-render drives with their
//! pixel work; anything a program needs from the outside world — time,
//! entropy — is passed in as a plain value.

pub mod clock;
pub mod hue_cycle;
pub mod rain;
pub mod rainbow;
