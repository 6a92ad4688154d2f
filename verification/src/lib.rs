//! Driver core for a shift-register-addressed LED matrix.
//!
//! The display is driven over a 1-bit serial line, so per-pixel brightness is
//! produced by pulse-density modulation: each pixel-channel keeps an 8-bit
//! accumulator, and the carry of a wrapping add of the target brightness is
//! the output bit for that cycle.  The crate verifies the modulation engine,
//! the double-buffered framebuffer, the protocol state machine that paces
//! scan-lines and frame flips against an external low-frequency clock, and the
//! debounced button that switches animations.  Register writes, busy-wait
//! delays and pin configuration are left to the embedding firmware: the
//! functions here take clock samples and pin assignments as plain values and
//! return the port words to write.

pub mod button;
pub mod collections;
pub mod color;
pub mod framebuffer;
pub mod led_driver;
pub mod pdm;
pub mod program;
pub mod scan_lines;
pub mod timing;
pub mod unwrap;
