//! Black-frame-insertion timing: a verified controller that decides, on each
//! vertical-blank tick, whether to flip a full-screen overlay between opaque
//! and transparent, keeping the flip schedule phase-locked to a fixed
//! wall-clock grid.
//!
//! The controller is pure logic over nanosecond timestamps; waiting for
//! vblank ticks, reading the clock and driving the overlay surface are left
//! to the host program.

pub mod laws;
pub mod timing;
