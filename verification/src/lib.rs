//! Verified core of a two-channel audio level visualizer.
//!
//! The crate covers the logic that sits between an audio capture callback and
//! a render loop: turning interleaved sample blocks into per-channel
//! amplitudes, handing the latest amplitude pair from the capture context to
//! the render context through a single-slot mailbox, and deriving the bar
//! geometry drawn each frame.
//!
//! All quantities are fixed-point integers in thousandths of a unit
//! (thousandths of full scale for samples, thousandths of a pixel for
//! amplitudes and geometry), so every formula is exact and free of rounding.
//! The surrounding program converts to and from the floating-point values
//! that the audio and graphics libraries speak.

pub mod amplitude;
pub mod geometry;
pub mod state;
