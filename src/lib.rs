//! Drives an eight-digit seven-segment display controller as a clock.
//!
//! The library computes the (register, value) command pairs that the
//! controller expects: segment bitmaps for digits, the fan-out of a
//! time of day over the eight digit registers, the start-up sequence,
//! and the reactions of the clock to ticks and button presses.
pub mod segment;
pub mod render;
pub mod clock;
pub mod coordinator;
