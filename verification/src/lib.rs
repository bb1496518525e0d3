//! Turns raw touch samples from an ASUS touchpad into emulated
//! numeric-keypad key presses.
//!
//! The crate holds the decision logic of the driver: bounding-box geometry,
//! the per-model layout catalog, the backlight levels and their register
//! command, and the gesture state machine that consumes position, finger
//! and clock-tick events and answers with the side effects to perform.
//! Everything here is pure: reading the devices and carrying out the side
//! effects is the embedding program's job.

pub mod brightness;
pub mod config;
pub mod geometry;
pub mod keys;
pub mod layout;
pub mod machine;
pub mod util;
