//! Selection of capturable top-level windows and cataloguing of display monitors.
//!
//! The operating system is walked elsewhere; this library takes what the walk
//! reported and decides what is offered: which windows pass the capture rule
//! chain, and what each monitor's device name is.
pub mod display;
pub mod error;
pub mod text;
pub mod window;
