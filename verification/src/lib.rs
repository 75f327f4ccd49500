//! Decision logic of a lane-based key autoplayer.
//!
//! Each lane watches one screen pixel. While the pixel shows the bright
//! marker, the lane's key is held; when the marker has been gone for long
//! enough, the key is released. This crate holds every rule of that
//! behaviour as verified code over plain values: the colour classifier, the
//! per-lane press/release state machine, the key-event encoding, the window
//! and focus rules, and the reading of the configuration text. Sampling
//! pixels, injecting input, enumerating windows and running threads are left
//! to the program around it.

pub mod classify;
pub mod config;
pub mod error;
pub mod keys;
pub mod lanes;
pub mod text;
pub mod trace;
pub mod window;
pub mod worker;
