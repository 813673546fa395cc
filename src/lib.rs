//! Status display for a small addressable LED strip.
//!
//! A lock-free register holds the current operational state; periodic
//! drivers write it (a cyclic tick, and the outcome of a network poll), and a
//! render loop reads it each frame, moves its animation cursor and computes
//! the pixels to send to the strip.

pub mod animation;
pub mod color;
pub mod poll;
pub mod register;
pub mod state;
