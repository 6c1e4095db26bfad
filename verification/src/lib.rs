//! Animation playback engine for a fixed 28x8 pixel display.
//!
//! The library decodes looping GIF animations into frame buffers, classifies
//! them as grayscale or colorful, resolves which color an animation should be
//! rendered with, translates logical pixel coordinates to backend-native
//! positions, and sequences the playback phases (startup, base idle, blink
//! cycle, next animation) around a shared injection queue.

pub mod arguments;
pub mod color;
pub mod file_operations;
pub mod gif;
pub mod led;
pub mod network;
pub mod queue;
pub mod random;
pub mod renderer;
pub mod tasbot;
pub mod text;

use vstd::prelude::*;

verus! {

/// The required height of an animation, in pixels.
pub const HEIGHT: usize = 8;

/// The required width of an animation, in pixels.
pub const WIDTH: usize = 28;

} // verus!
