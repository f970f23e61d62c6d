use vstd::prelude::*;

pub mod chase;
pub mod color;
pub mod cycle;
pub mod engine;
pub mod equalizer;
pub mod error;
pub mod pulse;
pub mod rainbow;
pub mod solid;
pub mod strip;

pub use color::Color;
pub use error::LedError;

verus! {

/// Frames per second of the animation clock shared by all timed patterns.
pub const FRAMERATE: u16 = 60;

} // verus!
