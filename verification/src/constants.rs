//! The engine's fixed sizes and default settings.
use vstd::prelude::*;

use crate::fixed::Fixed;

verus! {

/// Frames per second that the default buffer length is measured against.
pub const SAMPLE_RATE: usize = 41000;

/// Seconds of history in a buffer of the default length.
pub const MAX_DELAY_TIME_SECONDS: usize = 10;

/// Channels in a frame.
pub const NUM_CHANNELS: usize = 2;

/// Number of grains in the pool.
pub const MAX_GRAINS: usize = 100;

/// The most frames a delay buffer may hold: a position in it must fit the
/// whole part of a fixed-point number.
pub const MAX_CAPACITY: usize = 2147483647;

/// Peak of every grain's envelope: 0.7.
pub const GRAIN_AMPLITUDE: Fixed = 3006477107;

/// Gain applied to the averaged grain mix: 2.
pub const MIX_GAIN: Fixed = 8589934592;

/// The factor that turns a draw over the density into calls of the onset
/// clock: 1000.
pub const INTERVAL_SCALE: Fixed = 4294967296000;

/// Default onset density: 50.
pub const DEFAULT_DENSITY: Fixed = 214748364800;

/// Default grain duration in frames: 3000.
pub const DEFAULT_DURATION: Fixed = 12884901888000;

/// Default pitch ratio: 1.
pub const DEFAULT_PITCH: Fixed = 4294967296;

/// Default output volume: 0.5.
pub const DEFAULT_VOLUME: Fixed = 2147483648;

/// Default feedback into the delay buffer: 0.6.
pub const DEFAULT_DELAY_FEEDBACK: Fixed = 2576980378;

/// Default mix between the grains (1) and the inverted input (0): 1.
pub const DEFAULT_WET_DRY: Fixed = 4294967296;

} // verus!
