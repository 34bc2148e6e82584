//! A granular-synthesis audio effect in fixed-point arithmetic.
//!
//! The engine takes a stream of stereo frames and returns a stream of
//! processed frames. It keeps the recent past of the signal in a delay line,
//! starts short, enveloped readings of that past (grains) at the pace of an
//! onset clock, mixes the playing grains, feeds a share of the mix back into
//! the delay line and blends the mix with the inverted input.
//!
//! All numbers are fixed-point (see `fixed`). The one step that needs floating
//! point, the logarithm of the number drawn for an onset, is left to the
//! caller: see `scheduler`.
use vstd::prelude::*;

pub mod constants;
pub mod delay_line;
pub mod fixed;
pub mod frame;
pub mod grain;
pub mod granulator;
pub mod parabolic_envelope;
pub mod scheduler;

pub use crate::delay_line::DelayLine;
pub use crate::fixed::Fixed;
pub use crate::frame::Frame;
pub use crate::frame::SILENT_FRAME;
pub use crate::grain::Grain;
pub use crate::granulator::Granulator;
pub use crate::granulator::GranulatorOptions;
pub use crate::parabolic_envelope::ParabolicEnvelope;
pub use crate::scheduler::Scheduler;
