//! Stereo frames.
use vstd::prelude::*;

use crate::fixed::{fx_mul, times, Fixed};

verus! {

/// One sample per channel, left then right.
pub type Frame = (Fixed, Fixed);

/// The frame of silence.
pub const SILENT_FRAME: Frame = (0, 0);

/// `frame` with both channels multiplied by `gain`.
pub open spec fn scaled(frame: Frame, gain: Fixed) -> Frame {
    (times(frame.0, gain), times(frame.1, gain))
}

/// Multiplies both channels of a frame by a gain.
pub fn scale(frame: Frame, gain: Fixed) -> (r: Frame)
    ensures
        r == scaled(frame, gain),
{
    (fx_mul(frame.0, gain), fx_mul(frame.1, gain))
}

} // verus!
