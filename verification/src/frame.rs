//! Stereo audio frames.
//!
//! A sample is a signed fixed-point value: `SAMPLE_SCALE` stands for 1.0.
//! A frame is a pair of samples, one per channel. Frame arithmetic is
//! componentwise and saturates at the representable range.

use vstd::prelude::*;

verus! {

/// The fixed-point unit: a sample value of `SAMPLE_SCALE` means 1.0.
pub const SAMPLE_SCALE: i32 = 32768;

/// A single stereo sample pair.
#[derive(Clone, Copy, Debug, PartialEq, Eq, Structural)]
pub struct Frame {
    pub left: i32,
    pub right: i32,
}

/// A sample sum clamped to the representable range.
pub open spec fn spec_sat(v: int) -> int {
    if v > i32::MAX as int {
        i32::MAX as int
    } else if v < i32::MIN as int {
        i32::MIN as int
    } else {
        v
    }
}

/// Componentwise saturating sum of two frames.
pub open spec fn spec_frame_add(a: Frame, b: Frame) -> Frame {
    Frame {
        left: spec_sat(a.left + b.left) as i32,
        right: spec_sat(a.right + b.right) as i32,
    }
}

/// Saturating sample addition.
pub fn sat_add_sample(a: i32, b: i32) -> (r: i32)
    ensures
        r as int == spec_sat(a + b),
{
    let wide: i64 = a as i64 + b as i64;
    if wide > i32::MAX as i64 {
        i32::MAX
    } else if wide < i32::MIN as i64 {
        i32::MIN
    } else {
        wide as i32
    }
}

impl Frame {
    /// The silent frame.
    pub fn zero() -> (r: Frame)
        ensures
            r == spec_zero_frame(),
    {
        Frame { left: 0, right: 0 }
    }

    /// Componentwise saturating addition.
    pub fn add(self, other: Frame) -> (r: Frame)
        ensures
            r == spec_frame_add(self, other),
    {
        Frame { left: sat_add_sample(self.left, other.left), right: sat_add_sample(self.right, other.right) }
    }

    /// Broadcasts a mono sample into both channels.
    pub fn from_mono(sample: i32) -> (r: Frame)
        ensures
            r.left == sample,
            r.right == sample,
    {
        Frame { left: sample, right: sample }
    }
}

/// The silent frame, as a specification value.
pub open spec fn spec_zero_frame() -> Frame {
    Frame { left: 0, right: 0 }
}

/// The frame a source timeline holds at a given index: silence before the
/// start of the source and after its end, the source's own frame inside it.
pub open spec fn spec_frame_at(source: Seq<Frame>, index: int) -> Frame {
    if 0 <= index < source.len() {
        source[index]
    } else {
        spec_zero_frame()
    }
}

/// A frame together with its absolute index in the source's timeline.
/// A negative index means pre-start silence.
#[derive(Clone, Copy, Debug, PartialEq, Eq, Structural)]
pub struct TimestampedFrame {
    pub frame: Frame,
    pub index: i64,
}

} // verus!
