//! The spatial stage: emitters, distance attenuation, and the two-ear
//! panning model.
//!
//! Positions, distances and gains are fixed-point values: `GAIN_SCALE`
//! stands for 1.0. The geometry that produces per-ear direction values —
//! ear positions, vector normalization, dot products — is floating-point
//! work done at the crate's boundary; this module owns everything from
//! those values on: the relative-distance and attenuation-curve math, the
//! panning gain law, and the stereo mixdown.

use vstd::prelude::*;

use crate::frame::Frame;
use crate::frame::spec_frame_add;
use crate::frame::spec_zero_frame;

verus! {

/// The fixed-point unit for gains and panning values: 1.0.
pub const GAIN_SCALE: i32 = 32768;

/// The smallest panning gain either ear can get: one half.
pub const MIN_EAR_GAIN: i32 = 16384;

/// The largest distance range a distance model may span, chosen so the
/// fixed-point attenuation arithmetic cannot overflow.
pub const MAX_DISTANCE: i64 = 1099511627776;

/// A fraction of a span, scaled into a unit, stays within the unit and
/// within the span cap's product: `0 <= offset * scale <= span_cap * scale`
/// and `0 <= offset * scale / span <= scale` when `0 <= offset <= span <=
/// span_cap`.
proof fn lemma_scaled_ratio_bounds(offset: int, span: int, scale: int, span_cap: int)
    requires
        0 <= offset <= span <= span_cap,
        0 < span,
        0 < scale,
    ensures
        0 <= offset * scale <= span_cap * scale,
        0 <= offset * scale / span <= scale,
{
    assert(0 <= offset * scale) by (nonlinear_arith)
        requires
            0 <= offset && 0 < scale,
    ;
    assert(offset * scale <= span * scale) by (nonlinear_arith)
        requires
            0 <= offset <= span && 0 < scale,
    ;
    assert(span * scale <= span_cap * scale) by (nonlinear_arith)
        requires
            0 < span <= span_cap && 0 < scale,
    ;
    assert(span * scale / span == scale) by (nonlinear_arith)
        requires
            0 < span && 0 < scale,
    ;
    assert(offset * scale / span <= span * scale / span) by (nonlinear_arith)
        requires
            0 < span && offset * scale <= span * scale,
    ;
    assert(0 <= offset * scale / span) by (nonlinear_arith)
        requires
            0 < span && 0 <= offset * scale,
    ;
}

/// A sample magnitude scaled by a unit-interval gain keeps its bounds:
/// the product fits well under the wide range and the quotient never
/// exceeds the magnitude.
proof fn lemma_gain_bounds(magnitude: int, gain: int)
    requires
        0 <= magnitude <= 2147483648,
        0 <= gain <= 32768,
    ensures
        0 <= magnitude * gain <= 2147483648 * 32768,
        magnitude * gain / 32768 <= magnitude,
{
    assert(0 <= magnitude * gain) by (nonlinear_arith)
        requires
            0 <= magnitude && 0 <= gain,
    ;
    assert(magnitude * gain <= 2147483648 * 32768) by (nonlinear_arith)
        requires
            0 <= magnitude <= 2147483648 && 0 <= gain <= 32768,
    ;
    assert(magnitude * gain <= magnitude * 32768) by (nonlinear_arith)
        requires
            0 <= magnitude && 0 <= gain <= 32768,
    ;
    assert(magnitude * 32768 / 32768 == magnitude) by (nonlinear_arith);
    assert(magnitude * gain / 32768 <= magnitude * 32768 / 32768) by (nonlinear_arith)
        requires
            magnitude * gain <= magnitude * 32768,
    ;
}

/// A value clamped to the unit interval `[0, GAIN_SCALE]`.
pub open spec fn spec_clamp_unit(v: int) -> int {
    if v < 0 {
        0
    } else if v > GAIN_SCALE as int {
        GAIN_SCALE as int
    } else {
        v
    }
}

/// Clamps a value to the unit interval `[0, GAIN_SCALE]`.
pub fn clamp_unit(v: i32) -> (r: i32)
    ensures
        r as int == spec_clamp_unit(v as int),
{
    if v < 0 {
        0
    } else if v > GAIN_SCALE {
        GAIN_SCALE
    } else {
        v
    }
}

/// The panning gain for one ear: `MIN_EAR_GAIN + (1 - MIN_EAR_GAIN) * v`
/// over the unit interval, with `v` the ear's direction value.
pub open spec fn spec_ear_gain(v: int) -> int {
    MIN_EAR_GAIN as int + ((GAIN_SCALE - MIN_EAR_GAIN) as int * spec_clamp_unit(v))
        / (GAIN_SCALE as int)
}

/// The panning gain for one ear, from that ear's direction value. For every
/// direction value the gain lies in `[MIN_EAR_GAIN, GAIN_SCALE]` — no ear's
/// channel is scaled below one half or above one.
pub fn ear_gain(v: i32) -> (r: i32)
    ensures
        r as int == spec_ear_gain(v as int),
        MIN_EAR_GAIN <= r <= GAIN_SCALE,
{
    let clamped = clamp_unit(v);
    proof {
        lemma_gain_bounds((GAIN_SCALE - MIN_EAR_GAIN) as int, clamped as int);
    }
    let wide: i64 = (GAIN_SCALE - MIN_EAR_GAIN) as i64 * clamped as i64;
    MIN_EAR_GAIN + (wide / GAIN_SCALE as i64) as i32
}

/// A sample scaled by a unit-interval gain, rounding toward zero.
pub open spec fn spec_apply_gain(sample: int, gain: int) -> int {
    if sample >= 0 {
        (sample * gain) / (GAIN_SCALE as int)
    } else {
        -((-sample * gain) / (GAIN_SCALE as int))
    }
}

/// Scales a sample by a unit-interval gain.
pub fn apply_gain(sample: i32, gain: i32) -> (r: i32)
    requires
        0 <= gain <= GAIN_SCALE,
    ensures
        r as int == spec_apply_gain(sample as int, gain as int),
{
    let negative = sample < 0;
    let magnitude: i64 = if negative {
        -(sample as i64)
    } else {
        sample as i64
    };
    proof {
        lemma_gain_bounds(magnitude as int, gain as int);
    }
    let scaled: i64 = magnitude * gain as i64 / GAIN_SCALE as i64;
    let signed: i64 = if negative {
        -scaled
    } else {
        scaled
    };
    signed as i32
}

/// A stereo frame with each channel scaled by its own gain.
pub open spec fn spec_apply_stereo_gain(f: Frame, left_gain: int, right_gain: int) -> Frame {
    Frame {
        left: spec_apply_gain(f.left as int, left_gain) as i32,
        right: spec_apply_gain(f.right as int, right_gain) as i32,
    }
}

/// A scalar curve on the unit interval mapping relative distance to
/// relative volume.
#[derive(Clone, Copy, Debug, PartialEq, Eq, Structural)]
pub enum AttenuationCurve {
    /// The identity curve.
    Linear,
}

impl AttenuationCurve {
    /// The curve's value at `v`, for `v` in the unit interval.
    pub open spec fn spec_apply(self, v: int) -> int {
        match self {
            AttenuationCurve::Linear => spec_clamp_unit(v),
        }
    }

    /// Applies the curve to a unit-interval value.
    pub fn apply(self, v: i32) -> (r: i32)
        ensures
            r as int == self.spec_apply(v as int),
            0 <= r <= GAIN_SCALE,
    {
        match self {
            AttenuationCurve::Linear => clamp_unit(v),
        }
    }
}

/// The distance range over which an emitter attenuates.
#[derive(Clone, Copy, Debug, PartialEq, Eq, Structural)]
pub struct EmitterDistances {
    /// The distance below which the emitter is at full volume.
    pub min_distance: i64,
    /// The distance beyond which the emitter is fully attenuated.
    pub max_distance: i64,
}

impl EmitterDistances {
    /// A meaningful range: ordered, nonnegative, and within the span the
    /// fixed-point arithmetic covers.
    pub open spec fn wf(self) -> bool {
        &&& 0 <= self.min_distance < self.max_distance
        &&& self.max_distance <= MAX_DISTANCE
    }

    /// Where `distance` falls in the range, as a unit-interval value:
    /// `clamp((distance - min) / (max - min), 0, 1)`.
    pub open spec fn spec_relative_distance(self, distance: int) -> int {
        if distance <= self.min_distance {
            0
        } else if distance >= self.max_distance {
            GAIN_SCALE as int
        } else {
            ((distance - self.min_distance) * (GAIN_SCALE as int)) / (self.max_distance
                - self.min_distance)
        }
    }

    /// Where `distance` falls in the range, as a unit-interval value.
    pub fn relative_distance(&self, distance: i64) -> (r: i32)
        requires
            self.wf(),
        ensures
            r as int == self.spec_relative_distance(distance as int),
            0 <= r <= GAIN_SCALE,
    {
        if distance <= self.min_distance {
            0
        } else if distance >= self.max_distance {
            GAIN_SCALE
        } else {
            let span = self.max_distance - self.min_distance;
            let offset = distance - self.min_distance;
            proof {
                lemma_scaled_ratio_bounds(
                    offset as int,
                    span as int,
                    GAIN_SCALE as int,
                    MAX_DISTANCE as int,
                );
            }
            let scaled = offset * GAIN_SCALE as i64 / span;
            scaled as i32
        }
    }
}

/// A positioned monophonic sound source.
#[derive(Clone, Copy, Debug, PartialEq, Eq, Structural)]
pub struct Emitter {
    /// The emitter's position, in fixed-point coordinates.
    pub position: Vec3,
    /// The distance range over which the emitter attenuates.
    pub distances: EmitterDistances,
    /// The attenuation curve, when distance attenuation is enabled.
    pub attenuation_function: Option<AttenuationCurve>,
    /// Whether the two-ear panning model shapes this emitter's output.
    pub enable_spatialization: bool,
    /// The mono sample the emitter produced this tick.
    pub output: i32,
}

/// A point in space, in fixed-point coordinates.
#[derive(Clone, Copy, Debug, PartialEq, Eq, Structural)]
pub struct Vec3 {
    pub x: i64,
    pub y: i64,
    pub z: i64,
}

impl Vec3 {
    /// The origin.
    pub fn zero() -> (r: Vec3)
        ensures
            r == (Vec3 { x: 0, y: 0, z: 0 }),
    {
        Vec3 { x: 0, y: 0, z: 0 }
    }
}

/// A rotation, as a quaternion in fixed-point coordinates with `GAIN_SCALE`
/// standing for 1.0. Stored for the boundary's geometry; nothing in this
/// crate computes with it.
#[derive(Clone, Copy, Debug, PartialEq, Eq, Structural)]
pub struct Quat {
    pub x: i64,
    pub y: i64,
    pub z: i64,
    pub w: i64,
}

impl Quat {
    /// The identity rotation.
    pub fn identity() -> (r: Quat)
        ensures
            r == (Quat { x: 0, y: 0, z: 0, w: GAIN_SCALE as i64 }),
    {
        Quat { x: 0, y: 0, z: 0, w: GAIN_SCALE as i64 }
    }
}

/// One emitter's input to the stereo mixdown: its mono output, the
/// amplitude its distance attenuation resolved to (when attenuation is
/// enabled), and the per-ear direction values its geometry resolved to
/// (when spatialization is enabled).
#[derive(Clone, Copy, Debug, PartialEq, Eq, Structural)]
pub struct EmitterInput {
    /// The emitter's mono output sample this tick.
    pub output: i32,
    /// The attenuation amplitude, a unit-interval gain.
    pub amplitude: Option<i32>,
    /// The per-ear direction values, each in the unit interval up to
    /// clamping.
    pub pan: Option<PanPair>,
}

/// The direction values of the two ears: for each ear,
/// `(ear_dir . normalize(emitter_pos - ear_pos) + 1) / 2`, resolved by the
/// geometry at the crate's boundary.
#[derive(Clone, Copy, Debug, PartialEq, Eq, Structural)]
pub struct PanPair {
    pub left: i32,
    pub right: i32,
}

/// One emitter's stereo contribution: its mono output broadcast to both
/// channels, scaled by the attenuation amplitude when one is given, then by
/// each ear's panning gain when spatialization is on.
pub open spec fn spec_contribution(input: EmitterInput) -> Frame {
    let broadcast = Frame { left: input.output, right: input.output };
    let attenuated = match input.amplitude {
        Option::Some(a) => spec_apply_stereo_gain(
            broadcast,
            spec_clamp_unit(a as int),
            spec_clamp_unit(a as int),
        ),
        Option::None => broadcast,
    };
    match input.pan {
        Option::Some(p) => spec_apply_stereo_gain(
            attenuated,
            spec_ear_gain(p.left as int),
            spec_ear_gain(p.right as int),
        ),
        Option::None => attenuated,
    }
}

/// The stereo sum of a scene's emitter contributions, oldest first.
pub open spec fn spec_mix(inputs: Seq<EmitterInput>) -> Frame
    decreases inputs.len(),
{
    if inputs.len() == 0 {
        spec_zero_frame()
    } else {
        spec_frame_add(spec_mix(inputs.drop_last()), spec_contribution(inputs.last()))
    }
}

/// One emitter's stereo contribution.
pub fn contribution(input: &EmitterInput) -> (r: Frame)
    ensures
        r == spec_contribution(*input),
{
    let mut frame = Frame { left: input.output, right: input.output };
    match input.amplitude {
        Option::Some(a) => {
            let gain = clamp_unit(a);
            frame = Frame {
                left: apply_gain(frame.left, gain),
                right: apply_gain(frame.right, gain),
            };
        }
        Option::None => {}
    }
    match input.pan {
        Option::Some(p) => {
            let left_gain = ear_gain(p.left);
            let right_gain = ear_gain(p.right);
            frame = Frame {
                left: apply_gain(frame.left, left_gain),
                right: apply_gain(frame.right, right_gain),
            };
        }
        Option::None => {}
    }
    frame
}

} // verus!
