//! The transport: a position cursor plus a playing flag, parameterized by a
//! playback region and an optional loop region.
//!
//! Regions are half-open frame ranges `[start, end)`. An absent region end
//! means "to the end of the source"; when the source length is unknown the
//! end defaults to `i64::MAX`.

use vstd::prelude::*;

verus! {

/// A half-open range `[start, end)` of frame indices. `end == None` means
/// "to the end of the source".
#[derive(Clone, Copy, Debug, PartialEq, Eq, Structural)]
pub struct Region {
    pub start: i64,
    pub end: Option<i64>,
}

impl Region {
    /// The region covering the whole source.
    pub fn full() -> (r: Region)
        ensures
            r.start == 0,
            r.end is None,
    {
        Region { start: 0, end: None }
    }
}

/// The frame index a region's end resolves to: the explicit end if given,
/// else the source length if known, else `i64::MAX`.
pub open spec fn spec_resolve_end(end: Option<i64>, num_frames: Option<usize>) -> int {
    match end {
        Option::Some(e) => e as int,
        Option::None => match num_frames {
            Option::Some(n) => n as int,
            Option::None => i64::MAX as int,
        },
    }
}

/// Resolves a region end to a concrete frame index.
pub fn resolve_end(end: Option<i64>, num_frames: Option<usize>) -> (r: i64)
    requires
        num_frames is Some ==> num_frames->0 <= i64::MAX,
    ensures
        r as int == spec_resolve_end(end, num_frames),
{
    match end {
        Option::Some(e) => e,
        Option::None => match num_frames {
            Option::Some(n) => n as i64,
            Option::None => i64::MAX,
        },
    }
}

/// A requested region start clamped to the start of the timeline: the
/// control plane speaks in nonnegative offsets, so a negative start stands
/// for zero.
pub open spec fn spec_clamp_start(start: i64) -> int {
    if start < 0 {
        0
    } else {
        start as int
    }
}

/// The playback bounds a region request resolves to: the clamped start, and
/// an end no smaller than the start (an inverted request yields an empty
/// region).
pub open spec fn spec_playback_bounds(region: Region, num_frames: Option<usize>) -> (int, int) {
    let start = spec_clamp_start(region.start);
    let end = spec_resolve_end(region.end, num_frames);
    (start, if end < start { start } else { end })
}

/// A resolved loop region: both bounds concrete, in frames.
#[derive(Clone, Copy, Debug, PartialEq, Eq, Structural)]
pub struct LoopFrames {
    pub start: i64,
    pub end: i64,
}

/// The position/playing state machine driving what frame to emit next.
#[derive(Clone, Copy, Debug, PartialEq, Eq, Structural)]
pub struct Transport {
    /// The next frame index to emit. May be negative (pre-start silence).
    pub position: i64,
    /// True until the position exits the playback region in the forward
    /// direction without a loop wrapping it back in.
    pub playing: bool,
    /// First frame of the playback region.
    pub playback_start: i64,
    /// One past the last frame of the playback region.
    pub playback_end: i64,
    /// When set, the transport wraps instead of ending.
    pub loop_region: Option<LoopFrames>,
}

impl Transport {
    /// Well-formedness: region bounds are ordered and nonnegative, and a
    /// loop region is a nonempty range of nonnegative frame indices.
    pub open spec fn wf(self) -> bool {
        &&& 0 <= self.playback_start <= self.playback_end
        &&& (self.loop_region matches Some(l) ==> 0 <= l.start < l.end)
    }

    /// Whether `index` lies inside the playback region.
    pub open spec fn spec_in_playback_region(self, index: i64) -> bool {
        self.playback_start <= index < self.playback_end
    }

    /// Builds a transport from a playback region and an optional loop
    /// region, with the cursor at the playback region's start.
    ///
    /// A loop is permitted only when both its bounds are concrete: when the
    /// loop region's end is open and the source length is unknown, no loop
    /// is installed.
    pub fn new(
        playback_region: Region,
        loop_region: Option<Region>,
        num_frames: Option<usize>,
    ) -> (r: Transport)
        requires
            num_frames matches Some(n) ==> n <= i64::MAX,
        ensures
            r.position as int == spec_playback_bounds(playback_region, num_frames).0,
            r.playing,
            r.playback_start as int == spec_playback_bounds(playback_region, num_frames).0,
            r.playback_end as int == spec_playback_bounds(playback_region, num_frames).1,
            r.loop_region == spec_resolve_loop(loop_region, num_frames),
            r.wf(),
    {
        let start = if playback_region.start < 0 {
            0
        } else {
            playback_region.start
        };
        let end = resolve_end(playback_region.end, num_frames);
        let playback_end = if end < start {
            start
        } else {
            end
        };
        Transport {
            position: start,
            playing: true,
            playback_start: start,
            playback_end,
            loop_region: resolve_loop(loop_region, num_frames),
        }
    }

    /// Replaces the playback region's bounds. Does not move the cursor.
    pub fn set_playback_region(
        &mut self,
        playback_region: Region,
        num_frames: Option<usize>,
    )
        requires
            old(self).wf(),
            num_frames matches Some(n) ==> n <= i64::MAX,
        ensures
            final(self).position == old(self).position,
            final(self).playing == old(self).playing,
            final(self).loop_region == old(self).loop_region,
            final(self).playback_start as int == spec_playback_bounds(playback_region, num_frames).0,
            final(self).playback_end as int == spec_playback_bounds(playback_region, num_frames).1,
            final(self).wf(),
    {
        let start = if playback_region.start < 0 {
            0
        } else {
            playback_region.start
        };
        let end = resolve_end(playback_region.end, num_frames);
        self.playback_start = start;
        self.playback_end = if end < start {
            start
        } else {
            end
        };
    }

    /// Replaces the loop region. Does not move the cursor; the new region
    /// takes effect at the next wrap point.
    pub fn set_loop_region(
        &mut self,
        loop_region: Option<Region>,
        num_frames: Option<usize>,
    )
        requires
            old(self).wf(),
            num_frames matches Some(n) ==> n <= i64::MAX,
        ensures
            final(self).position == old(self).position,
            final(self).playing == old(self).playing,
            final(self).playback_start == old(self).playback_start,
            final(self).playback_end == old(self).playback_end,
            final(self).loop_region == spec_resolve_loop(loop_region, num_frames),
            final(self).wf(),
    {
        self.loop_region = resolve_loop(loop_region, num_frames);
    }

    /// The transport after one frame is emitted: the position advances by
    /// one; if a loop region is set and the new position has reached its
    /// end, the position wraps back by the loop's length; otherwise, if the
    /// new position has reached the playback region's end, playing stops.
    pub open spec fn spec_increment(self) -> Transport {
        let next = self.position as int + 1;
        if self.loop_region is Some && next >= self.loop_region->0.end {
            let l = self.loop_region->0;
            Transport { position: (next - (l.end - l.start)) as i64, ..self }
        } else if next >= self.playback_end {
            let clamped = if next > i64::MAX { i64::MAX as int } else { next };
            Transport { position: clamped as i64, playing: false, ..self }
        } else {
            Transport { position: next as i64, ..self }
        }
    }

    /// Advances the position by one frame, wrapping at the loop region's
    /// end or stopping at the playback region's end.
    pub fn increment_position(&mut self)
        requires
            old(self).wf(),
        ensures
            *final(self) == old(self).spec_increment(),
            final(self).wf(),
    {
        match self.loop_region {
            Option::Some(l) => {
                if self.position >= l.end - 1 {
                    self.position = self.position - (l.end - l.start) + 1;
                    return;
                }
            }
            Option::None => {}
        }
        if self.position == i64::MAX {
            self.playing = false;
        } else if self.position + 1 >= self.playback_end {
            self.position = self.position + 1;
            self.playing = false;
        } else {
            self.position = self.position + 1;
        }
    }

    /// The transport after a seek: the cursor moves to `index`, and playing
    /// resumes if `index` lies inside the playback region.
    pub open spec fn spec_seek(self, index: i64) -> Transport {
        Transport {
            position: index,
            playing: if self.spec_in_playback_region(index) {
                true
            } else {
                self.playing
            },
            ..self
        }
    }

    /// Moves the cursor to `index`; if `index` lies inside the playback
    /// region, the transport is playing again.
    pub fn seek_to(&mut self, index: i64)
        requires
            old(self).wf(),
        ensures
            *final(self) == old(self).spec_seek(index),
            final(self).wf(),
    {
        self.position = index;
        if self.playback_start <= index && index < self.playback_end {
            self.playing = true;
        }
    }
}

/// Once the cursor has entered a loop region `[start, end)`, advancing the
/// transport keeps it there: every frame index the transport emits from then
/// on lies inside the loop region.
pub proof fn lemma_loop_keeps_position_inside(t: Transport)
    requires
        t.wf(),
        t.loop_region matches Some(l) ==> l.start <= t.position < l.end,
        t.loop_region is Some,
    ensures
        t.spec_increment().loop_region->0.start <= t.spec_increment().position
            < t.spec_increment().loop_region->0.end,
{
}

/// Seek idempotence: seeking to an index twice in a row leaves the
/// transport exactly as seeking to it once does, so the subsequent output
/// stream is identical.
pub proof fn lemma_seek_idempotent(t: Transport, index: i64)
    ensures
        t.spec_seek(index).spec_seek(index) == t.spec_seek(index),
{
}

/// Round-trip seek: from a cursor at `position`, seeking forward by `delta`
/// frames and then back by the same amount returns the cursor exactly to
/// where it was. (Seeks denominated in seconds may round the frame count
/// once at the boundary; the frame-level round trip is exact.)
pub proof fn lemma_seek_round_trip(t: Transport, delta: i64)
    requires
        i64::MIN <= t.position + delta <= i64::MAX,
    ensures
        t.spec_seek((t.position + delta) as i64).spec_seek(
            ((t.position + delta) as i64 - delta) as i64,
        ).position == t.position,
{
}

/// Region update commutativity: installing a loop region that does not
/// contain the current position moves neither the cursor nor the playing
/// flag, so the current frame is unchanged; the new region takes effect
/// only at the next wrap point, and before the new region's end is reached
/// the position advances as if no loop were set.
pub proof fn lemma_loop_region_update_preserves_current(
    t: Transport,
    loop_region: Option<Region>,
    num_frames: Option<usize>,
    source: Seq<crate::frame::Frame>,
)
    requires
        t.wf(),
        spec_resolve_loop(loop_region, num_frames) matches Some(l)
            ==> !(l.start <= t.position < l.end),
    ensures
        ({
            let t2 = Transport { loop_region: spec_resolve_loop(loop_region, num_frames), ..t };
            &&& t2.position == t.position
            &&& t2.playing == t.playing
            &&& crate::frame::spec_frame_at(source, t2.position as int)
                == crate::frame::spec_frame_at(source, t.position as int)
            &&& (t2.loop_region matches Some(l) && t2.position + 1 < l.end
                ==> t2.spec_increment().position
                    == Transport { loop_region: Option::None, ..t }.spec_increment().position)
        }),
{
}

/// Between seeks and loop wraps, emitted frame indices are strictly
/// increasing: advancing a transport that does not wrap moves the position
/// forward by exactly one frame, so the indices the scheduler stamps on
/// successive frames are monotonically non-decreasing across a contiguous
/// region.
pub proof fn lemma_increment_monotone(t: Transport)
    requires
        t.wf(),
        t.loop_region matches Some(l) ==> t.position + 1 < l.end,
    ensures
        t.position < i64::MAX ==> t.spec_increment().position == t.position + 1,
        t.spec_increment().position >= t.position,
{
}

/// The loop region a request resolves to: both bounds must be concrete, so
/// a request whose end cannot be resolved to a real frame index installs no
/// loop. An empty or inverted range installs no loop either.
pub open spec fn spec_resolve_loop(
    loop_region: Option<Region>,
    num_frames: Option<usize>,
) -> Option<LoopFrames> {
    match loop_region {
        Option::Some(r) => {
            if r.end is None && num_frames is None {
                Option::None
            } else {
                let start = spec_clamp_start(r.start);
                let end = spec_resolve_end(r.end, num_frames);
                if start < end {
                    Option::Some(LoopFrames { start: start as i64, end: end as i64 })
                } else {
                    Option::None
                }
            }
        }
        Option::None => Option::None,
    }
}

/// Resolves a loop region request to concrete frame bounds.
pub fn resolve_loop(
    loop_region: Option<Region>,
    num_frames: Option<usize>,
) -> (r: Option<LoopFrames>)
    requires
        num_frames matches Some(n) ==> n <= i64::MAX,
    ensures
        r == spec_resolve_loop(loop_region, num_frames),
        r matches Some(l) ==> 0 <= l.start < l.end,
{
    match loop_region {
        Option::Some(reg) => {
            match (reg.end, num_frames) {
                (Option::None, Option::None) => Option::None,
                _ => {
                    let start = if reg.start < 0 {
                        0
                    } else {
                        reg.start
                    };
                    let end = resolve_end(reg.end, num_frames);
                    if start < end {
                        Option::Some(LoopFrames { start, end })
                    } else {
                        Option::None
                    }
                }
            }
        }
        Option::None => Option::None,
    }
}

} // verus!
