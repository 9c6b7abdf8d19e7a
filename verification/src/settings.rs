//! Playback state, the shared state record, streaming-sound settings, and
//! the commands a streaming sound accepts.

use vstd::prelude::*;

use crate::transport::Region;

verus! {

/// The playback state of a streaming sound.
#[derive(Clone, Copy, Debug, PartialEq, Eq, Structural)]
pub enum PlaybackState {
    Playing,
    Paused,
    Stopped,
}

/// The small record connecting the decoding side and the rendering side:
/// the requested playback state, the last position the renderer reported
/// (in frames), and whether the transport has finished.
///
/// In a running engine each field is published through an atomic cell at
/// the crate's boundary; the decoding side works on the values it was last
/// handed.
#[derive(Clone, Copy, Debug, PartialEq, Eq, Structural)]
pub struct Shared {
    /// The requested playback state. `Stopped` is the cancellation signal.
    pub state: PlaybackState,
    /// The playback position last reported by the renderer, in frames.
    pub position: i64,
    /// Set once the transport finishes.
    pub reached_end: bool,
}

impl Shared {
    /// A fresh record: playing, at the start, end not reached.
    pub fn new() -> (r: Shared)
        ensures
            r.state == PlaybackState::Playing,
            r.position == 0,
            !r.reached_end,
    {
        Shared { state: PlaybackState::Playing, position: 0, reached_end: false }
    }
}

/// A command served by the decode scheduler. Seek amounts and targets are
/// in frames; a control plane that speaks in seconds converts at the
/// boundary using the source's sample rate.
#[derive(Clone, Copy, Debug, PartialEq, Eq, Structural)]
pub enum DecodeSchedulerCommand {
    SetPlaybackRegion(Region),
    SetLoopRegion(Option<Region>),
    SeekBy(i64),
    SeekTo(i64),
}

/// Settings for a streaming sound.
#[derive(Clone, Copy, Debug, PartialEq, Eq, Structural)]
pub struct StreamingSoundSettings {
    /// The half-open frame range within which the transport plays.
    pub playback_region: Region,
    /// When set, the transport wraps at this region's end.
    pub loop_region: Option<Region>,
    /// Capacity of the command ring.
    pub command_capacity: usize,
    /// Capacity of the error ring.
    pub error_capacity: usize,
}

impl StreamingSoundSettings {
    /// The default settings: play the whole source, no loop, eight pending
    /// commands, one pending error.
    pub fn new() -> (r: StreamingSoundSettings)
        ensures
            r.playback_region.start == 0,
            r.playback_region.end is None,
            r.loop_region is None,
            r.command_capacity == 8,
            r.error_capacity == 1,
    {
        StreamingSoundSettings {
            playback_region: Region { start: 0, end: Option::None },
            loop_region: Option::None,
            command_capacity: 8,
            error_capacity: 1,
        }
    }

    /// The same settings with the playback region replaced.
    pub fn playback_region(self, region: Region) -> (r: StreamingSoundSettings)
        ensures
            r == (StreamingSoundSettings { playback_region: region, ..self }),
    {
        StreamingSoundSettings { playback_region: region, ..self }
    }

    /// The same settings with the loop region replaced.
    pub fn loop_region(self, region: Option<Region>) -> (r: StreamingSoundSettings)
        ensures
            r == (StreamingSoundSettings { loop_region: region, ..self }),
    {
        StreamingSoundSettings { loop_region: region, ..self }
    }
}

/// Settings assembled from optional fields, as a scripting or configuration
/// layer hands them over: an absent field keeps the default.
pub fn settings_from_fields(
    playback_region: Option<Region>,
    loop_region: Option<Region>,
    command_capacity: Option<usize>,
    error_capacity: Option<usize>,
) -> (r: StreamingSoundSettings)
    ensures
        r.playback_region == (if playback_region is Some {
            playback_region->0
        } else {
            Region { start: 0, end: Option::None }
        }),
        r.loop_region == loop_region,
        r.command_capacity == (if command_capacity is Some {
            command_capacity->0
        } else {
            8
        }),
        r.error_capacity == (if error_capacity is Some {
            error_capacity->0
        } else {
            1
        }),
{
    let defaults = StreamingSoundSettings::new();
    StreamingSoundSettings {
        playback_region: match playback_region {
            Option::Some(r) => r,
            Option::None => defaults.playback_region,
        },
        loop_region,
        command_capacity: match command_capacity {
            Option::Some(c) => c,
            Option::None => defaults.command_capacity,
        },
        error_capacity: match error_capacity {
            Option::Some(c) => c,
            Option::None => defaults.error_capacity,
        },
    }
}

/// Loop settings assembled from optional fields, as a scripting layer hands
/// them over: an absent field keeps the default.
pub fn loop_settings_from_fields(start: Option<i64>, end: Option<i64>) -> (r: Region)
    ensures
        r.start == (if start is Some { start->0 } else { 0 }),
        r.end == end,
{
    Region {
        start: match start {
            Option::Some(s) => s,
            Option::None => 0,
        },
        end,
    }
}

} // verus!
