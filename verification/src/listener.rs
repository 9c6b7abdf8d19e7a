//! The listener: the point of view that combines a scene's emitters into
//! one stereo frame.
//!
//! The listener's position and orientation feed the ear geometry, which is
//! floating-point work done at the crate's boundary; `process` takes each
//! emitter's resolved mixdown input and owns the gain and summation math.

use vstd::prelude::*;

use crate::frame::Frame;
use crate::spatial::EmitterInput;
use crate::spatial::Quat;
use crate::spatial::Vec3;
use crate::spatial::contribution;
use crate::spatial::spec_mix;

verus! {

/// A mixer track a listener's output is routed to.
#[derive(Clone, Copy, Debug, PartialEq, Eq, Structural)]
pub enum TrackId {
    /// The main mixer track.
    Main,
    /// A sub-track, by its index.
    Sub(u64),
}

/// Settings for a listener.
#[derive(Clone, Copy, Debug, PartialEq, Eq, Structural)]
pub struct ListenerSettings {
    /// The mixer track the listener's output is routed to.
    pub track: TrackId,
}

impl ListenerSettings {
    /// The default settings: route to the main mixer track.
    pub fn new() -> (r: ListenerSettings)
        ensures
            r.track == TrackId::Main,
    {
        ListenerSettings { track: TrackId::Main }
    }
}

/// A stable key into an arena of scene objects: an index together with a
/// generation counter, so a reused slot is told apart from its former
/// occupant.
#[derive(Clone, Copy, Debug, PartialEq, Eq, Structural)]
pub struct ArenaKey {
    pub index: usize,
    pub generation: usize,
}

/// A unique identifier for a spatial scene.
#[derive(Clone, Copy, Debug, PartialEq, Eq, Structural)]
pub struct SpatialSceneId {
    pub key: ArenaKey,
}

/// A unique identifier for a listener.
#[derive(Clone, Copy, Debug, PartialEq, Eq, Structural)]
pub struct ListenerId {
    pub key: ArenaKey,
    pub scene_id: SpatialSceneId,
}

impl ListenerId {
    /// The spatial scene this listener belongs to.
    pub fn scene(&self) -> (r: SpatialSceneId)
        ensures
            r == self.scene_id,
    {
        self.scene_id
    }
}

/// The flag connecting a listener's handle to the scene that owns the
/// listener: dropping the handle marks the listener for removal.
pub struct ListenerShared {
    removed: bool,
}

impl ListenerShared {
    /// A fresh flag: not marked for removal.
    pub fn new() -> (r: ListenerShared)
        ensures
            !r.spec_is_marked_for_removal(),
    {
        ListenerShared { removed: false }
    }

    /// Whether the listener was marked for removal.
    pub closed spec fn spec_is_marked_for_removal(&self) -> bool {
        self.removed
    }

    /// Whether the listener was marked for removal.
    pub fn is_marked_for_removal(&self) -> (r: bool)
        ensures
            r == self.spec_is_marked_for_removal(),
    {
        self.removed
    }

    /// Marks the listener for removal. The mark is never taken back.
    pub fn mark_for_removal(&mut self)
        ensures
            final(self).spec_is_marked_for_removal(),
    {
        self.removed = true;
    }
}

/// A listener in a spatial scene.
pub struct Listener {
    shared: ListenerShared,
    position: Vec3,
    orientation: Quat,
    track: TrackId,
}

impl Listener {
    /// The listener's position.
    pub closed spec fn spec_position(&self) -> Vec3 {
        self.position
    }

    /// The listener's orientation.
    pub closed spec fn spec_orientation(&self) -> Quat {
        self.orientation
    }

    /// Whether this listener was marked for removal.
    pub closed spec fn spec_marked(&self) -> bool {
        self.shared.spec_is_marked_for_removal()
    }

    /// Builds a listener at a position and orientation, routed to the track
    /// the settings name, not marked for removal.
    pub fn new(position: Vec3, orientation: Quat, settings: ListenerSettings) -> (r: Listener)
        ensures
            r.spec_position() == position,
            r.spec_orientation() == orientation,
            r.spec_track() == settings.track,
            !r.spec_marked(),
    {
        Listener { shared: ListenerShared::new(), position, orientation, track: settings.track }
    }

    /// The removal flag shared with the listener's handle.
    pub fn shared(&self) -> (r: &ListenerShared)
        ensures
            r.spec_is_marked_for_removal() == self.spec_marked(),
    {
        &self.shared
    }

    /// Marks this listener for removal.
    pub fn mark_for_removal(&mut self)
        ensures
            final(self).spec_marked(),
            final(self).spec_position() == old(self).spec_position(),
            final(self).spec_orientation() == old(self).spec_orientation(),
            final(self).spec_track() == old(self).spec_track(),
    {
        self.shared.mark_for_removal();
    }

    /// The mixer track this listener's output is routed to.
    pub closed spec fn spec_track(&self) -> TrackId {
        self.track
    }

    /// The mixer track this listener's output is routed to.
    pub fn track(&self) -> (r: TrackId)
        ensures
            r == self.spec_track(),
    {
        self.track
    }

    /// The listener's position.
    pub fn position(&self) -> (r: Vec3)
        ensures
            r == self.spec_position(),
    {
        self.position
    }

    /// The listener's orientation.
    pub fn orientation(&self) -> (r: Quat)
        ensures
            r == self.spec_orientation(),
    {
        self.orientation
    }

    /// Moves the listener.
    pub fn set_position(&mut self, position: Vec3)
        ensures
            final(self).spec_position() == position,
            final(self).spec_orientation() == old(self).spec_orientation(),
            final(self).spec_track() == old(self).spec_track(),
            final(self).spec_marked() == old(self).spec_marked(),
    {
        self.position = position;
    }

    /// Turns the listener.
    pub fn set_orientation(&mut self, orientation: Quat)
        ensures
            final(self).spec_orientation() == orientation,
            final(self).spec_position() == old(self).spec_position(),
            final(self).spec_track() == old(self).spec_track(),
            final(self).spec_marked() == old(self).spec_marked(),
    {
        self.orientation = orientation;
    }

    /// Combines the scene's emitters into one stereo frame: each emitter's
    /// mono output is broadcast into stereo, scaled by its attenuation
    /// amplitude when attenuation is enabled and by each ear's panning gain
    /// when spatialization is enabled, and the contributions are summed.
    /// Iteration order cannot matter more than the saturating sum lets it;
    /// the result is exactly the fold of the inputs in order. No clipping
    /// beyond saturation is applied here.
    pub fn process(&self, emitters: &Vec<EmitterInput>) -> (r: Frame)
        ensures
            r == spec_mix(emitters@),
    {
        let mut output = Frame::zero();
        let mut i: usize = 0;
        while i < emitters.len()
            invariant
                i <= emitters@.len(),
                output == spec_mix(emitters@.take(i as int)),
            decreases emitters@.len() - i,
        {
            let piece = contribution(&emitters[i]);
            output = output.add(piece);
            i = i + 1;
            proof {
                assert(emitters@.take(i as int).drop_last() =~= emitters@.take(i as int - 1));
                assert(emitters@.take(i as int).last() == emitters@[i as int - 1]);
            }
        }
        proof {
            assert(emitters@.take(emitters@.len() as int) =~= emitters@);
        }
        output
    }
}

} // verus!
