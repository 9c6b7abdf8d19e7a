//! The rendering side of a streaming sound: runs on the audio thread, pops
//! timestamped frames from the frame ring, and produces one stereo frame
//! per backend sample. It never blocks and never allocates: when the ring
//! is empty it outputs silence (an underrun).
//!
//! After a seek, frames of the pre-seek timeline may still sit in the ring;
//! the renderer is told the seek target and discards frames until the frame
//! stamped with that target index arrives.

use vstd::prelude::*;

use crate::frame::Frame;
use crate::frame::TimestampedFrame;
use crate::frame::spec_zero_frame;
use crate::rings::FrameConsumer;
use crate::rings::frame_pop;
use crate::rings::frames_popped;
use crate::scheduler::FRAME_RING_CAPACITY;
use crate::scheduler::clamped_add;
use crate::scheduler::spec_clamped_add;
use crate::settings::PlaybackState;

verus! {

/// Whether the renderer takes a popped frame as its next output: while a
/// seek is pending only the frame stamped with the seek's target index is
/// taken, and every other frame is stale and discarded.
pub open spec fn spec_accepts(pending_seek: Option<i64>, tf: TimestampedFrame) -> bool {
    match pending_seek {
        Option::Some(target) => tf.index == target,
        Option::None => true,
    }
}

/// The audio-thread side of a streaming sound.
pub struct StreamingSound {
    frame_consumer: FrameConsumer,
    previous: Frame,
    cursor: i64,
    pending_seek: Option<i64>,
    state: PlaybackState,
}

impl StreamingSound {
    /// All frames this side has popped off the frame ring, oldest first.
    pub closed spec fn popped(&self) -> Seq<TimestampedFrame> {
        frames_popped(&self.frame_consumer)
    }

    /// The playback cursor: one past the index of the last frame output.
    pub closed spec fn spec_cursor(&self) -> i64 {
        self.cursor
    }

    /// The seek target this side still waits for, if any.
    pub closed spec fn spec_pending_seek(&self) -> Option<i64> {
        self.pending_seek
    }

    /// The playback state of this side.
    pub closed spec fn spec_state(&self) -> PlaybackState {
        self.state
    }

    /// The last frame output: the "previous" sample of the interpolation
    /// window.
    pub closed spec fn spec_previous(&self) -> Frame {
        self.previous
    }

    /// Takes ownership of the frame ring's consuming end. Consumes the
    /// pre-seeded zero frame, when it is already there, as the initial
    /// "previous" sample of the interpolation window.
    pub fn new(frame_consumer: FrameConsumer) -> (r: StreamingSound)
        ensures
            frames_popped(&frame_consumer).is_prefix_of(r.popped()),
            r.popped().len() <= frames_popped(&frame_consumer).len() + 1,
            r.popped().len() > frames_popped(&frame_consumer).len() ==> r.spec_previous()
                == r.popped().last().frame,
            r.popped().len() == frames_popped(&frame_consumer).len() ==> r.spec_previous()
                == spec_zero_frame(),
            r.spec_cursor() == 0,
            r.spec_pending_seek() is None,
            r.spec_state() == PlaybackState::Playing,
    {
        let mut frame_consumer = frame_consumer;
        let previous = match frame_pop(&mut frame_consumer) {
            Option::Some(tf) => tf.frame,
            Option::None => Frame::zero(),
        };
        StreamingSound {
            frame_consumer,
            previous,
            cursor: 0,
            pending_seek: Option::None,
            state: PlaybackState::Playing,
        }
    }

    /// The position this side publishes for the control plane: the playback
    /// cursor, in frames.
    pub fn position(&self) -> (r: i64)
        ensures
            r == self.spec_cursor(),
    {
        self.cursor
    }

    /// The playback state of this side.
    pub fn playback_state(&self) -> (r: PlaybackState)
        ensures
            r == self.spec_state(),
    {
        self.state
    }

    /// An external state command: start, pause, resume or stop.
    pub fn set_state(&mut self, state: PlaybackState)
        ensures
            final(self).spec_state() == state,
            final(self).popped() == old(self).popped(),
            final(self).spec_cursor() == old(self).spec_cursor(),
            final(self).spec_pending_seek() == old(self).spec_pending_seek(),
            final(self).spec_previous() == old(self).spec_previous(),
    {
        self.state = state;
    }

    /// Tells this side a seek was issued: frames still in flight from
    /// before the seek are stale, and output resumes at the frame stamped
    /// with the target index.
    pub fn seek_to(&mut self, index: i64)
        ensures
            final(self).spec_pending_seek() == Option::Some(index),
            final(self).popped() == old(self).popped(),
            final(self).spec_cursor() == old(self).spec_cursor(),
            final(self).spec_state() == old(self).spec_state(),
            final(self).spec_previous() == old(self).spec_previous(),
    {
        self.pending_seek = Option::Some(index);
    }

    /// Produces one output frame. Pops frames off the ring, discarding
    /// stale ones while a seek is pending, and outputs the first one taken;
    /// advances the playback cursor past the taken frame's index. When the
    /// ring is empty this is an underrun: the output is silence, and when
    /// the decoding side has additionally reported the end of the sound,
    /// the state becomes `Stopped`. Never blocks: at most a ring's worth of
    /// stale frames is examined per call.
    pub fn next_frame(&mut self, reached_end: bool) -> (r: Frame)
        ensures
            old(self).popped().is_prefix_of(final(self).popped()),
            ({
                let news = final(self).popped().skip(old(self).popped().len() as int);
                ||| {
                    &&& news.len() > 0
                    &&& spec_accepts(old(self).spec_pending_seek(), news.last())
                    &&& (forall|i: int|
                        0 <= i < news.len() - 1 ==> !spec_accepts(
                            old(self).spec_pending_seek(),
                            #[trigger] news[i],
                        ))
                    &&& r == news.last().frame
                    &&& final(self).spec_previous() == news.last().frame
                    &&& final(self).spec_cursor() as int == spec_clamped_add(
                        news.last().index as int,
                        1,
                    )
                    &&& final(self).spec_pending_seek() is None
                    &&& final(self).spec_state() == old(self).spec_state()
                }
                ||| {
                    &&& (forall|i: int|
                        0 <= i < news.len() ==> !spec_accepts(
                            old(self).spec_pending_seek(),
                            #[trigger] news[i],
                        ))
                    &&& r == spec_zero_frame()
                    &&& final(self).spec_cursor() == old(self).spec_cursor()
                    &&& final(self).spec_pending_seek() == old(self).spec_pending_seek()
                    &&& final(self).spec_previous() == old(self).spec_previous()
                    &&& (final(self).spec_state() == old(self).spec_state() || (reached_end
                        && final(self).spec_state() == PlaybackState::Stopped))
                }
            }),
    {
        let mut discarded: usize = 0;
        while discarded < FRAME_RING_CAPACITY
            invariant
                discarded <= FRAME_RING_CAPACITY,
                self.pending_seek == old(self).pending_seek,
                self.cursor == old(self).cursor,
                self.state == old(self).state,
                self.previous == old(self).previous,
                old(self).popped().is_prefix_of(self.popped()),
                forall|i: int|
                    old(self).popped().len() <= i < self.popped().len() ==> !spec_accepts(
                        old(self).spec_pending_seek(),
                        #[trigger] self.popped()[i],
                    ),
            decreases FRAME_RING_CAPACITY - discarded,
        {
            match frame_pop(&mut self.frame_consumer) {
                Option::None => {
                    if reached_end {
                        self.state = PlaybackState::Stopped;
                    }
                    return Frame::zero();
                }
                Option::Some(tf) => {
                    let take = match self.pending_seek {
                        Option::Some(target) => tf.index == target,
                        Option::None => true,
                    };
                    if take {
                        self.pending_seek = Option::None;
                        self.previous = tf.frame;
                        self.cursor = clamped_add(tf.index, 1);
                        return tf.frame;
                    }
                    discarded = discarded + 1;
                }
            }
        }
        Frame::zero()
    }
}

} // verus!
