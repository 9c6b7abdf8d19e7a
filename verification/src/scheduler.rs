//! The decode scheduler: the background worker that owns the decoder, holds
//! a decoded-chunk cache, serves seek and region commands, and pushes
//! timestamped frames into the frame ring for the rendering side.
//!
//! The driver loop around `run` lives at the crate's boundary: it calls
//! `run` repeatedly, sleeps briefly on `Wait`, exits on `End`, and publishes
//! any returned error.

use vstd::prelude::*;

use crate::decoder::Decoder;
use crate::decoder::DecoderError;
use crate::frame::Frame;
use crate::frame::TimestampedFrame;
use crate::frame::spec_frame_at;
use crate::frame::spec_zero_frame;
use crate::rings::CommandConsumer;
use crate::rings::FrameConsumer;
use crate::rings::FrameProducer;
use crate::rings::commands_popped;
use crate::rings::frame_push;
use crate::rings::frame_ring_capacity;
use crate::rings::frame_ring_is_full;
use crate::rings::frames_pushed;
use crate::rings::new_frame_ring;
use crate::rings::command_pop;
use crate::settings::DecodeSchedulerCommand;
use crate::settings::PlaybackState;
use crate::settings::Shared;
use crate::settings::StreamingSoundSettings;
use crate::transport::Transport;

verus! {

/// The capacity of the frame ring, in timestamped frames.
pub const FRAME_RING_CAPACITY: usize = 16384;

/// How many consecutive empty chunks a frame lookup tolerates before it
/// treats the decoder as stuck and reports an error.
pub const EMPTY_CHUNK_RETRY_LIMIT: usize = 1024;

/// What the driver loop should do after one scheduler step.
#[derive(Clone, Copy, Debug, PartialEq, Eq, Structural)]
pub enum NextStep {
    /// Call `run` again right away.
    Continue,
    /// The frame ring is full; sleep briefly, then call `run` again.
    Wait,
    /// The sound was stopped or the transport finished; exit the loop.
    End,
}

/// A contiguous run of decoded frames, covering the absolute source frames
/// `[start_index, start_index + frames.len())`.
pub struct DecodedChunk {
    pub start_index: usize,
    pub frames: Vec<Frame>,
}

impl DecodedChunk {
    /// The frame at an absolute source index, when this chunk covers it.
    pub fn frame_at_index(&self, index: usize) -> (r: Option<Frame>)
        ensures
            r is Some <==> self.start_index <= index < self.start_index + self.frames@.len(),
            r matches Some(f) ==> f == self.frames@[index - self.start_index],
    {
        if index < self.start_index {
            return Option::None;
        }
        let offset = index - self.start_index;
        if offset < self.frames.len() {
            Option::Some(self.frames[offset])
        } else {
            Option::None
        }
    }
}

/// The background worker of one streaming sound.
pub struct DecodeScheduler<D: Decoder> {
    decoder: D,
    sample_rate: u32,
    num_frames: Option<usize>,
    transport: Transport,
    decoder_current_frame_index: usize,
    decoded_chunk: Option<DecodedChunk>,
    command_consumer: CommandConsumer,
    command_capacity: usize,
    frame_producer: FrameProducer,
    shared: Shared,
}

impl<D: Decoder> DecodeScheduler<D> {
    /// The decoded timeline of the owned decoder.
    pub closed spec fn source(&self) -> Seq<Frame> {
        self.decoder.source()
    }

    /// All frames this scheduler has pushed onto the frame ring.
    pub closed spec fn produced(&self) -> Seq<TimestampedFrame> {
        frames_pushed(&self.frame_producer)
    }

    /// All commands this scheduler has consumed, oldest first.
    pub closed spec fn commands_seen(&self) -> Seq<DecodeSchedulerCommand> {
        commands_popped(&self.command_consumer)
    }

    /// The transport state.
    pub closed spec fn transport(&self) -> Transport {
        self.transport
    }

    /// The shared record as this side last saw it.
    pub closed spec fn spec_shared(&self) -> Shared {
        self.shared
    }

    /// The total frame count as the decoder reported it at construction.
    pub closed spec fn spec_num_frames(&self) -> Option<usize> {
        self.num_frames
    }

    /// The decoded-chunk cache holds a true excerpt of the source, and the
    /// tracked decoder cursor is the decoder's own.
    pub closed spec fn wf(&self) -> bool {
        &&& self.transport.wf()
        &&& self.decoder.wf()
        &&& self.source().len() <= i64::MAX
        &&& self.decoder_current_frame_index == self.decoder.cursor()
        &&& (self.decoded_chunk matches Some(c) ==> {
            &&& c.start_index + c.frames@.len() <= self.source().len()
            &&& c.frames@ == self.source().subrange(
                c.start_index as int,
                c.start_index + c.frames@.len(),
            )
        })
        &&& (self.num_frames matches Some(n) ==> n == self.source().len())
    }

    /// Builds the scheduler for a fresh decoder, together with the frame
    /// ring consumer for the rendering side. The frame ring is created with
    /// capacity `FRAME_RING_CAPACITY` and pre-seeded with one zero frame at
    /// index zero, so the renderer always has a "previous" sample for
    /// interpolation.
    pub fn new(
        decoder: D,
        settings: StreamingSoundSettings,
        shared: Shared,
        command_consumer: CommandConsumer,
    ) -> (r: Result<(DecodeScheduler<D>, FrameConsumer), DecoderError>)
        requires
            decoder.wf(),
            decoder.cursor() == 0,
            decoder.source().len() <= i64::MAX,
        ensures
            r is Ok,
            r matches Ok(pair) ==> {
                &&& pair.0.wf()
                &&& pair.0.source() == decoder.source()
                &&& pair.0.produced() == seq![
                    TimestampedFrame { frame: spec_zero_frame(), index: 0 },
                ]
                &&& pair.0.commands_seen() == commands_popped(&command_consumer)
                &&& pair.0.spec_shared() == shared
                &&& frame_ring_capacity_of(&pair.0) == FRAME_RING_CAPACITY as nat
                &&& crate::rings::frames_popped(&pair.1) == Seq::<TimestampedFrame>::empty()
                &&& pair.0.transport().playing
                &&& (pair.0.spec_num_frames() matches Some(n) ==> n == decoder.source().len())
                &&& pair.0.transport().position as int == crate::transport::spec_playback_bounds(
                    settings.playback_region,
                    pair.0.spec_num_frames(),
                ).0
                &&& pair.0.transport().playback_start as int
                    == crate::transport::spec_playback_bounds(
                    settings.playback_region,
                    pair.0.spec_num_frames(),
                ).0
                &&& pair.0.transport().playback_end as int
                    == crate::transport::spec_playback_bounds(
                    settings.playback_region,
                    pair.0.spec_num_frames(),
                ).1
                &&& pair.0.transport().loop_region == crate::transport::spec_resolve_loop(
                    settings.loop_region,
                    pair.0.spec_num_frames(),
                )
            },
    {
        let (mut frame_producer, frame_consumer) = new_frame_ring(FRAME_RING_CAPACITY);
        match frame_push(
            &mut frame_producer,
            TimestampedFrame { frame: Frame::zero(), index: 0 },
        ) {
            Result::Ok(()) => {}
            Result::Err(_) => {
                // The ring was just created with every slot free; a failed
                // push contradicts its contract.
                proof {
                    assert(false);
                }
            }
        }
        proof {
            assert(frames_pushed(&frame_producer) =~= seq![
                TimestampedFrame { frame: spec_zero_frame(), index: 0 },
            ]);
            decoder.lemma_wf_bounds();
        }
        let sample_rate = decoder.sample_rate();
        let num_frames = decoder.num_frames();
        let transport = Transport::new(settings.playback_region, settings.loop_region, num_frames);
        let scheduler = DecodeScheduler {
            decoder,
            sample_rate,
            num_frames,
            transport,
            decoder_current_frame_index: 0,
            decoded_chunk: Option::None,
            command_consumer,
            command_capacity: settings.command_capacity,
            frame_producer,
            shared,
        };
        Result::Ok((scheduler, frame_consumer))
    }

    /// The frame index the transport will emit next.
    pub fn current_frame(&self) -> (r: i64)
        ensures
            r == self.transport().position,
    {
        self.transport.position
    }

    /// The source's sample rate, as the decoder reported it at construction.
    pub closed spec fn spec_sample_rate(&self) -> u32 {
        self.sample_rate
    }

    /// The source's sample rate, as the decoder reported it at construction.
    pub fn sample_rate(&self) -> (r: u32)
        ensures
            r == self.spec_sample_rate(),
    {
        self.sample_rate
    }

    /// The total frame count, when the decoder knows it.
    pub fn num_frames(&self) -> (r: Option<usize>)
        ensures
            r == self.spec_num_frames(),
            self.wf() ==> (r matches Some(n) ==> n == self.source().len()),
    {
        self.num_frames
    }

    /// The shared record as this side last saw it.
    pub fn shared(&self) -> (r: Shared)
        ensures
            r == self.spec_shared(),
    {
        self.shared
    }

    /// Hands this side a new requested playback state.
    pub fn set_state(&mut self, state: PlaybackState)
        ensures
            final(self).spec_shared() == (Shared { state, ..old(self).spec_shared() }),
            final(self).source() == old(self).source(),
            final(self).produced() == old(self).produced(),
            final(self).commands_seen() == old(self).commands_seen(),
            final(self).transport() == old(self).transport(),
            final(self).spec_num_frames() == old(self).spec_num_frames(),
            old(self).wf() ==> final(self).wf(),
    {
        self.shared.state = state;
    }

    /// Hands this side the playback position the renderer last reported,
    /// in frames; `SeekBy` commands are based on it.
    pub fn publish_position(&mut self, position: i64)
        ensures
            final(self).spec_shared() == (Shared { position, ..old(self).spec_shared() }),
            final(self).source() == old(self).source(),
            final(self).produced() == old(self).produced(),
            final(self).commands_seen() == old(self).commands_seen(),
            final(self).transport() == old(self).transport(),
            final(self).spec_num_frames() == old(self).spec_num_frames(),
            old(self).wf() ==> final(self).wf(),
    {
        self.shared.position = position;
    }

    /// One scheduler step. In order: ends when the sound was stopped; waits
    /// when the frame ring is full; drains pending commands (boundedly, up
    /// to the command ring's capacity) and applies them in issue order;
    /// produces the frame at the transport position and pushes it,
    /// timestamped, onto the frame ring — the push cannot fail, since the
    /// fullness check established a free slot that only the consuming side
    /// can touch; advances the transport, and ends — recording that the end
    /// was reached — when the transport is no longer playing.
    pub fn run(&mut self) -> (r: Result<NextStep, DecoderError>)
        requires
            old(self).wf(),
        ensures
            final(self).wf(),
            final(self).source() == old(self).source(),
            final(self).spec_shared().state == old(self).spec_shared().state,
            final(self).spec_shared().position == old(self).spec_shared().position,
            old(self).spec_shared().reached_end ==> final(self).spec_shared().reached_end,
            old(self).commands_seen().is_prefix_of(final(self).commands_seen()),
            old(self).spec_shared().state == PlaybackState::Stopped ==> r == Result::<
                NextStep,
                DecoderError,
            >::Ok(NextStep::End) && *final(self) == *old(self),
            r matches Ok(step) && step == NextStep::Wait ==> {
                &&& final(self).produced() == old(self).produced()
                &&& final(self).transport() == old(self).transport()
                &&& final(self).commands_seen() == old(self).commands_seen()
                &&& final(self).spec_shared() == old(self).spec_shared()
                &&& frame_ring_free_of(old(self)) == 0
            },
            r is Err ==> final(self).produced() == old(self).produced() && final(self).transport()
                == spec_apply_commands(
                old(self).transport(),
                old(self).spec_shared().position,
                old(self).spec_num_frames(),
                final(self).commands_seen().skip(old(self).commands_seen().len() as int),
            ),
            r matches Ok(step) && step == NextStep::Continue ==> pushed_one_frame(
                *old(self),
                *final(self),
            ) && final(self).transport().playing,
            r matches Ok(step) && step == NextStep::End && old(self).spec_shared().state
                != PlaybackState::Stopped ==> pushed_one_frame(*old(self), *final(self))
                && !final(self).transport().playing && final(self).spec_shared().reached_end,
            ({
                &&& r is Ok
                &&& r->Ok_0 != NextStep::Wait
                &&& old(self).spec_shared().state != PlaybackState::Stopped
            }) ==> ({
                let folded = spec_apply_commands(
                    old(self).transport(),
                    old(self).spec_shared().position,
                    old(self).spec_num_frames(),
                    final(self).commands_seen().skip(old(self).commands_seen().len() as int),
                );
                &&& final(self).produced().last().index == folded.position
                &&& final(self).transport() == folded.spec_increment()
            }),
    {
        if self.shared.state == PlaybackState::Stopped {
            return Result::Ok(NextStep::End);
        }
        if frame_ring_is_full(&mut self.frame_producer) {
            return Result::Ok(NextStep::Wait);
        }
        let mut drained: usize = 0;
        while drained < self.command_capacity
            invariant
                drained <= self.command_capacity,
                old(self).spec_shared().state != PlaybackState::Stopped,
                self.wf(),
                self.source() == old(self).source(),
                self.produced() == old(self).produced(),
                self.spec_shared() == old(self).spec_shared(),
                self.command_capacity == old(self).command_capacity,
                self.num_frames == old(self).num_frames,
                self.sample_rate == old(self).sample_rate,
                crate::rings::frame_ring_free(&self.frame_producer) >= 1,
                old(self).commands_seen().is_prefix_of(self.commands_seen()),
                self.transport == spec_apply_commands(
                    old(self).transport,
                    old(self).spec_shared().position,
                    old(self).num_frames,
                    self.commands_seen().skip(old(self).commands_seen().len() as int),
                ),
            decreases self.command_capacity - drained,
        {
            let ghost prefix = self.commands_seen().skip(old(self).commands_seen().len() as int);
            match command_pop(&mut self.command_consumer) {
                Option::None => {
                    break;
                }
                Option::Some(command) => {
                    proof {
                        assert(self.commands_seen().skip(old(self).commands_seen().len() as int)
                            =~= prefix.push(command));
                        assert((prefix.push(command)).drop_last() =~= prefix);
                        assert((prefix.push(command)).last() == command);
                    }
                    match command {
                        DecodeSchedulerCommand::SetPlaybackRegion(region) => {
                            self.transport.set_playback_region(region, self.num_frames);
                        }
                        DecodeSchedulerCommand::SetLoopRegion(region) => {
                            self.transport.set_loop_region(region, self.num_frames);
                        }
                        DecodeSchedulerCommand::SeekBy(amount) => {
                            let target = clamped_add(self.shared.position, amount);
                            match self.seek_to_index(target) {
                                Result::Ok(()) => {}
                                Result::Err(e) => {
                                    return Result::Err(e);
                                }
                            }
                        }
                        DecodeSchedulerCommand::SeekTo(index) => {
                            match self.seek_to_index(index) {
                                Result::Ok(()) => {}
                                Result::Err(e) => {
                                    return Result::Err(e);
                                }
                            }
                        }
                    }
                }
            }
            drained = drained + 1;
        }
        let ghost folded = self.transport;
        let position = self.transport.position;
        let frame = match self.frame_at_index(position) {
            Result::Ok(f) => f,
            Result::Err(e) => {
                return Result::Err(e);
            }
        };
        let tf = TimestampedFrame { frame, index: position };
        match frame_push(&mut self.frame_producer, tf) {
            Result::Ok(()) => {}
            Result::Err(_) => {
                // Unreachable: a free slot was established by the fullness
                // check above, and only the consuming side frees more.
                proof {
                    assert(false);
                }
            }
        }
        self.transport.increment_position();
        proof {
            assert(self.transport == folded.spec_increment());
        }
        if !self.transport.playing {
            self.shared.reached_end = true;
            return Result::Ok(NextStep::End);
        }
        Result::Ok(NextStep::Continue)
    }

    /// The frame at an absolute timeline index: silence before the start of
    /// the timeline, the source's frame inside it. Decodes forward — seeking
    /// back first when the index lies behind the decode cursor — until the
    /// cached chunk covers the index; a decoder failure propagates.
    fn frame_at_index(&mut self, index: i64) -> (r: Result<Frame, DecoderError>)
        requires
            old(self).wf(),
        ensures
            final(self).wf(),
            final(self).source() == old(self).source(),
            final(self).transport == old(self).transport,
            final(self).produced() == old(self).produced(),
            final(self).commands_seen() == old(self).commands_seen(),
            final(self).spec_shared() == old(self).spec_shared(),
            final(self).num_frames == old(self).num_frames,
            final(self).sample_rate == old(self).sample_rate,
            final(self).command_capacity == old(self).command_capacity,
            final(self).frame_producer == old(self).frame_producer,
            r matches Ok(f) ==> f == spec_frame_at(old(self).source(), index as int) && (index >= 0
                ==> index < old(self).source().len()),
            index < 0 ==> r == Result::<Frame, DecoderError>::Ok(spec_zero_frame()),
            index >= 0 && index as int > usize::MAX as int ==> r == Result::<
                Frame,
                DecoderError,
            >::Err(DecoderError { code: 2 }),
    {
        if index < 0 {
            return Result::Ok(Frame::zero());
        }
        proof {
            self.decoder.lemma_wf_bounds();
        }
        let wide: u64 = index as u64;
        if wide > usize::MAX as u64 {
            // The index is beyond what this machine can address, hence past
            // the end of the source; decoding there cannot succeed.
            return Result::Err(DecoderError { code: 2 });
        }
        let idx: usize = wide as usize;
        match &self.decoded_chunk {
            Option::Some(chunk) => {
                match chunk.frame_at_index(idx) {
                    Option::Some(f) => {
                        return Result::Ok(f);
                    }
                    Option::None => {}
                }
            }
            Option::None => {}
        }
        if idx < self.decoder_current_frame_index {
            match self.decoder.seek(idx) {
                Result::Ok(landed) => {
                    self.decoder_current_frame_index = landed;
                }
                Result::Err(e) => {
                    return Result::Err(e);
                }
            }
        }
        let mut empties_left: usize = EMPTY_CHUNK_RETRY_LIMIT;
        loop
            invariant
                self.wf(),
                self.decoder_current_frame_index <= idx,
                self.source() == old(self).source(),
                self.transport == old(self).transport,
                self.produced() == old(self).produced(),
                self.commands_seen() == old(self).commands_seen(),
                self.spec_shared() == old(self).spec_shared(),
                self.num_frames == old(self).num_frames,
                self.sample_rate == old(self).sample_rate,
                self.command_capacity == old(self).command_capacity,
                self.frame_producer == old(self).frame_producer,
                idx == index,
                index >= 0,
            decreases idx - self.decoder_current_frame_index, empties_left,
        {
            let chunk_frames = match self.decoder.decode() {
                Result::Ok(v) => v,
                Result::Err(e) => {
                    proof {
                        self.decoder.lemma_wf_bounds();
                    }
                    return Result::Err(e);
                }
            };
            proof {
                self.decoder.lemma_wf_bounds();
            }
            let start = self.decoder_current_frame_index;
            let len = chunk_frames.len();
            self.decoder_current_frame_index = start + len;
            self.decoded_chunk = Option::Some(
                DecodedChunk { start_index: start, frames: chunk_frames },
            );
            if len == 0 {
                // An empty chunk is permitted only transiently: a decoder
                // that hands back nothing this many times in a row makes no
                // progress, and waiting on it forever would starve the ring.
                if empties_left == 0 {
                    return Result::Err(DecoderError { code: 3 });
                }
                empties_left = empties_left - 1;
            } else {
                match &self.decoded_chunk {
                    Option::Some(chunk) => {
                        match chunk.frame_at_index(idx) {
                            Option::Some(f) => {
                                return Result::Ok(f);
                            }
                            Option::None => {}
                        }
                    }
                    Option::None => {}
                }
                empties_left = EMPTY_CHUNK_RETRY_LIMIT;
            }
        }
    }

    /// Serves a seek: moves the transport cursor to `index`, then moves the
    /// decoder toward it, a negative target standing for the start of the
    /// source.
    fn seek_to_index(&mut self, index: i64) -> (r: Result<(), DecoderError>)
        requires
            old(self).wf(),
        ensures
            final(self).wf(),
            final(self).source() == old(self).source(),
            final(self).produced() == old(self).produced(),
            final(self).commands_seen() == old(self).commands_seen(),
            final(self).spec_shared() == old(self).spec_shared(),
            final(self).num_frames == old(self).num_frames,
            final(self).sample_rate == old(self).sample_rate,
            final(self).command_capacity == old(self).command_capacity,
            final(self).frame_producer == old(self).frame_producer,
            final(self).transport == old(self).transport.spec_seek(index),
    {
        self.transport.seek_to(index);
        proof {
            self.decoder.lemma_wf_bounds();
        }
        let wide: u64 = if index < 0 {
            0
        } else {
            index as u64
        };
        let target: usize = if wide > usize::MAX as u64 {
            usize::MAX
        } else {
            wide as usize
        };
        match self.decoder.seek(target) {
            Result::Ok(landed) => {
                self.decoder_current_frame_index = landed;
                Result::Ok(())
            }
            Result::Err(e) => Result::Err(e),
        }
    }
}

/// The scheduler's frame ring capacity.
pub closed spec fn frame_ring_capacity_of<D: Decoder>(s: &DecodeScheduler<D>) -> nat {
    frame_ring_capacity(&s.frame_producer)
}

/// The scheduler's known lower bound on the frame ring's free slots.
pub closed spec fn frame_ring_free_of<D: Decoder>(s: &DecodeScheduler<D>) -> nat {
    crate::rings::frame_ring_free(&s.frame_producer)
}

/// What one command does to the transport. Seek targets are resolved
/// against `position`, the renderer-published playback position, and region
/// ends against `num_frames`, the source length as the decoder reported it.
pub open spec fn spec_apply_command(
    t: Transport,
    position: i64,
    num_frames: Option<usize>,
    command: DecodeSchedulerCommand,
) -> Transport {
    match command {
        DecodeSchedulerCommand::SetPlaybackRegion(region) => {
            let bounds = crate::transport::spec_playback_bounds(region, num_frames);
            Transport { playback_start: bounds.0 as i64, playback_end: bounds.1 as i64, ..t }
        }
        DecodeSchedulerCommand::SetLoopRegion(region) => {
            Transport { loop_region: crate::transport::spec_resolve_loop(region, num_frames), ..t }
        }
        DecodeSchedulerCommand::SeekBy(amount) => {
            t.spec_seek(spec_clamped_add(position as int, amount as int) as i64)
        }
        DecodeSchedulerCommand::SeekTo(index) => t.spec_seek(index),
    }
}

/// The transport after a sequence of commands is applied in order.
pub open spec fn spec_apply_commands(
    t: Transport,
    position: i64,
    num_frames: Option<usize>,
    commands: Seq<DecodeSchedulerCommand>,
) -> Transport
    decreases commands.len(),
{
    if commands.len() == 0 {
        t
    } else {
        spec_apply_command(
            spec_apply_commands(t, position, num_frames, commands.drop_last()),
            position,
            num_frames,
            commands.last(),
        )
    }
}

/// The new scheduler state extends the old one's pushed-frame history by
/// exactly one frame, whose content is the source's frame at its stamped
/// index (silence outside the source).
pub open spec fn pushed_one_frame<D: Decoder>(
    old_s: DecodeScheduler<D>,
    new_s: DecodeScheduler<D>,
) -> bool {
    &&& new_s.produced().len() == old_s.produced().len() + 1
    &&& new_s.produced() == old_s.produced().push(new_s.produced().last())
    &&& new_s.produced().last().frame == spec_frame_at(
        new_s.source(),
        new_s.produced().last().index as int,
    )
}

/// Addition on frame counts, clamped to the representable range. A seek
/// whose target cannot be represented is clamped to the nearest
/// representable frame index.
pub fn clamped_add(a: i64, b: i64) -> (r: i64)
    ensures
        r as int == spec_clamped_add(a as int, b as int),
{
    if b >= 0 {
        if a > i64::MAX - b {
            i64::MAX
        } else {
            a + b
        }
    } else {
        if a < i64::MIN - b {
            i64::MIN
        } else {
            a + b
        }
    }
}

/// A sum of frame counts clamped to the range of `i64`.
pub open spec fn spec_clamped_add(a: int, b: int) -> int {
    if a + b > i64::MAX as int {
        i64::MAX as int
    } else if a + b < i64::MIN as int {
        i64::MIN as int
    } else {
        a + b
    }
}

} // verus!
