//! Lock-free single-producer/single-consumer rings, one for decoded frames
//! and one for scheduler commands.
//!
//! Both rings are `ringbuf` heap ring buffers. Each endpoint is held in a
//! struct of this crate and driven through a small trusted surface. The
//! contracts speak of each endpoint's own history: the sequence of items it
//! has pushed, or popped, since the ring was created. A history is local to
//! its endpoint, so it is meaningful even while the other endpoint lives on
//! another thread; what the other thread has done is never stated.

use vstd::prelude::*;

use crate::frame::TimestampedFrame;
use crate::settings::DecodeSchedulerCommand;

verus! {

/// The producing endpoint of the frame ring.
#[verifier::external_body]
pub struct FrameProducer {
    inner: ringbuf::HeapProducer<TimestampedFrame>,
}

/// The consuming endpoint of the frame ring.
#[verifier::external_body]
pub struct FrameConsumer {
    inner: ringbuf::HeapConsumer<TimestampedFrame>,
}

/// All frames this endpoint has pushed onto its ring, oldest first.
pub uninterp spec fn frames_pushed(p: &FrameProducer) -> Seq<TimestampedFrame>;

/// All frames this endpoint has popped off its ring, oldest first.
pub uninterp spec fn frames_popped(c: &FrameConsumer) -> Seq<TimestampedFrame>;

/// The capacity the frame ring was created with.
pub uninterp spec fn frame_ring_capacity(p: &FrameProducer) -> nat;

/// A lower bound on the ring's free slots, maintained with the producing
/// endpoint. It is a sound producer-side quantity: only this endpoint fills
/// slots, and the other endpoint only frees them, so a bound established at
/// creation, by a failed fullness check, or left over after a push stays
/// valid until the next push.
pub uninterp spec fn frame_ring_free(p: &FrameProducer) -> nat;

/// Relies on `ringbuf::HeapRb::new` and `SharedRb::split`: a bounded ring
/// of the given capacity, handed out as one producer and one consumer, both
/// with empty histories; every slot of the fresh ring is free. `HeapRb::new`
/// panics on capacity zero.
#[verifier::external_body]
pub fn new_frame_ring(capacity: usize) -> (r: (FrameProducer, FrameConsumer))
    requires
        capacity >= 1,
    ensures
        frames_pushed(&r.0) == Seq::<TimestampedFrame>::empty(),
        frames_popped(&r.1) == Seq::<TimestampedFrame>::empty(),
        frame_ring_capacity(&r.0) == capacity,
        frame_ring_free(&r.0) == capacity,
{
    let (producer, consumer) = ringbuf::HeapRb::new(capacity).split();
    (FrameProducer { inner: producer }, FrameConsumer { inner: consumer })
}

/// Relies on `ringbuf::Producer::push`: appends the frame, or returns it
/// back inside `Err` when the ring is full. A push cannot fail while a free
/// slot is known: the consuming endpoint only frees more.
#[verifier::external_body]
pub fn frame_push(p: &mut FrameProducer, tf: TimestampedFrame) -> (r: Result<(), TimestampedFrame>)
    ensures
        frame_ring_capacity(final(p)) == frame_ring_capacity(old(p)),
        frame_ring_free(old(p)) > 0 ==> r is Ok,
        r is Ok ==> frames_pushed(final(p)) == frames_pushed(old(p)).push(tf) && frame_ring_free(
            final(p),
        ) == if frame_ring_free(old(p)) > 0 {
            (frame_ring_free(old(p)) - 1) as nat
        } else {
            0
        },
        r matches Err(back) ==> back == tf && frames_pushed(final(p)) == frames_pushed(old(p))
            && frame_ring_free(final(p)) == 0,
{
    p.inner.push(tf)
}

/// Relies on `ringbuf::Producer::is_full`. A `true` answer means no slot
/// was free at the check, so no smaller bound was valid either; a `false`
/// answer establishes at least one free slot, which stays free until this
/// endpoint's next push.
#[verifier::external_body]
pub fn frame_ring_is_full(p: &mut FrameProducer) -> (r: bool)
    ensures
        frames_pushed(final(p)) == frames_pushed(old(p)),
        frame_ring_capacity(final(p)) == frame_ring_capacity(old(p)),
        r ==> frame_ring_free(old(p)) == 0 && frame_ring_free(final(p)) == 0,
        !r ==> frame_ring_free(final(p)) >= 1 && frame_ring_free(final(p)) >= frame_ring_free(
            old(p),
        ),
{
    p.inner.is_full()
}

/// Relies on `ringbuf::Consumer::pop`: removes and returns the oldest item,
/// or returns `None` when the ring is empty.
#[verifier::external_body]
pub fn frame_pop(c: &mut FrameConsumer) -> (r: Option<TimestampedFrame>)
    ensures
        r matches Some(tf) ==> frames_popped(final(c)) == frames_popped(old(c)).push(tf),
        r is None ==> frames_popped(final(c)) == frames_popped(old(c)),
{
    c.inner.pop()
}

/// The producing endpoint of the command ring.
#[verifier::external_body]
pub struct CommandProducer {
    inner: ringbuf::HeapProducer<DecodeSchedulerCommand>,
}

/// The consuming endpoint of the command ring.
#[verifier::external_body]
pub struct CommandConsumer {
    inner: ringbuf::HeapConsumer<DecodeSchedulerCommand>,
}

/// All commands this endpoint has pushed onto its ring, oldest first.
pub uninterp spec fn commands_pushed(p: &CommandProducer) -> Seq<DecodeSchedulerCommand>;

/// All commands this endpoint has popped off its ring, oldest first.
pub uninterp spec fn commands_popped(c: &CommandConsumer) -> Seq<DecodeSchedulerCommand>;

/// Relies on `ringbuf::HeapRb::new` and `SharedRb::split`: a bounded ring
/// of the given capacity, handed out as one producer and one consumer, both
/// with empty histories. `HeapRb::new` panics on capacity zero.
#[verifier::external_body]
pub fn new_command_ring(capacity: usize) -> (r: (CommandProducer, CommandConsumer))
    requires
        capacity >= 1,
    ensures
        commands_pushed(&r.0) == Seq::<DecodeSchedulerCommand>::empty(),
        commands_popped(&r.1) == Seq::<DecodeSchedulerCommand>::empty(),
{
    let (producer, consumer) = ringbuf::HeapRb::new(capacity).split();
    (CommandProducer { inner: producer }, CommandConsumer { inner: consumer })
}

/// Relies on `ringbuf::Producer::push`: appends the command, or returns it
/// back inside `Err` when the ring is full.
#[verifier::external_body]
pub fn command_push(
    p: &mut CommandProducer,
    command: DecodeSchedulerCommand,
) -> (r: Result<(), DecodeSchedulerCommand>)
    ensures
        r is Ok ==> commands_pushed(final(p)) == commands_pushed(old(p)).push(command),
        r matches Err(back) ==> back == command && commands_pushed(final(p)) == commands_pushed(
            old(p),
        ),
{
    p.inner.push(command)
}

/// Relies on `ringbuf::Consumer::pop`: removes and returns the oldest item,
/// or returns `None` when the ring is empty.
#[verifier::external_body]
pub fn command_pop(c: &mut CommandConsumer) -> (r: Option<DecodeSchedulerCommand>)
    ensures
        r matches Some(command) ==> commands_popped(final(c)) == commands_popped(old(c)).push(
            command,
        ),
        r is None ==> commands_popped(final(c)) == commands_popped(old(c)),
{
    c.inner.pop()
}

} // verus!
