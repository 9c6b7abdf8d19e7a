//! End-to-end scenarios for the streaming pipeline: decoder, scheduler,
//! frame ring, renderer.

use kira::decoder::VecDecoder;
use kira::frame::Frame;
use kira::rings::{command_push, new_command_ring, CommandProducer};
use kira::renderer::StreamingSound;
use kira::scheduler::{clamped_add, DecodeScheduler, NextStep};
use kira::settings::{DecodeSchedulerCommand, PlaybackState, Shared, StreamingSoundSettings};
use kira::transport::Region;

fn build_pipeline(
    frames: Vec<Frame>,
    rate: u32,
    settings: StreamingSoundSettings,
) -> (DecodeScheduler<VecDecoder>, StreamingSound, CommandProducer) {
    let decoder = VecDecoder::new(frames, rate);
    let (command_producer, command_consumer) = new_command_ring(settings.command_capacity);
    let (scheduler, frame_consumer) =
        DecodeScheduler::new(decoder, settings, Shared::new(), command_consumer).unwrap();
    let sound = StreamingSound::new(frame_consumer);
    (scheduler, sound, command_producer)
}

#[test]
fn playthrough_constant_source() {
    let half = Frame { left: 16384, right: 16384 };
    let frames = vec![half; 48000];
    let (mut scheduler, mut sound, _commands) =
        build_pipeline(frames, 48000, StreamingSoundSettings::new());
    for i in 0..48000usize {
        let step = scheduler.run().unwrap();
        let out = sound.next_frame(false);
        assert_eq!(out, half);
        assert_eq!(sound.position(), i as i64 + 1);
        if i < 47999 {
            assert_eq!(step, NextStep::Continue);
        } else {
            assert_eq!(step, NextStep::End);
        }
    }
    assert!(scheduler.shared().reached_end);
    let out = sound.next_frame(true);
    assert_eq!(out, Frame { left: 0, right: 0 });
    assert_eq!(sound.playback_state(), PlaybackState::Stopped);
}

#[test]
fn loop_wrap_replays_ramp() {
    let mut frames = Vec::new();
    for i in 0..100i32 {
        let sample = i * 32768 / 100;
        frames.push(Frame { left: sample, right: sample });
    }
    let source = frames.clone();
    let settings = StreamingSoundSettings::new().loop_region(Some(Region {
        start: 0,
        end: Some(100),
    }));
    let (mut scheduler, mut sound, _commands) = build_pipeline(frames, 48000, settings);
    for i in 0..250usize {
        let step = scheduler.run().unwrap();
        assert_eq!(step, NextStep::Continue);
        let out = sound.next_frame(false);
        let expected_index = i % 100;
        assert_eq!(out, source[expected_index]);
        assert_eq!(sound.position(), expected_index as i64 + 1);
    }
}

#[test]
fn seek_to_during_playback() {
    let mut frames = Vec::new();
    for i in 0..300000i64 {
        frames.push(Frame { left: i as i32, right: i as i32 });
    }
    let (mut scheduler, mut sound, mut commands) =
        build_pipeline(frames, 48000, StreamingSoundSettings::new());
    for i in 0..10000usize {
        assert_eq!(scheduler.run().unwrap(), NextStep::Continue);
        let out = sound.next_frame(false);
        assert_eq!(out.left, i as i32);
    }
    // A few frames of the pre-seek timeline stay queued in the ring.
    for _ in 0..5 {
        assert_eq!(scheduler.run().unwrap(), NextStep::Continue);
    }
    // Five seconds at 48 kHz.
    command_push(&mut commands, DecodeSchedulerCommand::SeekTo(240000)).unwrap();
    assert_eq!(scheduler.run().unwrap(), NextStep::Continue);
    sound.seek_to(240000);
    let out = sound.next_frame(false);
    assert_eq!(out.left, 240000i64 as i32);
    assert_eq!(sound.position(), 240001);
}

#[test]
fn underrun_outputs_silence_and_playback_resumes() {
    let mut frames = Vec::new();
    for i in 0..10i32 {
        frames.push(Frame { left: i, right: i });
    }
    let (mut scheduler, mut sound, _commands) =
        build_pipeline(frames, 48000, StreamingSoundSettings::new());
    for i in 0..3i32 {
        scheduler.run().unwrap();
        assert_eq!(sound.next_frame(false).left, i);
    }
    // The decoding side stalls: the ring drains and the output degrades to
    // silence without blocking, while the sound keeps playing.
    for _ in 0..4 {
        let out = sound.next_frame(false);
        assert_eq!(out, Frame { left: 0, right: 0 });
        assert_eq!(sound.playback_state(), PlaybackState::Playing);
        assert_eq!(sound.position(), 3);
    }
    // The decoding side resumes; playback continues from the right cursor.
    scheduler.run().unwrap();
    assert_eq!(sound.next_frame(false).left, 3);
    assert_eq!(sound.position(), 4);
}

#[test]
fn preroll_negative_indices_are_silent() {
    let mut frames = Vec::new();
    for i in 0..10i32 {
        frames.push(Frame { left: i + 5, right: i + 5 });
    }
    let (mut scheduler, mut sound, mut commands) =
        build_pipeline(frames, 48000, StreamingSoundSettings::new());
    command_push(&mut commands, DecodeSchedulerCommand::SeekTo(-2)).unwrap();
    sound.seek_to(-2);
    assert_eq!(scheduler.run().unwrap(), NextStep::Continue);
    assert_eq!(sound.next_frame(false), Frame { left: 0, right: 0 });
    assert_eq!(sound.position(), -1);
    assert_eq!(scheduler.run().unwrap(), NextStep::Continue);
    assert_eq!(sound.next_frame(false), Frame { left: 0, right: 0 });
    assert_eq!(sound.position(), 0);
    assert_eq!(scheduler.run().unwrap(), NextStep::Continue);
    assert_eq!(sound.next_frame(false), Frame { left: 5, right: 5 });
}

#[test]
fn stop_command_ends_the_scheduler() {
    let frames = vec![Frame { left: 1, right: 1 }; 100];
    let (mut scheduler, _sound, _commands) =
        build_pipeline(frames, 48000, StreamingSoundSettings::new());
    assert_eq!(scheduler.run().unwrap(), NextStep::Continue);
    scheduler.set_state(PlaybackState::Stopped);
    assert_eq!(scheduler.run().unwrap(), NextStep::End);
    assert!(!scheduler.shared().reached_end);
}

#[test]
fn playback_region_bounds_the_produced_frames() {
    let mut frames = Vec::new();
    for i in 0..20i32 {
        frames.push(Frame { left: i, right: i });
    }
    let settings = StreamingSoundSettings::new().playback_region(Region {
        start: 10,
        end: None,
    });
    let (mut scheduler, mut sound, _commands) = build_pipeline(frames, 48000, settings);
    assert_eq!(scheduler.current_frame(), 10);
    for i in 10..20i32 {
        let step = scheduler.run().unwrap();
        assert_eq!(sound.next_frame(false).left, i);
        assert_eq!(sound.position(), i as i64 + 1);
        if i < 19 {
            assert_eq!(step, NextStep::Continue);
        } else {
            assert_eq!(step, NextStep::End);
        }
    }
    assert!(scheduler.shared().reached_end);
}

#[test]
fn decoding_past_the_source_end_reports_an_error() {
    let frames = vec![Frame { left: 7, right: 7 }; 5];
    // A playback region reaching past the end of the source: the decoder
    // fails once the transport asks for a frame the source does not have.
    let settings = StreamingSoundSettings::new().playback_region(Region {
        start: 0,
        end: Some(8),
    });
    let (mut scheduler, mut sound, _commands) = build_pipeline(frames, 48000, settings);
    for _ in 0..5 {
        assert_eq!(scheduler.run().unwrap(), NextStep::Continue);
        assert_eq!(sound.next_frame(false).left, 7);
    }
    assert!(scheduler.run().is_err());
}

#[test]
fn unrepresentable_seek_targets_are_clamped() {
    assert_eq!(clamped_add(i64::MAX - 1, 100), i64::MAX);
    assert_eq!(clamped_add(i64::MIN + 1, -100), i64::MIN);
    assert_eq!(clamped_add(5, -3), 2);
    assert_eq!(clamped_add(-5, 3), -2);
}

#[test]
fn seek_by_uses_published_position() {
    let mut frames = Vec::new();
    for i in 0..1000i32 {
        frames.push(Frame { left: i, right: i });
    }
    let (mut scheduler, mut sound, mut commands) =
        build_pipeline(frames, 48000, StreamingSoundSettings::new());
    for _ in 0..100 {
        scheduler.run().unwrap();
        sound.next_frame(false);
    }
    assert_eq!(sound.position(), 100);
    scheduler.publish_position(sound.position());
    command_push(&mut commands, DecodeSchedulerCommand::SeekBy(400)).unwrap();
    scheduler.run().unwrap();
    sound.seek_to(500);
    assert_eq!(sound.next_frame(false).left, 500);
}

#[test]
fn set_loop_region_outside_position_keeps_current_frame() {
    let mut frames = Vec::new();
    for i in 0..300i32 {
        frames.push(Frame { left: i, right: i });
    }
    let (mut scheduler, mut sound, mut commands) =
        build_pipeline(frames, 48000, StreamingSoundSettings::new());
    for i in 0..10i32 {
        scheduler.run().unwrap();
        assert_eq!(sound.next_frame(false).left, i);
    }
    // A loop region ahead of the cursor: the frames up to its end are
    // unchanged, and the wrap happens at the new region's end.
    command_push(
        &mut commands,
        DecodeSchedulerCommand::SetLoopRegion(Some(Region { start: 100, end: Some(200) })),
    )
    .unwrap();
    for i in 10..200i32 {
        scheduler.run().unwrap();
        assert_eq!(sound.next_frame(false).left, i);
    }
    // The wrap point: position 200 wraps back to 100.
    scheduler.run().unwrap();
    assert_eq!(sound.next_frame(false).left, 100);
}
