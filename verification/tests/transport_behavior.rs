//! The transport state machine: region resolution, advancing, wrapping,
//! seeking.

use kira::settings::{loop_settings_from_fields, StreamingSoundSettings};
use kira::transport::{Region, Transport};

#[test]
fn new_positions_cursor_at_region_start() {
    let t = Transport::new(Region { start: 25, end: Some(75) }, None, Some(100));
    assert_eq!(t.position, 25);
    assert!(t.playing);
    assert_eq!(t.playback_start, 25);
    assert_eq!(t.playback_end, 75);
    assert!(t.loop_region.is_none());
}

#[test]
fn open_region_end_defaults_to_source_length() {
    let t = Transport::new(Region::full(), None, Some(4096));
    assert_eq!(t.playback_end, 4096);
}

#[test]
fn open_region_end_with_unknown_length_defaults_to_max() {
    let t = Transport::new(Region::full(), None, None);
    assert_eq!(t.playback_end, i64::MAX);
}

#[test]
fn loop_needs_both_bounds_concrete() {
    let t = Transport::new(
        Region::full(),
        Some(Region { start: 10, end: None }),
        None,
    );
    assert!(t.loop_region.is_none());
    let t = Transport::new(
        Region::full(),
        Some(Region { start: 10, end: None }),
        Some(50),
    );
    let l = t.loop_region.unwrap();
    assert_eq!(l.start, 10);
    assert_eq!(l.end, 50);
}

#[test]
fn increment_stops_at_playback_end() {
    let mut t = Transport::new(Region { start: 0, end: Some(2) }, None, Some(2));
    t.increment_position();
    assert_eq!(t.position, 1);
    assert!(t.playing);
    t.increment_position();
    assert_eq!(t.position, 2);
    assert!(!t.playing);
}

#[test]
fn increment_wraps_at_loop_end() {
    let mut t = Transport::new(
        Region::full(),
        Some(Region { start: 3, end: Some(5) }),
        Some(10),
    );
    t.seek_to(4);
    t.increment_position();
    assert_eq!(t.position, 3);
    assert!(t.playing);
    t.increment_position();
    assert_eq!(t.position, 4);
}

#[test]
fn seek_inside_region_resumes_playing() {
    let mut t = Transport::new(Region { start: 0, end: Some(5) }, None, Some(5));
    for _ in 0..5 {
        t.increment_position();
    }
    assert!(!t.playing);
    t.seek_to(2);
    assert_eq!(t.position, 2);
    assert!(t.playing);
}

#[test]
fn seek_outside_region_does_not_resume_playing() {
    let mut t = Transport::new(Region { start: 0, end: Some(5) }, None, Some(5));
    for _ in 0..5 {
        t.increment_position();
    }
    t.seek_to(9);
    assert_eq!(t.position, 9);
    assert!(!t.playing);
}

#[test]
fn negative_position_is_preroll() {
    let mut t = Transport::new(Region::full(), None, Some(10));
    t.seek_to(-3);
    assert_eq!(t.position, -3);
    t.increment_position();
    assert_eq!(t.position, -2);
    assert!(t.playing);
}

#[test]
fn set_regions_moves_no_cursor() {
    let mut t = Transport::new(Region::full(), None, Some(100));
    t.seek_to(42);
    t.set_playback_region(Region { start: 10, end: Some(90) }, Some(100));
    assert_eq!(t.position, 42);
    t.set_loop_region(Some(Region { start: 50, end: Some(60) }), Some(100));
    assert_eq!(t.position, 42);
    assert!(t.playing);
}

#[test]
fn default_settings_match_the_documented_defaults() {
    let s = StreamingSoundSettings::new();
    assert_eq!(s.playback_region.start, 0);
    assert!(s.playback_region.end.is_none());
    assert!(s.loop_region.is_none());
    assert_eq!(s.command_capacity, 8);
    assert_eq!(s.error_capacity, 1);
}

#[test]
fn loop_settings_fields_default_when_absent() {
    let r = loop_settings_from_fields(None, Some(44100));
    assert_eq!(r.start, 0);
    assert_eq!(r.end, Some(44100));
    let r = loop_settings_from_fields(Some(100), None);
    assert_eq!(r.start, 100);
    assert!(r.end.is_none());
}
