//! Scene identifiers, the listener removal flag, and track sends.

use kira::frame::Frame;
use kira::listener::{ArenaKey, ListenerId, ListenerShared, SpatialSceneId};
use kira::sends::{SendTrackId, TrackSends};

#[test]
fn listener_shared_marks_for_removal() {
    let mut shared = ListenerShared::new();
    assert!(!shared.is_marked_for_removal());
    shared.mark_for_removal();
    assert!(shared.is_marked_for_removal());
    shared.mark_for_removal();
    assert!(shared.is_marked_for_removal());
}

#[test]
fn listener_id_names_its_scene() {
    let scene = SpatialSceneId { key: ArenaKey { index: 3, generation: 1 } };
    let id = ListenerId { key: ArenaKey { index: 8, generation: 2 }, scene_id: scene };
    assert_eq!(id.scene(), scene);
}

#[test]
fn sends_insert_in_order_and_update_in_place() {
    let sends = TrackSends::new();
    assert_eq!(sends.len(), 0);
    let sends = sends.add(SendTrackId(4), 100).add(SendTrackId(9), 200);
    assert_eq!(sends.len(), 2);
    assert_eq!(sends.volume_of(SendTrackId(4)), Some(100));
    assert_eq!(sends.volume_of(SendTrackId(9)), Some(200));
    assert_eq!(sends.volume_of(SendTrackId(5)), None);
    // Re-adding an existing send track updates its volume in place.
    let sends = sends.add(SendTrackId(4), 150);
    assert_eq!(sends.len(), 2);
    assert_eq!(sends.volume_of(SendTrackId(4)), Some(150));
}

#[test]
fn frames_saturate_componentwise() {
    let a = Frame { left: i32::MAX - 1, right: -5 };
    let b = Frame { left: 10, right: 7 };
    assert_eq!(a.add(b), Frame { left: i32::MAX, right: 2 });
    let c = Frame { left: i32::MIN, right: 0 };
    assert_eq!(c.add(c), Frame { left: i32::MIN, right: 0 });
    assert_eq!(Frame::zero(), Frame { left: 0, right: 0 });
    assert_eq!(Frame::from_mono(123), Frame { left: 123, right: 123 });
}
