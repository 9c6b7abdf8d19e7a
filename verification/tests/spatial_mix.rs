//! The spatial stage: panning gains, distance attenuation, mixdown.

use kira::frame::Frame;
use kira::listener::{Listener, ListenerSettings, TrackId};
use kira::spatial::{
    apply_gain, ear_gain, AttenuationCurve, EmitterDistances, EmitterInput, PanPair, Quat, Vec3,
    GAIN_SCALE, MIN_EAR_GAIN,
};

#[test]
fn panning_gain_stays_between_half_and_one() {
    assert_eq!(ear_gain(-5000), MIN_EAR_GAIN);
    assert_eq!(ear_gain(0), MIN_EAR_GAIN);
    assert_eq!(ear_gain(GAIN_SCALE), GAIN_SCALE);
    assert_eq!(ear_gain(GAIN_SCALE + 9999), GAIN_SCALE);
    assert_eq!(ear_gain(GAIN_SCALE / 2), MIN_EAR_GAIN + MIN_EAR_GAIN / 2);
    for v in [-1, 0, 1, 100, 16384, 32767, 32768, 40000] {
        let g = ear_gain(v);
        assert!(MIN_EAR_GAIN <= g && g <= GAIN_SCALE);
    }
}

#[test]
fn gains_scale_samples_exactly() {
    assert_eq!(apply_gain(32768, 16384), 16384);
    assert_eq!(apply_gain(-1000, 16384), -500);
    assert_eq!(apply_gain(12345, 0), 0);
    assert_eq!(apply_gain(12345, GAIN_SCALE), 12345);
    assert_eq!(apply_gain(i32::MIN, GAIN_SCALE), i32::MIN);
}

#[test]
fn relative_distance_follows_the_clamped_ratio() {
    let d = EmitterDistances { min_distance: 0, max_distance: 1000 };
    assert_eq!(d.relative_distance(0), 0);
    assert_eq!(d.relative_distance(250), 8192);
    assert_eq!(d.relative_distance(1000), GAIN_SCALE);
    assert_eq!(d.relative_distance(5000), GAIN_SCALE);
    let d = EmitterDistances { min_distance: 100, max_distance: 300 };
    assert_eq!(d.relative_distance(50), 0);
    assert_eq!(d.relative_distance(200), GAIN_SCALE / 2);
}

#[test]
fn linear_curve_is_the_clamped_identity() {
    let c = AttenuationCurve::Linear;
    assert_eq!(c.apply(0), 0);
    assert_eq!(c.apply(12000), 12000);
    assert_eq!(c.apply(GAIN_SCALE + 5), GAIN_SCALE);
    assert_eq!(c.apply(-5), 0);
}

#[test]
fn emitter_at_max_distance_has_zero_relative_volume() {
    // With a linear curve the relative volume at the far edge of the
    // distance range is zero; the decibel floor then silences the emitter.
    let d = EmitterDistances { min_distance: 0, max_distance: 7000 };
    let relative_distance = d.relative_distance(7000);
    let relative_volume = AttenuationCurve::Linear.apply(GAIN_SCALE - relative_distance);
    assert_eq!(relative_volume, 0);
}

#[test]
fn hard_panned_emitter_splits_the_channels() {
    // An emitter straight to the listener's right: the right ear's
    // direction value is one, the left ear's is zero.
    let listener = Listener::new(Vec3::zero(), Quat::identity(), ListenerSettings::new());
    let inputs = vec![EmitterInput {
        output: 32768,
        amplitude: None,
        pan: Some(PanPair { left: 0, right: GAIN_SCALE }),
    }];
    let out = listener.process(&inputs);
    assert_eq!(out, Frame { left: 16384, right: 32768 });
}

#[test]
fn mixdown_sums_contributions() {
    let listener = Listener::new(Vec3::zero(), Quat::identity(), ListenerSettings::new());
    let inputs = vec![
        EmitterInput { output: 1000, amplitude: None, pan: None },
        EmitterInput { output: 200, amplitude: Some(GAIN_SCALE / 2), pan: None },
    ];
    let out = listener.process(&inputs);
    assert_eq!(out, Frame { left: 1100, right: 1100 });
    assert_eq!(listener.process(&Vec::new()), Frame { left: 0, right: 0 });
}

#[test]
fn mixdown_saturates_instead_of_wrapping() {
    let listener = Listener::new(Vec3::zero(), Quat::identity(), ListenerSettings::new());
    let loud = EmitterInput { output: i32::MAX, amplitude: None, pan: None };
    let inputs = vec![loud, loud];
    let out = listener.process(&inputs);
    assert_eq!(out, Frame { left: i32::MAX, right: i32::MAX });
}

#[test]
fn listener_setters_and_track() {
    let mut listener = Listener::new(
        Vec3 { x: 1, y: 2, z: 3 },
        Quat::identity(),
        ListenerSettings { track: TrackId::Sub(7) },
    );
    assert_eq!(listener.track(), TrackId::Sub(7));
    listener.set_position(Vec3 { x: 9, y: 9, z: 9 });
    listener.set_orientation(Quat { x: 0, y: 32768, z: 0, w: 0 });
    assert!(!listener.shared().is_marked_for_removal());
    listener.mark_for_removal();
    assert!(listener.shared().is_marked_for_removal());
}
