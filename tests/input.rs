use playboy::impulse::Motion::{Backward, Forward, Rest};
use playboy::impulse::{process_crank_change, CrankButtons, ImpulseDetector, Motion};

fn motion_of(reading: f32) -> Motion {
    if reading > 0.0 {
        Motion::Forward
    } else if reading < 0.0 {
        Motion::Backward
    } else {
        Motion::Rest
    }
}

/// Runs readings through a detector and returns each frame's impulse.
fn impulses(readings: &[f32]) -> Vec<f32> {
    let mut previous = Motion::Rest;
    let mut out = Vec::new();
    for &r in readings {
        let m = motion_of(r);
        let impulse = process_crank_change(m, previous);
        previous = m;
        out.push(if impulse == Motion::Rest { 0.0 } else { r });
    }
    out
}

#[test]
fn impulse_same_direction_is_suppressed() {
    assert_eq!(impulses(&[0.5, 0.5]), vec![0.5, 0.0]);
}

#[test]
fn impulse_reversal_passes() {
    assert_eq!(impulses(&[0.5, -0.3]), vec![0.5, -0.3]);
}

#[test]
fn impulse_zero_reading_is_no_impulse() {
    assert_eq!(impulses(&[0.5, 0.0]), vec![0.5, 0.0]);
}

#[test]
fn impulse_negative_run_is_suppressed() {
    assert_eq!(impulses(&[-1.0, -2.0, 0.0, -2.0]), vec![-1.0, 0.0, 0.0, -2.0]);
}

#[test]
fn process_crank_change_table() {
    assert_eq!(process_crank_change(Forward, Forward), Rest);
    assert_eq!(process_crank_change(Backward, Backward), Rest);
    assert_eq!(process_crank_change(Rest, Forward), Rest);
    assert_eq!(process_crank_change(Rest, Rest), Rest);
    assert_eq!(process_crank_change(Forward, Rest), Forward);
    assert_eq!(process_crank_change(Forward, Backward), Forward);
    assert_eq!(process_crank_change(Backward, Forward), Backward);
    assert_eq!(process_crank_change(Backward, Rest), Backward);
}

#[test]
fn detector_presses_start_and_select_for_one_frame() {
    let mut d = ImpulseDetector::new();
    assert_eq!(d.last, Motion::Rest);
    let none = CrankButtons { start: false, select: false };
    assert_eq!(d.update(Motion::Forward), CrankButtons { start: true, select: false });
    assert_eq!(d.last, Motion::Forward);
    assert_eq!(d.update(Motion::Forward), none);
    assert_eq!(d.update(Motion::Backward), CrankButtons { start: false, select: true });
    assert_eq!(d.update(Motion::Backward), none);
    assert_eq!(d.update(Motion::Rest), none);
    assert_eq!(d.last, Motion::Rest);
    assert_eq!(d.update(Motion::Backward), CrankButtons { start: false, select: true });
}
