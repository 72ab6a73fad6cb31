use orbit_cam::spin::SpinAngle;

// One simulated frame of 2.0 s at half a radian per second: the
// rotation about the vertical axis grows by exactly 1.0 rad.
#[test]
fn two_second_frame_adds_one_radian() {
    let mut s = SpinAngle::new();
    s.advance(2_000_000);
    assert_eq!(s.angle, 1_000_000);
}

#[test]
fn spin_accumulates_over_frames() {
    let mut s = SpinAngle::new();
    s.advance(1_000_000);
    s.advance(500_000);
    s.advance(16_667);
    assert_eq!(s.angle, 500_000 + 250_000 + 8_333);
}

#[test]
fn spin_never_decreases() {
    let mut s = SpinAngle::new();
    let mut last = s.angle;
    for e in [0u64, 1, 2, 3, 1_000, 123_456_789] {
        s.advance(e);
        assert!(s.angle >= last);
        last = s.angle;
    }
}
