use wirecube::frame::{FrameState, Phase};

#[test]
fn loop_starts_running_at_angle_zero() {
    let s = FrameState::new();
    assert_eq!(s.phase, Phase::Running);
    assert_eq!(s.steps, 0);
    assert!(s.is_running());
}

#[test]
fn steps_advance_while_running() {
    let mut s = FrameState::new();
    for k in 1..=10u64 {
        s.tick(false);
        assert_eq!(s.steps, k);
        assert!(s.is_running());
    }
}

#[test]
fn quit_signal_stops_the_loop() {
    let mut s = FrameState::new();
    s.tick(false);
    s.tick(true);
    assert_eq!(s.phase, Phase::Stopped);
    assert!(!s.is_running());
    // The angle does not advance on the stopping tick.
    assert_eq!(s.steps, 1);
}

#[test]
fn stopped_is_terminal() {
    let mut s = FrameState::new();
    s.tick(true);
    s.tick(false);
    s.tick(true);
    assert_eq!(s.phase, Phase::Stopped);
    assert_eq!(s.steps, 0);
}
