use smol_engine::TimeStep;

#[test]
fn delta_simulated_16ms_gap() {
    let mut ts = TimeStep::new(0);
    let d = ts.delta(16_000);
    assert_eq!(d, 16_000);
    let d2 = ts.delta(32_000);
    assert_eq!(d2, 16_000);
}

#[test]
fn delta_never_negative() {
    let mut ts = TimeStep::new(100);
    // A timestamp that did not advance yields zero, not a negative delta.
    let d = ts.delta(40);
    assert_eq!(d, 0);
}

#[test]
fn frame_rate_sixty_frames_over_one_second() {
    let mut ts = TimeStep::new(0);
    // Sixty frames spanning just over 1000 ms: every call before the one
    // crossing the boundary returns the initial snapshot 0; the crossing
    // call returns 60.
    for i in 1..=60u64 {
        ts.delta(i * 16_667);
        let fps = ts.frame_rate();
        if i < 60 {
            assert_eq!(fps, 0);
        } else {
            assert_eq!(fps, 60);
        }
    }
    // The accumulator reset: the next frame is far from the boundary again
    // and the previous snapshot is returned.
    ts.delta(61 * 16_667);
    assert_eq!(ts.frame_rate(), 60);
}

#[test]
fn frame_rate_exact_boundary() {
    let mut ts = TimeStep::new(0);
    ts.delta(1_000_000);
    assert_eq!(ts.frame_rate(), 1);
}
