use niri_macos::frame_timer::FrameTimer;

#[test]
fn test_frame_timer() {
    let timer = FrameTimer::new(60);
    assert!(timer.target_duration_ns() > 0);
}

#[test]
fn test_frame_timer_fps_change() {
    let mut timer = FrameTimer::new(60);
    let original_duration = timer.target_duration_ns();

    timer.set_target_fps(120);
    assert!(timer.target_duration_ns() < original_duration);
}

#[test]
fn frame_durations() {
    assert_eq!(FrameTimer::new(60).target_duration_ns(), 16_666_666);
    assert_eq!(FrameTimer::new(120).target_duration_ns(), 8_333_333);
    assert_eq!(FrameTimer::new(1).target_duration_ns(), 1_000_000_000);
    assert_eq!(FrameTimer::new(2_000_000_000).target_duration_ns(), 0);
}

#[test]
fn frame_pacing() {
    let mut timer = FrameTimer::new(100); // 10 ms frames
    // Nothing rendered yet: the last frame counts as time 0.
    assert!(timer.should_render(10_000_000));
    assert!(!timer.should_render(9_999_999));
    assert_eq!(timer.time_until_next_frame(4_000_000), 6_000_000);
    timer.frame_rendered(50_000_000);
    // Right after a frame, a whole frame is to wait.
    assert!(!timer.should_render(50_000_000));
    assert_eq!(timer.time_until_next_frame(50_000_000), 10_000_000);
    assert_eq!(timer.time_until_next_frame(55_000_000), 5_000_000);
    assert!(timer.should_render(60_000_000));
    assert_eq!(timer.time_until_next_frame(60_000_000), 0);
    assert_eq!(timer.time_until_next_frame(90_000_000), 0);
    // A clock reading before the last frame waits a whole frame.
    assert_eq!(timer.time_until_next_frame(1), 10_000_000);
    // Changing the rate keeps the last frame's time.
    timer.set_target_fps(50);
    assert!(!timer.should_render(60_000_000));
    assert!(timer.should_render(70_000_000));
}
