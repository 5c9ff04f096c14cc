use juhradial::performance_monitor::{
    BlurMode, PerformanceMonitor, FRAME_BUFFER_SIZE, TARGET_FRAME_TIME_MICROS,
};

#[test]
fn test_blur_mode_default() {
    assert_eq!(BlurMode::default(), BlurMode::Auto);
}

#[test]
fn test_blur_mode_from_str() {
    assert_eq!(BlurMode::from_str("auto"), BlurMode::Auto);
    assert_eq!(BlurMode::from_str("on"), BlurMode::ForceOn);
    assert_eq!(BlurMode::from_str("off"), BlurMode::ForceOff);
    assert_eq!(BlurMode::from_str("ForceOn"), BlurMode::ForceOn);
    assert_eq!(BlurMode::from_str("force_off"), BlurMode::ForceOff);
    assert_eq!(BlurMode::from_str("unknown"), BlurMode::Auto);
}

#[test]
fn test_new_monitor() {
    let monitor = PerformanceMonitor::new();
    assert_eq!(monitor.frame_count(), 0);
    assert_eq!(monitor.consecutive_slow_frames(), 0);
    assert!(!monitor.is_blur_auto_disabled());
    assert_eq!(monitor.blur_mode(), BlurMode::Auto);
}

#[test]
fn test_record_fast_frame() {
    let mut monitor = PerformanceMonitor::new();

    // Record a fast frame (10ms)
    monitor.record_frame(10_000);

    assert_eq!(monitor.frame_count(), 1);
    assert_eq!(monitor.consecutive_slow_frames(), 0);
    assert!(!monitor.should_disable_blur());
}

#[test]
fn test_record_slow_frames_triggers_blur_disable() {
    let mut monitor = PerformanceMonitor::new();

    // Record slow frames (20ms each, above the 16.67ms threshold)
    for _ in 0..3 {
        monitor.record_frame(20_000);
    }

    assert_eq!(monitor.consecutive_slow_frames(), 3);
    assert!(monitor.is_blur_auto_disabled());
    assert!(monitor.should_disable_blur());
}

#[test]
fn test_fast_frame_resets_counter() {
    let mut monitor = PerformanceMonitor::new();

    // Two slow frames
    monitor.record_frame(20_000);
    monitor.record_frame(20_000);
    assert_eq!(monitor.consecutive_slow_frames(), 2);

    // One fast frame resets
    monitor.record_frame(10_000);
    assert_eq!(monitor.consecutive_slow_frames(), 0);
}

#[test]
fn test_force_on_ignores_performance() {
    let mut monitor = PerformanceMonitor::new();
    monitor.set_blur_mode(BlurMode::ForceOn);

    // Record 10 slow frames
    for _ in 0..10 {
        monitor.record_frame(30_000);
    }

    // Blur should NOT be disabled due to ForceOn
    assert!(!monitor.should_disable_blur());
}

#[test]
fn test_force_off_always_disables() {
    let mut monitor = PerformanceMonitor::new();
    monitor.set_blur_mode(BlurMode::ForceOff);

    // Even with fast frames, blur should be disabled
    monitor.record_frame(5_000);

    assert!(monitor.should_disable_blur());
}

#[test]
fn test_effective_blur_radius() {
    let mut monitor = PerformanceMonitor::new();

    // Normal case - returns theme value
    assert_eq!(monitor.get_effective_blur_radius(24), 24);

    // Force off - returns 0
    monitor.set_blur_mode(BlurMode::ForceOff);
    assert_eq!(monitor.get_effective_blur_radius(24), 0);

    // Force on - returns theme value even if auto-disabled
    monitor.set_blur_mode(BlurMode::ForceOn);
    monitor.blur_disabled = true; // Simulate auto-disable
    assert_eq!(monitor.get_effective_blur_radius(24), 24);
}

#[test]
fn test_frame_buffer_limit() {
    let mut monitor = PerformanceMonitor::new();

    // Record more frames than the window holds
    for _ in 0..20 {
        monitor.record_frame(10_000);
    }

    assert_eq!(monitor.frame_count(), FRAME_BUFFER_SIZE);
}

#[test]
fn test_reset() {
    let mut monitor = PerformanceMonitor::new();

    // Build up some state
    for _ in 0..5 {
        monitor.record_frame(20_000);
    }

    monitor.reset();

    assert_eq!(monitor.frame_count(), 0);
    assert_eq!(monitor.consecutive_slow_frames(), 0);
    assert!(!monitor.is_blur_auto_disabled());
}

#[test]
fn test_re_enable_blur() {
    let mut monitor = PerformanceMonitor::new();

    // Trigger auto-disable
    for _ in 0..5 {
        monitor.record_frame(20_000);
    }
    assert!(monitor.is_blur_auto_disabled());

    // Re-enable
    monitor.re_enable_blur();
    assert!(!monitor.is_blur_auto_disabled());
    assert_eq!(monitor.consecutive_slow_frames(), 0);
}

#[test]
fn test_target_frame_time() {
    // 60fps is 16.67ms per frame
    assert!((TARGET_FRAME_TIME_MICROS as f64 / 1000.0 - 16.67).abs() < 0.01);
}

#[test]
fn test_threshold_frame_is_slow() {
    let mut monitor = PerformanceMonitor::new();
    // One microsecond under the threshold is still fast.
    monitor.record_frame(TARGET_FRAME_TIME_MICROS - 1);
    assert_eq!(monitor.consecutive_slow_frames(), 0);
    // The threshold itself is slow: it exceeds 1/60 s.
    monitor.record_frame(TARGET_FRAME_TIME_MICROS);
    assert_eq!(monitor.consecutive_slow_frames(), 1);
}
