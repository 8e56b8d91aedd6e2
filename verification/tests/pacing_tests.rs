use tracer_core::pacing::{render_time_ms, FpsCounter};

#[test]
fn ten_millisecond_cadence_reads_one_hundred_fps() {
    let mut counter = FpsCounter::new(100);
    for i in 1..=10u64 {
        counter.end_frame(i * 10);
    }
    assert_eq!(counter.current_fps(), 100);
}

#[test]
fn long_steady_cadence_still_reads_one_hundred_fps() {
    let mut counter = FpsCounter::new(100);
    for i in 1..=50u64 {
        counter.end_frame(7 + i * 10);
    }
    assert_eq!(counter.samples.len(), 10);
    assert_eq!(counter.current_fps(), 100);
}

#[test]
fn samples_outside_the_window_are_dropped() {
    let mut counter = FpsCounter::new(100);
    for i in 0..=10u64 {
        counter.end_frame(i * 10);
    }
    // The sample at 0 ms has left the (0, 100] window.
    assert_eq!(counter.samples.len(), 10);
    assert_eq!(counter.current_fps(), 100);

    // A long stall flushes everything but the newest sample.
    counter.end_frame(10_000);
    assert_eq!(counter.samples, vec![10_000]);
    assert_eq!(counter.current_fps(), 10);
}

#[test]
fn zero_samples_read_zero_fps_and_zero_render_time() {
    let counter = FpsCounter::new(100);
    let fps = counter.current_fps();
    assert_eq!(fps, 0);
    assert_eq!(render_time_ms(fps), 0);
}

#[test]
fn render_time_is_the_inverse_of_the_rate() {
    assert_eq!(render_time_ms(100), 10);
    assert_eq!(render_time_ms(60), 16);
    assert_eq!(render_time_ms(1), 1000);
    assert_eq!(render_time_ms(2000), 0);
}

#[test]
fn slow_frames_read_a_low_rate() {
    let mut counter = FpsCounter::new(100);
    counter.end_frame(500);
    counter.end_frame(1000);
    // Only the newest sample is still inside the window.
    assert_eq!(counter.current_fps(), 10);
    assert_eq!(render_time_ms(counter.current_fps()), 100);
}
