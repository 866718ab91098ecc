use chip8::Clock;
use std::time::{Duration, Instant};

#[test]
fn new_clock_runs_with_empty_accumulator() {
    let mut c = Clock::new("cpu", Duration::from_millis(2));
    assert_eq!(c.name(), "cpu");
    assert!(!c.should_update());
}

#[test]
fn tick_at_gathers_steps_from_last_reading() {
    let t0 = Instant::now();
    let mut c = Clock::new_at("timers", Duration::from_millis(10), t0);
    c.tick_at(t0 + Duration::from_millis(25));
    assert!(c.should_update());
    assert!(c.should_update());
    assert!(!c.should_update());
    // The last reading is now t0 + 25 ms, so 5 ms more complete the third step.
    c.tick_at(t0 + Duration::from_millis(30));
    assert!(c.should_update());
    assert!(!c.should_update());
}

#[test]
fn paused_clock_takes_no_steps_and_skips_paused_time() {
    let t0 = Instant::now();
    let mut c = Clock::new_at("cpu", Duration::from_millis(1), t0);
    c.pause_at(t0 + Duration::from_millis(3));
    assert!(!c.should_update());
    c.tick_at(t0 + Duration::from_millis(50));
    c.tick();
    assert!(!c.should_update());
    c.unpause_at(t0 + Duration::from_millis(100));
    c.tick_at(t0 + Duration::from_millis(102));
    // 3 ms before the pause and 2 ms after the restart: 5 steps.
    for _ in 0..5 {
        assert!(c.should_update());
    }
    assert!(!c.should_update());
}

#[test]
fn tick_gathers_real_time() {
    let mut c = Clock::new("cpu", Duration::from_nanos(1));
    let start = Instant::now();
    while start.elapsed() < Duration::from_millis(2) {}
    c.tick();
    assert!(c.should_update());
}

#[test]
fn pause_and_unpause_read_the_clock() {
    let mut c = Clock::new("cpu", Duration::from_secs(3600));
    c.pause();
    assert!(!c.should_update());
    c.unpause();
    c.tick();
    assert!(!c.should_update());
}

#[test]
fn zero_step_is_always_due() {
    let mut c = Clock::new("fast", Duration::ZERO);
    assert!(c.should_update());
    assert!(c.should_update());
}
