use flappy_core::timer::Timer;

#[test]
fn a_fresh_timer_is_not_finished() {
    let t = Timer::new(250);
    assert_eq!(t.elapsed_ms, 0);
    assert_eq!(t.duration_ms, 250);
    assert!(!t.finished());
}

#[test]
fn a_timer_finishes_exactly_at_its_duration() {
    let mut t = Timer::new(250);
    t.tick(249);
    assert!(!t.finished());
    t.tick(1);
    assert!(t.finished());
}

#[test]
fn timers_saturate_instead_of_wrapping() {
    let mut t = Timer { elapsed_ms: u32::MAX - 5, duration_ms: u32::MAX };
    t.tick(100);
    assert_eq!(t.elapsed_ms, u32::MAX);
    assert!(t.finished());
    t.reset();
    assert_eq!(t.elapsed_ms, 0);
    assert_eq!(t.duration_ms, u32::MAX);
    assert!(!t.finished());
}

#[test]
fn a_zero_duration_timer_is_always_finished() {
    let t = Timer::new(0);
    assert!(t.finished());
}
