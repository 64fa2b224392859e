use std::time::{Duration, Instant};

use frascii::clock::{next_deadline, Clock};

#[test]
fn the_first_tick_yields_no_time() {
    let mut clock = Clock::new();
    assert_eq!(clock.tick(Instant::now()), Duration::ZERO);
}

#[test]
fn ticking_accumulates_the_gaps() {
    let start = Instant::now();
    let mut clock = Clock::new();
    clock.tick(start);
    assert_eq!(
        clock.tick(start + Duration::from_millis(30)),
        Duration::from_millis(30)
    );
    assert_eq!(
        clock.tick(start + Duration::from_millis(50)),
        Duration::from_millis(20)
    );
}

#[test]
fn a_pause_contributes_no_time_at_all() {
    let start = Instant::now();
    let mut clock = Clock::new();
    clock.tick(start);
    clock.tick(start + Duration::from_millis(10));

    clock.toggle_pause();
    assert!(clock.is_paused());
    assert_eq!(clock.tick(start + Duration::from_secs(60)), Duration::ZERO);
    assert_eq!(clock.tick(start + Duration::from_secs(90)), Duration::ZERO);
}

#[test]
fn resuming_does_not_lurch_forward_by_the_pause() {
    let start = Instant::now();
    let mut clock = Clock::new();
    clock.tick(start);
    clock.toggle_pause();
    clock.tick(start + Duration::from_secs(60));
    clock.toggle_pause();

    let dt = clock.tick(start + Duration::from_millis(60_030));
    assert_eq!(
        dt,
        Duration::from_millis(30),
        "resumed with a lurch: {dt:?}"
    );
}

#[test]
fn a_clock_that_goes_backwards_yields_zero_rather_than_panicking() {
    let start = Instant::now();
    let mut clock = Clock::new();
    clock.tick(start + Duration::from_secs(10));
    assert_eq!(clock.tick(start), Duration::ZERO);
}

#[test]
fn a_new_clock_is_running_and_toggling_twice_restores_it() {
    let mut clock = Clock::default();
    assert!(!clock.is_paused());
    clock.toggle_pause();
    assert!(clock.is_paused());
    clock.toggle_pause();
    assert!(!clock.is_paused());
}

#[test]
fn a_paused_tick_still_moves_the_reference_point() {
    let start = Instant::now();
    let mut clock = Clock::new();
    clock.toggle_pause();
    assert_eq!(clock.tick(start), Duration::ZERO);
    clock.toggle_pause();
    assert_eq!(
        clock.tick(start + Duration::from_millis(5)),
        Duration::from_millis(5)
    );
}

#[test]
fn the_next_deadline_is_a_period_on_or_now_after_an_overrun() {
    assert_eq!(next_deadline(0, 10, 33), 33);
    assert_eq!(next_deadline(100, 120, 33), 133);
    assert_eq!(next_deadline(100, 133, 33), 133);
    assert_eq!(next_deadline(100, 500, 33), 500);
}
