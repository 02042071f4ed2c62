use ball_game::timer::{Timer, TimerMode};

const MS: u64 = 1_000_000;

#[test]
fn new_timer_has_gathered_nothing() {
    let timer = Timer::new(250 * MS, TimerMode::Repeating);
    assert_eq!(timer.interval, 250 * MS);
    assert_eq!(timer.elapsed, 0);
    assert_eq!(timer.mode, TimerMode::Repeating);
    assert!(!timer.finished());
    assert!(!timer.just_finished());
    assert!(timer.is_valid());
}

#[test]
fn repeating_timer_fires_once_in_three_short_ticks() {
    let mut timer = Timer::new(250 * MS, TimerMode::Repeating);
    let mut fired = 0;
    for _ in 0..3 {
        timer.tick(100 * MS);
        if timer.finished() {
            fired += 1;
        }
    }
    assert_eq!(fired, 1);
    assert!(timer.finished());
    assert_eq!(timer.elapsed, 50 * MS);
    assert_eq!(timer.times_finished_this_tick, 1);
}

#[test]
fn repeating_timer_is_finished_only_on_the_crossing_tick() {
    let mut timer = Timer::new(250 * MS, TimerMode::Repeating);
    timer.tick(100 * MS);
    assert!(!timer.finished());
    assert_eq!(timer.elapsed, 100 * MS);
    timer.tick(100 * MS);
    assert!(!timer.finished());
    assert_eq!(timer.elapsed, 200 * MS);
    timer.tick(100 * MS);
    assert!(timer.finished());
    assert_eq!(timer.elapsed, 50 * MS);
    timer.tick(100 * MS);
    assert!(!timer.finished());
    assert_eq!(timer.elapsed, 150 * MS);
    assert_eq!(timer.times_finished_this_tick, 0);
}

#[test]
fn repeating_timer_fires_on_exact_interval() {
    let mut timer = Timer::new(250 * MS, TimerMode::Repeating);
    timer.tick(250 * MS);
    assert!(timer.finished());
    assert_eq!(timer.elapsed, 0);
    assert_eq!(timer.times_finished_this_tick, 1);
}

#[test]
fn repeating_timer_counts_every_interval_of_a_long_tick() {
    let mut timer = Timer::new(250 * MS, TimerMode::Repeating);
    timer.tick(100 * MS);
    timer.tick(1_000 * MS);
    assert!(timer.finished());
    assert_eq!(timer.times_finished_this_tick, 4);
    assert_eq!(timer.elapsed, 100 * MS);
}

#[test]
fn repeating_timer_keeps_no_drift_over_many_ticks() {
    let mut timer = Timer::new(250 * MS, TimerMode::Repeating);
    let mut fired: u64 = 0;
    for _ in 0..1000 {
        timer.tick(7 * MS);
        fired += timer.times_finished_this_tick;
    }
    assert_eq!(fired, 7000 / 250);
    assert_eq!(timer.elapsed, (7000 % 250) * MS);
}

#[test]
fn repeating_timer_takes_the_longest_tick() {
    let mut timer = Timer::new(3, TimerMode::Repeating);
    timer.tick(2);
    timer.tick(u64::MAX);
    let total = 2u128 + u64::MAX as u128;
    assert_eq!(timer.elapsed as u128, total % 3);
    assert_eq!(timer.times_finished_this_tick as u128, total / 3);
    assert!(timer.finished());
    assert!(timer.is_valid());
}

#[test]
fn zero_tick_changes_nothing_but_the_finished_mark() {
    let mut timer = Timer::new(250 * MS, TimerMode::Repeating);
    timer.tick(250 * MS);
    assert!(timer.finished());
    timer.tick(0);
    assert!(!timer.finished());
    assert_eq!(timer.elapsed, 0);
}

#[test]
fn once_timer_stays_finished() {
    let mut timer = Timer::new(250 * MS, TimerMode::Once);
    timer.tick(100 * MS);
    assert!(!timer.finished());
    assert_eq!(timer.elapsed, 100 * MS);
    timer.tick(200 * MS);
    assert!(timer.finished());
    assert!(timer.just_finished());
    assert_eq!(timer.elapsed, 250 * MS);
    timer.tick(400 * MS);
    assert!(timer.finished());
    assert!(!timer.just_finished());
    assert_eq!(timer.elapsed, 250 * MS);
    assert_eq!(timer.times_finished_this_tick, 0);
    assert!(timer.is_valid());
}

#[test]
fn once_timer_of_no_length_finishes_on_first_tick() {
    let mut timer = Timer::new(0, TimerMode::Once);
    assert!(timer.is_valid());
    assert!(!timer.finished());
    timer.tick(0);
    assert!(timer.finished());
}

#[test]
fn repeating_timer_of_no_length_is_not_valid() {
    let timer = Timer::new(0, TimerMode::Repeating);
    assert!(!timer.is_valid());
}
