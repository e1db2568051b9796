use space_time_rewind::clock::countdown::Countdown;
use space_time_rewind::clock::ticker::{remaining_ms, Frequency, Ticker, MAX_NUMBER};
use std::time::Duration;

#[test]
fn is_always_off_if_starting_from_0() {
    let mut countdown = Countdown::new(0);
    assert!(countdown.off());
    countdown.down();
    assert!(countdown.off());
}

#[test]
fn is_off_when_new() {
    let countdown = new_countdown_from_2();
    assert!(!countdown.on());
    assert!(countdown.off());
}

#[test]
fn is_on_after_restart() {
    let mut countdown = new_countdown_from_2();
    countdown.restart();
    assert!(countdown.on());
    assert!(!countdown.off());
}

#[test]
fn is_on_after_1_down() {
    let mut countdown = new_countdown_from_2();
    countdown.restart();
    down_n_times(&mut countdown, 1);
    assert!(countdown.on());
}

#[test]
fn is_off_after_2_down() {
    let mut countdown = new_countdown_from_2();
    countdown.restart();
    assert!(!countdown.off());
    down_n_times(&mut countdown, 2);
    assert!(countdown.off());
}

#[test]
fn stays_off_after_3_down() {
    let mut countdown = new_countdown_from_2();
    countdown.restart();
    assert!(!countdown.off());
    down_n_times(&mut countdown, 3);
    assert!(countdown.off());
}

fn down_n_times(countdown: &mut Countdown, n: usize) {
    for _ in 0..n {
        countdown.down();
    }
}

fn new_countdown_from_2() -> Countdown {
    Countdown::new(2)
}

#[test]
fn starts_at_0() {
    let ticker = Ticker::new(Duration::from_secs(1));

    assert_eq!(ticker.number, 0);
}

#[test]
fn should_is_true_for_any_frequencies_at_start() {
    let ticker = Ticker::new(Duration::from_secs(1));

    assert_eq!(ticker.at(Frequency::One), true);
    assert_eq!(ticker.at(Frequency::Five), true);
    assert_eq!(ticker.at(Frequency::Ten), true);
}

#[test]
fn increments_by_1() {
    let mut ticker = Ticker::new(Duration::from_secs(1));

    ticker.tick();
    assert_eq!(ticker.number, 1);
    ticker.tick();
    assert_eq!(ticker.number, 2);
}

#[test]
fn restarts_at_1_after_2048() {
    let mut ticker = Ticker::new(Duration::from_secs(1));
    ticker.number = 2047;

    ticker.tick();
    assert_eq!(ticker.number, 2048);
    ticker.tick();
    assert_eq!(ticker.number, 1);
}

#[test]
fn tick_speed_one_fires_every_time() {
    assert_eq!(count_in_1_cycle(Frequency::One), MAX_NUMBER);
}

#[test]
fn tick_speed_two_fires_half_the_time() {
    assert_eq!(count_in_1_cycle(Frequency::Two), MAX_NUMBER / 2);
}

#[test]
fn tick_speed_twelve_fires_once() {
    assert_eq!(count_in_1_cycle(Frequency::Twelve), 1);
}

fn count_in_1_cycle(frequency: Frequency) -> u16 {
    let mut ticker = Ticker::new(Duration::from_secs(1));
    let mut count = 0;
    for _ in 0..MAX_NUMBER {
        if ticker.at(frequency) {
            count += 1;
        }
        ticker.tick();
    }
    count
}

#[test]
fn divisors_double_per_frequency() {
    assert_eq!(Frequency::One.divisor(), 1);
    assert_eq!(Frequency::Three.divisor(), 4);
    assert_eq!(Frequency::Eight.divisor(), 128);
    assert_eq!(Frequency::Twelve.divisor(), 2048);
}

#[test]
fn frequency_coverage_matches_divisor() {
    // Over one full cycle, a divisor-D frequency fires MAX_NUMBER / D times.
    assert_eq!(count_in_1_cycle(Frequency::Three), MAX_NUMBER / 4);
    assert_eq!(count_in_1_cycle(Frequency::Eight), MAX_NUMBER / 128);
}

#[test]
fn maybe_tick_fires_with_a_zero_tick_rate() {
    let mut ticker = Ticker::new(Duration::from_secs(0));
    // The very first call seeds the timestamp; elapsed time is at least the
    // zero tick rate from then on.
    ticker.maybe_tick();
    let fired = ticker.maybe_tick();
    assert!(fired);
    assert!(ticker.number() >= 1);
}

#[test]
fn restart_resets_the_counter() {
    let mut ticker = Ticker::new(Duration::from_secs(1));
    ticker.tick();
    ticker.tick();
    ticker.restart();
    assert_eq!(ticker.number, 0);
    assert_eq!(ticker.cycles, 0);
    assert_eq!(ticker.number(), 0);
}

#[test]
fn countdown_runs_out_after_starting_value() {
    // A fresh countdown restarted from N is on iff N > 0, off after exactly
    // N downs, and stays off after more.
    let mut countdown = Countdown::new(5);
    countdown.restart();
    assert!(countdown.on());
    for _ in 0..5 {
        countdown.down();
    }
    assert!(countdown.off());
    countdown.down();
    assert!(countdown.off());
}

#[test]
fn remaining_timeout_is_the_full_budget_before_the_first_fire() {
    let ticker = Ticker::new(Duration::from_millis(100));
    assert_eq!(ticker.remaining_timeout(), 100);
}

#[test]
fn remaining_timeout_never_exceeds_one_tick_budget() {
    let mut ticker = Ticker::new(Duration::from_millis(100));
    ticker.maybe_tick();
    assert!(ticker.remaining_timeout() <= 100);
}

#[test]
fn remaining_ms_subtracts_and_clamps_at_zero() {
    assert_eq!(remaining_ms(100, 30), 70);
    assert_eq!(remaining_ms(100, 100), 0);
    assert_eq!(remaining_ms(100, 250), 0);
    assert_eq!(remaining_ms(0, 0), 0);
}
