use std::time::Duration;
use std::time::Instant;

use paddler::agent::token_throughput_meter::TokenRate;
use paddler::agent::token_throughput_meter::TokenThroughputMeter;
use paddler::agent::token_throughput_meter::STALE_AFTER;
use paddler::agent::token_throughput_meter::WINDOW_DURATION;

fn rate_of(meter: &TokenThroughputMeter) -> f64 {
    let rate = meter.tokens_per_second();

    rate.tokens as f64 / (rate.elapsed_nanos as f64 / 1_000_000_000.0)
}

fn wait_for_nanos(nanos: u128) {
    let started_at = Instant::now();
    let duration = Duration::from_nanos(nanos as u64) + Duration::from_millis(50);

    while started_at.elapsed() < duration {}
}

#[test]
fn reports_zero_before_any_tokens_are_recorded() {
    let meter = TokenThroughputMeter::new();

    assert_eq!(rate_of(&meter), 0.0);
}

#[test]
fn measures_rate_once_a_window_closes() {
    let mut meter = TokenThroughputMeter::new();

    for _ in 0..5 {
        meter.record_token();
    }

    wait_for_nanos(WINDOW_DURATION);

    meter.record_token();

    let rate = rate_of(&meter);

    assert!(rate > 0.0, "expected a positive rate, got {rate}");
}

#[test]
fn decays_to_zero_after_being_idle() {
    let mut meter = TokenThroughputMeter::new();

    for _ in 0..5 {
        meter.record_token();
    }

    wait_for_nanos(WINDOW_DURATION);
    meter.record_token();
    wait_for_nanos(STALE_AFTER);

    assert_eq!(rate_of(&meter), 0.0);
}

#[test]
fn a_window_yields_its_count_over_its_duration() {
    let mut meter = TokenThroughputMeter::default();

    meter.record_token_at(100_000_000);
    meter.record_token_at(200_000_000);

    assert_eq!(
        meter.tokens_per_second_at(300_000_000),
        TokenRate {
            tokens: 0,
            elapsed_nanos: 1_000_000_000
        }
    );

    meter.record_token_at(1_500_000_000);

    assert_eq!(
        meter.tokens_per_second_at(3_500_000_000),
        TokenRate {
            tokens: 3,
            elapsed_nanos: 1_500_000_000
        }
    );
    assert_eq!(meter.tokens_per_second_at(3_500_000_001).tokens, 0);
}

#[test]
fn a_token_in_an_open_window_does_not_keep_the_rate_alive() {
    let mut meter = TokenThroughputMeter::new();

    meter.record_token_at(1_500_000_000);
    meter.record_token_at(1_600_000_000);

    assert_eq!(meter.tokens_per_second_at(3_600_000_000).tokens, 1);
    assert_eq!(
        meter.tokens_per_second_at(3_600_000_001),
        TokenRate {
            tokens: 0,
            elapsed_nanos: 1_000_000_000
        }
    );
}

#[test]
fn a_closed_window_starts_a_new_one() {
    let mut meter = TokenThroughputMeter::new();

    meter.record_token_at(1_500_000_000);
    meter.record_token_at(2_400_000_000);

    assert_eq!(meter.tokens_per_second_at(2_400_000_000).tokens, 1);

    meter.record_token_at(2_500_000_000);

    assert_eq!(
        meter.tokens_per_second_at(2_500_000_000),
        TokenRate {
            tokens: 2,
            elapsed_nanos: 1_000_000_000
        }
    );
}

#[test]
fn a_window_closes_at_exactly_its_duration() {
    let mut meter = TokenThroughputMeter::new();

    meter.record_token_at(999_999_999);

    assert_eq!(meter.tokens_per_second_at(999_999_999).tokens, 0);

    meter.record_token_at(1_000_000_000);

    assert_eq!(
        meter.tokens_per_second_at(1_000_000_000),
        TokenRate {
            tokens: 2,
            elapsed_nanos: 1_000_000_000
        }
    );
}
