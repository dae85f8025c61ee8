use roomcast::multiplier::multiplier_step_of;
use roomcast::stats::{
    byte_total, record_sample, sample_rate, sorted_copy, stream_time, trimmed_mean, HISTORY_LIMIT,
};
use roomcast::utils::{decimal, div_mod, humanize, humanize_seconds};
use std::time::Duration;

#[test]
fn trimmed_mean_cuts_a_quarter_from_each_side() {
    assert_eq!(trimmed_mean(&vec![10, 20, 30, 40, 90]), 30);
    assert_eq!(trimmed_mean(&vec![90, 10, 40, 20, 30]), 30);
}

#[test]
fn trimmed_mean_of_few_samples_is_their_mean() {
    assert_eq!(trimmed_mean(&vec![]), 0);
    assert_eq!(trimmed_mean(&vec![7]), 7);
    assert_eq!(trimmed_mean(&vec![1, 4]), 2);
    assert_eq!(trimmed_mean(&vec![9, 1, 2]), 4);
    assert_eq!(trimmed_mean(&vec![100, 1, 2, 3]), 2);
    assert_eq!(trimmed_mean(&vec![1, 2, 3, 4, 5, 6, 7, 1000]), 4);
}

#[test]
fn trimmed_mean_does_not_overflow() {
    assert_eq!(trimmed_mean(&vec![usize::MAX, usize::MAX, usize::MAX]), usize::MAX);
}

#[test]
fn sorted_copy_sorts() {
    assert_eq!(sorted_copy(&vec![3, 1, 2, 1]), vec![1, 1, 2, 3]);
}

#[test]
fn sample_rate_turns_kilobits_into_bytes() {
    assert_eq!(sample_rate(0, 0), 0);
    assert_eq!(sample_rate(8, 0), 1000);
    assert_eq!(sample_rate(3000, 128), 391000);
    assert_eq!(sample_rate(1, 0), 125);
    assert_eq!(sample_rate(usize::MAX, usize::MAX), usize::MAX);
}

#[test]
fn byte_total_saturates() {
    assert_eq!(byte_total(5, 7), 12);
    assert_eq!(byte_total(usize::MAX, 1), usize::MAX);
}

#[test]
fn stream_time_guards_zero() {
    assert_eq!(stream_time(1000, 10), 100);
    assert_eq!(stream_time(1009, 10), 100);
    assert_eq!(stream_time(0, 10), 0);
    assert_eq!(stream_time(1000, 0), 0);
}

#[test]
fn history_drops_the_oldest_when_full() {
    let mut history: Vec<usize> = Vec::new();
    for i in 0..HISTORY_LIMIT {
        record_sample(&mut history, i);
    }
    assert_eq!(history.len(), HISTORY_LIMIT);
    assert_eq!(history[0], 0);
    record_sample(&mut history, 77);
    assert_eq!(history.len(), HISTORY_LIMIT);
    assert_eq!(history[0], 1);
    assert_eq!(history[HISTORY_LIMIT - 1], 77);
}

#[test]
fn multiplier_step_is_the_rounded_logarithm() {
    assert_eq!(multiplier_step_of(0), 0);
    assert_eq!(multiplier_step_of(1), 0);
    assert_eq!(multiplier_step_of(2), 1);
    assert_eq!(multiplier_step_of(3), 2);
    assert_eq!(multiplier_step_of(4), 2);
    assert_eq!(multiplier_step_of(5), 3);
    assert_eq!(multiplier_step_of(10), 4);
    assert_eq!(multiplier_step_of(100), 8);
    assert_eq!(multiplier_step_of(1000), 12);
    assert_eq!(multiplier_step_of(1333), 12);
    assert_eq!(multiplier_step_of(1334), 13);
}

#[test]
fn multiplier_step_agrees_with_the_logarithm() {
    for n in 1..5000usize {
        let expected = ((n as f64).log10() * 4.0).round() as usize;
        assert_eq!(multiplier_step_of(n), expected);
    }
}

#[test]
fn multiplier_step_never_falls() {
    let mut last = 0;
    for n in 1..3000usize {
        let step = multiplier_step_of(n);
        assert!(step >= last);
        last = step;
    }
    assert_eq!(multiplier_step_of(usize::MAX), 77);
}

#[test]
fn div_mod_divides() {
    assert_eq!(div_mod(10000, 60), (166, 40));
    assert_eq!(div_mod(5, 7), (0, 5));
}

#[test]
fn decimal_writes_numbers() {
    assert_eq!(decimal(0), "0");
    assert_eq!(decimal(7), "7");
    assert_eq!(decimal(10), "10");
    assert_eq!(decimal(4096), "4096");
    assert_eq!(decimal(u64::MAX), "18446744073709551615");
}

#[test]
fn humanize_names_the_parts_that_are_not_zero() {
    assert_eq!(humanize_seconds(10000), "2 hours, 46 minutes, 40 seconds");
    assert_eq!(humanize_seconds(0), "");
    assert_eq!(humanize_seconds(59), "59 seconds");
    assert_eq!(humanize_seconds(60), "1 minutes, ");
    assert_eq!(humanize_seconds(86400 + 3600 + 60 + 1), "1 days, 1 hours, 1 minutes, 1 seconds");
    assert_eq!(humanize_seconds(2 * 86400 + 5), "2 days, 5 seconds");
}

#[test]
fn humanize_goes_by_whole_seconds() {
    assert_eq!(humanize(Duration::from_secs(10000)), "2 hours, 46 minutes, 40 seconds");
    assert_eq!(humanize(Duration::from_millis(61999)), "1 minutes, 1 seconds");
}
