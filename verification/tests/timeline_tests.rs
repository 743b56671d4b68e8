use firmware_core::blink::blink_trace;
use firmware_core::blink::BlinkConfig;
use firmware_core::timeline::run_two_blinks;

#[test]
fn two_periods_stay_independent_over_ten_fast_cycles() {
    // Periods 100 and 1000: thirty rounds cover instants 0, 100, ..., 2900,
    // which is more than ten full cycles of the faster task.
    let fast = BlinkConfig { initial_high: true, half_period_millis: 100 };
    let slow = BlinkConfig { initial_high: true, half_period_millis: 1000 };
    let run = run_two_blinks(fast, slow, 30);
    assert_eq!(run.end_millis, 2900);
    assert_eq!(run.first.len(), 30);
    assert_eq!(run.second.len(), 3);
    for (k, entry) in run.first.iter().enumerate() {
        assert_eq!(entry.0, 100 * k as u64);
        assert_eq!(entry.1, k % 2 == 0);
    }
    assert_eq!(run.second, vec![(0, true), (1000, false), (2000, true)]);
}

#[test]
fn equal_periods_share_every_instant() {
    let a = BlinkConfig { initial_high: true, half_period_millis: 50 };
    let b = BlinkConfig { initial_high: false, half_period_millis: 50 };
    let run = run_two_blinks(a, b, 4);
    assert_eq!(run.end_millis, 150);
    assert_eq!(run.first, vec![(0, true), (50, false), (100, true), (150, false)]);
    assert_eq!(run.second, vec![(0, false), (50, true), (100, false), (150, true)]);
}

#[test]
fn no_rounds_no_transitions() {
    let a = BlinkConfig { initial_high: true, half_period_millis: 1 };
    let b = BlinkConfig { initial_high: true, half_period_millis: 2 };
    let run = run_two_blinks(a, b, 0);
    assert!(run.first.is_empty());
    assert!(run.second.is_empty());
}

#[test]
fn boot_round_runs_both_tasks_at_instant_zero() {
    let a = BlinkConfig { initial_high: true, half_period_millis: 3 };
    let b = BlinkConfig { initial_high: false, half_period_millis: 9 };
    let run = run_two_blinks(a, b, 1);
    assert_eq!(run.end_millis, 0);
    assert_eq!(run.first, vec![(0, true)]);
    assert_eq!(run.second, vec![(0, false)]);
}

#[test]
fn shared_scheduler_matches_solo_traces() {
    // The combined run reproduces, transition for transition, what each task
    // produces when run alone.
    let fast = BlinkConfig { initial_high: true, half_period_millis: 300 };
    let slow = BlinkConfig { initial_high: false, half_period_millis: 700 };
    let run = run_two_blinks(fast, slow, 20);
    assert_eq!(run.first, blink_trace(fast, run.first.len()));
    assert_eq!(run.second, blink_trace(slow, run.second.len()));
}
