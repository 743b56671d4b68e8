use firmware_core::blink::blink_trace;
use firmware_core::blink::BlinkConfig;
use firmware_core::blink::BlinkTask;

#[test]
fn trace_alternates_from_initial_high() {
    let config = BlinkConfig { initial_high: true, half_period_millis: 100 };
    let trace = blink_trace(config, 5);
    assert_eq!(
        trace,
        vec![(0, true), (100, false), (200, true), (300, false), (400, true)]
    );
}

#[test]
fn trace_alternates_from_initial_low() {
    let config = BlinkConfig { initial_high: false, half_period_millis: 250 };
    let trace = blink_trace(config, 4);
    assert_eq!(trace, vec![(0, false), (250, true), (500, false), (750, true)]);
}

#[test]
fn empty_trace_for_zero_steps() {
    let config = BlinkConfig { initial_high: true, half_period_millis: 1 };
    assert_eq!(blink_trace(config, 0), vec![]);
}

#[test]
fn two_toggles_per_full_period() {
    // Over any window two half-periods wide and aligned on an even
    // transition, exactly two transitions fall inside.
    let config = BlinkConfig { initial_high: true, half_period_millis: 100 };
    let trace = blink_trace(config, 20);
    for k in 0..9 {
        let window_start = trace[2 * k].0;
        let inside = trace
            .iter()
            .filter(|entry| window_start <= entry.0 && entry.0 < window_start + 200)
            .count();
        assert_eq!(inside, 2);
    }
}

#[test]
fn task_steps_follow_the_schedule() {
    let config = BlinkConfig { initial_high: true, half_period_millis: 7 };
    let mut task = BlinkTask::new(config);
    let first = task.step();
    assert!(first.drive_high);
    assert_eq!(first.rest_millis, 7);
    let second = task.step();
    assert!(!second.drive_high);
    let third = task.step();
    assert!(third.drive_high);
}
