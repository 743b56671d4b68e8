use firmware_core::scheduler::Event;
use firmware_core::scheduler::Scheduler;
use firmware_core::scheduler::WaitCondition;

#[test]
fn spawn_numbers_tasks_in_order() {
    let mut sched = Scheduler::new();
    assert_eq!(sched.spawn(), 0);
    assert_eq!(sched.spawn(), 1);
    assert_eq!(sched.spawn(), 2);
}

#[test]
fn ready_tasks_resume_in_insertion_order() {
    let mut sched = Scheduler::new();
    sched.spawn();
    sched.spawn();
    sched.start();
    // Both became ready simultaneously at boot: insertion order decides.
    assert_eq!(sched.resume_next(), Some(0));
    sched.suspend(0, WaitCondition::AdcConversion);
    assert_eq!(sched.resume_next(), Some(1));
    sched.suspend(1, WaitCondition::RisingEdge(3));
    assert_eq!(sched.resume_next(), None);
}

#[test]
fn signal_wakes_only_matching_conditions() {
    let mut sched = Scheduler::new();
    sched.spawn();
    sched.spawn();
    sched.spawn();
    sched.start();
    sched.resume_next();
    sched.suspend(0, WaitCondition::Deadline(100));
    sched.resume_next();
    sched.suspend(1, WaitCondition::AdcConversion);
    sched.resume_next();
    sched.suspend(2, WaitCondition::RisingEdge(3));

    // The clock has not reached the deadline: nothing wakes.
    sched.signal(Event::TimeReached(99));
    assert_eq!(sched.resume_next(), None);
    // An edge on another channel wakes nothing.
    sched.signal(Event::RisingEdge(2));
    assert_eq!(sched.resume_next(), None);

    sched.signal(Event::AdcConversionDone);
    assert_eq!(sched.resume_next(), Some(1));
    sched.suspend(1, WaitCondition::AdcConversion);

    sched.signal(Event::TimeReached(100));
    assert_eq!(sched.resume_next(), Some(0));
    sched.suspend(0, WaitCondition::Deadline(200));

    sched.signal(Event::RisingEdge(3));
    assert_eq!(sched.resume_next(), Some(2));
    sched.suspend(2, WaitCondition::RisingEdge(3));
    assert_eq!(sched.resume_next(), None);
}

#[test]
fn a_signal_is_consumed_exactly_once() {
    let mut sched = Scheduler::new();
    sched.spawn();
    sched.start();
    sched.resume_next();
    sched.suspend(0, WaitCondition::AdcConversion);
    sched.signal(Event::AdcConversionDone);
    assert_eq!(sched.resume_next(), Some(0));
    sched.suspend(0, WaitCondition::AdcConversion);
    // The signal was consumed by the one resumption: no double consumption.
    assert_eq!(sched.resume_next(), None);
}

#[test]
fn blocked_task_does_not_stall_the_others() {
    let mut sched = Scheduler::new();
    sched.spawn();
    sched.spawn();
    sched.start();
    sched.resume_next();
    // Task 0 waits on an edge that never fires.
    sched.suspend(0, WaitCondition::RisingEdge(7));
    sched.resume_next();
    sched.suspend(1, WaitCondition::Deadline(10));
    for tick in 1..=5u64 {
        sched.signal(Event::TimeReached(tick * 10));
        assert_eq!(sched.resume_next(), Some(1));
        sched.suspend(1, WaitCondition::Deadline((tick + 1) * 10));
        assert_eq!(sched.resume_next(), None);
    }
}
