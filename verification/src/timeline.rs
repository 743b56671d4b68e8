//! The scheduler run over two digital output tasks: each round the clock
//! advances to the earliest pending deadline, the wakeup bridge signals it,
//! and the scheduler resumes every task due at that instant in insertion
//! order. Each task's observed trace equals the schedule it would produce
//! alone: sharing the scheduler distorts neither task's timing.

use vstd::prelude::*;

use crate::blink::BlinkConfig;
use crate::blink::BlinkTask;
use crate::blink::blink_instant;
use crate::blink::blink_level;
use crate::scheduler::Event;
use crate::scheduler::Scheduler;
use crate::scheduler::TaskStatus;
use crate::scheduler::WaitCondition;

verus! {

/// What a scheduler run over two digital output tasks observed: each task's
/// transitions (instant in milliseconds, level driven), and the clock value
/// of the last round.
pub struct TwoBlinkRun {
    /// Transitions of the task spawned first.
    pub first: Vec<(u64, bool)>,
    /// Transitions of the task spawned second.
    pub second: Vec<(u64, bool)>,
    /// The instant the last round ran at.
    pub end_millis: u64,
}

/// A trace follows the solo schedule of its configuration exactly: the `k`-th
/// transition at instant `k` half-periods, driving the alternating level.
pub open spec fn follows_schedule(trace: Seq<(u64, bool)>, config: BlinkConfig) -> bool {
    forall|k: int|
        0 <= k < trace.len() ==> trace[k].0 == blink_instant(config.half_period_millis, k as nat)
            && trace[k].1 == blink_level(config.initial_high, k as nat)
}

/// Runs the cooperative scheduler over two digital output tasks for the given
/// number of rounds. A round advances the clock to the earliest pending
/// deadline, raises the wakeup signal, and resumes every due task, in
/// insertion order; the first round is boot, where both tasks run at instant
/// zero. Both tasks keep their solo schedules, every deadline due by the end
/// has been served, and every round resumed at least one task.
pub fn run_two_blinks(first: BlinkConfig, second: BlinkConfig, rounds: usize) -> (r: TwoBlinkRun)
    requires
        first.half_period_millis >= 1,
        second.half_period_millis >= 1,
        rounds as int * first.half_period_millis as int <= u64::MAX as int,
        rounds as int * second.half_period_millis as int <= u64::MAX as int,
    ensures
        follows_schedule(r.first@, first),
        follows_schedule(r.second@, second),
        r.first@.len() <= rounds,
        r.second@.len() <= rounds,
        rounds == 0 ==> r.first@.len() == 0 && r.second@.len() == 0,
        rounds >= 1 ==> r.first@.len() + r.second@.len() > rounds,
        rounds >= 1 ==> r.first@.len() * first.half_period_millis as int > r.end_millis as int && (
        r.first@.len() - 1) * first.half_period_millis as int <= r.end_millis as int,
        rounds >= 1 ==> r.second@.len() * second.half_period_millis as int > r.end_millis as int
            && (r.second@.len() - 1) * second.half_period_millis as int <= r.end_millis as int,
{
    let p1 = first.half_period_millis;
    let p2 = second.half_period_millis;
    let mut trace1: Vec<(u64, bool)> = Vec::new();
    let mut trace2: Vec<(u64, bool)> = Vec::new();
    if rounds == 0 {
        return TwoBlinkRun { first: trace1, second: trace2, end_millis: 0 };
    }
    let mut sched = Scheduler::new();
    let first_id = sched.spawn();
    let second_id = sched.spawn();
    proof {
        assert(first_id == 0);
        assert(second_id == 1);
    }
    sched.start();
    let mut task1 = BlinkTask::new(first);
    let mut task2 = BlinkTask::new(second);

    // Boot round, at instant zero: both tasks are ready from spawn; the
    // scheduler resumes them in insertion order and each drives its first
    // transition, then suspends until one half-period from start.
    proof {
        assert(sched.statuses@.len() == 2);
        assert(sched.statuses@[0] is Ready);
        assert(sched.statuses@[1] is Ready);
    }
    let resumed = sched.resume_next();
    proof {
        assert(resumed == Some(0usize));
    }
    let cmd1 = task1.step();
    trace1.push((0, cmd1.drive_high));
    let mut deadline1 = cmd1.rest_millis;
    sched.suspend(0, WaitCondition::Deadline(deadline1));
    proof {
        assert(!(sched.statuses@[0] is Ready));
        assert(sched.statuses@[1] is Ready);
    }
    let resumed = sched.resume_next();
    proof {
        assert(resumed == Some(1usize));
    }
    let cmd2 = task2.step();
    trace2.push((0, cmd2.drive_high));
    let mut deadline2 = cmd2.rest_millis;
    sched.suspend(1, WaitCondition::Deadline(deadline2));
    proof {
        assert(!(sched.statuses@[0] is Ready));
        assert(!(sched.statuses@[1] is Ready));
    }
    let drained = sched.resume_next();
    proof {
        assert(drained is None);
        assert(trace1@ =~= seq![(0u64, cmd1.drive_high)]);
        assert(trace2@ =~= seq![(0u64, cmd2.drive_high)]);
        assert forall|k: int| 0 <= k < trace1@.len() implies trace1@[k].0 == blink_instant(
            first.half_period_millis,
            k as nat,
        ) && trace1@[k].1 == blink_level(first.initial_high, k as nat) by {
            assert(k == 0);
            assert(trace1@[0] == (0u64, cmd1.drive_high));
        }
        assert forall|k: int| 0 <= k < trace2@.len() implies trace2@[k].0 == blink_instant(
            second.half_period_millis,
            k as nat,
        ) && trace2@[k].1 == blink_level(second.initial_high, k as nat) by {
            assert(k == 0);
            assert(trace2@[0] == (0u64, cmd2.drive_high));
        }
        assert(follows_schedule(trace1@, first));
        assert(follows_schedule(trace2@, second));
    }

    let mut end: u64 = 0;
    let mut round: usize = 1;
    while round < rounds
        invariant
            first.half_period_millis == p1,
            second.half_period_millis == p2,
            p1 >= 1,
            p2 >= 1,
            rounds as int * p1 as int <= u64::MAX as int,
            rounds as int * p2 as int <= u64::MAX as int,
            1 <= round <= rounds,
            sched.wf(),
            sched.statuses@.len() == 2,
            sched.statuses@[0] == TaskStatus::Waiting(WaitCondition::Deadline(deadline1)),
            sched.statuses@[1] == TaskStatus::Waiting(WaitCondition::Deadline(deadline2)),
            task1.wf(),
            task2.wf(),
            task1.config == first,
            task2.config == second,
            task1.transitions == trace1@.len(),
            task2.transitions == trace2@.len(),
            1 <= trace1@.len() <= round,
            1 <= trace2@.len() <= round,
            trace1@.len() + trace2@.len() >= round + 1,
            deadline1 == trace1@.len() * p1 as int,
            deadline2 == trace2@.len() * p2 as int,
            deadline1 > end,
            deadline2 > end,
            (trace1@.len() - 1) * p1 as int <= end as int,
            (trace2@.len() - 1) * p2 as int <= end as int,
            follows_schedule(trace1@, first),
            follows_schedule(trace2@, second),
        decreases rounds - round,
    {
        // The processor sleeps until the next interrupt: the clock reaches
        // the earliest pending deadline and the bridge signals it.
        let now = if deadline1 <= deadline2 {
            deadline1
        } else {
            deadline2
        };
        sched.signal(Event::TimeReached(now));
        if deadline1 <= now {
            proof {
                assert(sched.statuses@[0] is Ready);
            }
            let resumed = sched.resume_next();
            proof {
                assert(resumed == Some(0usize));
                vstd::arithmetic::mul::lemma_mul_inequality(
                    trace1@.len() as int + 1,
                    rounds as int,
                    p1 as int,
                );
                vstd::arithmetic::mul::lemma_mul_is_distributive_add_other_way(
                    p1 as int,
                    trace1@.len() as int,
                    1,
                );
            }
            let cmd = task1.step();
            trace1.push((now, cmd.drive_high));
            deadline1 = deadline1 + cmd.rest_millis;
            sched.suspend(0, WaitCondition::Deadline(deadline1));
        }
        if deadline2 <= now {
            proof {
                assert(!(sched.statuses@[0] is Ready));
                assert(sched.statuses@[1] is Ready);
            }
            let resumed = sched.resume_next();
            proof {
                assert(resumed == Some(1usize));
                vstd::arithmetic::mul::lemma_mul_inequality(
                    trace2@.len() as int + 1,
                    rounds as int,
                    p2 as int,
                );
                vstd::arithmetic::mul::lemma_mul_is_distributive_add_other_way(
                    p2 as int,
                    trace2@.len() as int,
                    1,
                );
            }
            let cmd = task2.step();
            trace2.push((now, cmd.drive_high));
            deadline2 = deadline2 + cmd.rest_millis;
            sched.suspend(1, WaitCondition::Deadline(deadline2));
        }
        proof {
            assert(!(sched.statuses@[0] is Ready));
            assert(!(sched.statuses@[1] is Ready));
        }
        let drained = sched.resume_next();
        proof {
            assert(drained is None);
        }
        end = now;
        round = round + 1;
    }
    TwoBlinkRun { first: trace1, second: trace2, end_millis: end }
}

} // verus!
