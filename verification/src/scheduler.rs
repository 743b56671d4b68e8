//! The cooperative scheduler and the wakeup bridge: a fixed set of tasks,
//! each running until it suspends on a hardware condition; interrupts raise
//! ready signals, and the scheduler resumes ready tasks in insertion order.

use vstd::prelude::*;

verus! {

/// A hardware event the wakeup bridge reports to the scheduler.
#[derive(Clone, Copy, Debug, PartialEq, Eq, Structural)]
pub enum Event {
    /// The clock reached this many milliseconds since boot.
    TimeReached(u64),
    /// The analog-to-digital converter finished a conversion.
    AdcConversionDone,
    /// A rising edge was captured on this timer channel.
    RisingEdge(u8),
}

/// What a suspended task is waiting for.
#[derive(Clone, Copy, Debug, PartialEq, Eq, Structural)]
pub enum WaitCondition {
    /// The clock reaching this deadline, in milliseconds since boot.
    Deadline(u64),
    /// The analog-to-digital converter finishing its conversion.
    AdcConversion,
    /// A rising edge on this timer channel.
    RisingEdge(u8),
}

/// Whether an event satisfies a wait condition: a deadline is satisfied once
/// the clock has reached it; the other conditions match their event exactly.
pub open spec fn wakes(cond: WaitCondition, event: Event) -> bool {
    match (cond, event) {
        (WaitCondition::Deadline(deadline), Event::TimeReached(now)) => deadline <= now,
        (WaitCondition::AdcConversion, Event::AdcConversionDone) => true,
        (WaitCondition::RisingEdge(waited), Event::RisingEdge(seen)) => waited == seen,
        _ => false,
    }
}

/// The scheduler's view of one task.
#[derive(Clone, Copy, Debug, PartialEq, Eq, Structural)]
pub enum TaskStatus {
    /// Runnable: its awaited condition became true and was not yet consumed.
    Ready,
    /// Currently executing; at most one task at a time.
    Running,
    /// Suspended until its condition becomes true.
    Waiting(WaitCondition),
}

/// The cooperative scheduler: one status per spawned task, in spawn order.
pub struct Scheduler {
    /// One entry per task, indexed by the identifier `spawn` returned.
    pub statuses: Vec<TaskStatus>,
    /// Whether the run loop has begun; no task may be spawned after that.
    pub started: bool,
}

impl Scheduler {
    /// Single-threaded execution: at most one task is running at a time.
    pub open spec fn wf(self) -> bool {
        forall|i: int, j: int|
            0 <= i < self.statuses@.len() && 0 <= j < self.statuses@.len()
                && self.statuses@[i] is Running && self.statuses@[j] is Running ==> i == j
    }

    /// A scheduler with no tasks, before its run loop has begun.
    pub fn new() -> (s: Self)
        ensures
            s.wf(),
            s.statuses@ =~= Seq::<TaskStatus>::empty(),
            !s.started,
    {
        Scheduler { statuses: Vec::new(), started: false }
    }

    /// Registers one task before the run loop starts and returns its
    /// identifier; the task is ready to run from boot. Spawning after the
    /// loop has begun is a boot-time fatal error, excluded here.
    pub fn spawn(&mut self) -> (id: usize)
        requires
            !old(self).started,
            old(self).statuses@.len() < usize::MAX,
        ensures
            old(self).wf() ==> final(self).wf(),
            id == old(self).statuses@.len(),
            final(self).statuses@ =~= old(self).statuses@.push(TaskStatus::Ready),
            !final(self).started,
    {
        let id = self.statuses.len();
        self.statuses.push(TaskStatus::Ready);
        proof {
            if old(self).wf() {
                assert forall|i: int, j: int|
                    0 <= i < self.statuses@.len() && 0 <= j < self.statuses@.len()
                        && self.statuses@[i] is Running && self.statuses@[j] is Running implies i
                    == j by {
                    assert(self.statuses@[i] == old(self).statuses@[i]);
                    assert(self.statuses@[j] == old(self).statuses@[j]);
                }
            }
        }
        id
    }

    /// Enters the run loop: from here on the task set is fixed.
    pub fn start(&mut self)
        ensures
            final(self).statuses@ == old(self).statuses@,
            final(self).started,
    {
        self.started = true;
    }

    /// The wakeup bridge's half: an interrupt fired, carrying this event.
    /// Exactly the tasks suspended on a condition the event satisfies become
    /// ready; every other entry is untouched, so no signal is raised without
    /// a prior matching suspension.
    pub fn signal(&mut self, event: Event)
        ensures
            final(self).statuses@.len() == old(self).statuses@.len(),
            final(self).started == old(self).started,
            forall|i: int|
                0 <= i < old(self).statuses@.len() ==> final(self).statuses@[i] == (
                match old(self).statuses@[i] {
                    TaskStatus::Waiting(cond) => if wakes(cond, event) {
                        TaskStatus::Ready
                    } else {
                        TaskStatus::Waiting(cond)
                    },
                    other => other,
                }),
    {
        let mut i: usize = 0;
        while i < self.statuses.len()
            invariant
                i <= self.statuses@.len(),
                self.statuses@.len() == old(self).statuses@.len(),
                self.started == old(self).started,
                forall|j: int|
                    i <= j < old(self).statuses@.len() ==> self.statuses@[j] == old(
                        self,
                    ).statuses@[j],
                forall|j: int|
                    0 <= j < i ==> self.statuses@[j] == (match old(self).statuses@[j] {
                        TaskStatus::Waiting(cond) => if wakes(cond, event) {
                            TaskStatus::Ready
                        } else {
                            TaskStatus::Waiting(cond)
                        },
                        other => other,
                    }),
            decreases self.statuses@.len() - i,
        {
            let woken = match self.statuses[i] {
                TaskStatus::Waiting(cond) => Self::condition_met(cond, event),
                _ => false,
            };
            if woken {
                self.statuses[i] = TaskStatus::Ready;
            }
            i = i + 1;
        }
    }

    /// Decides `wakes` executably.
    fn condition_met(cond: WaitCondition, event: Event) -> (r: bool)
        ensures
            r == wakes(cond, event),
    {
        match (cond, event) {
            (WaitCondition::Deadline(deadline), Event::TimeReached(now)) => deadline <= now,
            (WaitCondition::AdcConversion, Event::AdcConversionDone) => true,
            (WaitCondition::RisingEdge(waited), Event::RisingEdge(seen)) => waited == seen,
            _ => false,
        }
    }

    /// The scheduler's half: consumes one ready signal by resuming the first
    /// ready task in insertion order, or reports that none is ready (the
    /// processor may then sleep until the next interrupt). A consumed signal
    /// is consumed exactly once: the task leaves the ready state here.
    pub fn resume_next(&mut self) -> (r: Option<usize>)
        requires
            old(self).wf(),
            forall|i: int| 0 <= i < old(self).statuses@.len() ==> !(old(self).statuses@[i]
                is Running),
        ensures
            final(self).wf(),
            final(self).started == old(self).started,
            match r {
                Some(id) => id < old(self).statuses@.len() && old(self).statuses@[id as int]
                    is Ready && (forall|j: int| 0 <= j < id ==> !(old(self).statuses@[j] is Ready))
                    && final(self).statuses@ =~= old(self).statuses@.update(
                    id as int,
                    TaskStatus::Running,
                ),
                None => final(self).statuses@ =~= old(self).statuses@ && (forall|j: int|
                    0 <= j < old(self).statuses@.len() ==> !(old(self).statuses@[j] is Ready)),
            },
    {
        let mut i: usize = 0;
        while i < self.statuses.len()
            invariant
                i <= self.statuses@.len(),
                self.statuses@ == old(self).statuses@,
                self.started == old(self).started,
                forall|j: int| 0 <= j < i ==> !(self.statuses@[j] is Ready),
                forall|j: int| 0 <= j < self.statuses@.len() ==> !(self.statuses@[j] is Running),
            decreases self.statuses@.len() - i,
        {
            let ready = match self.statuses[i] {
                TaskStatus::Ready => true,
                _ => false,
            };
            if ready {
                self.statuses[i] = TaskStatus::Running;
                proof {
                    assert forall|a: int, b: int|
                        0 <= a < self.statuses@.len() && 0 <= b < self.statuses@.len()
                            && self.statuses@[a] is Running && self.statuses@[b] is Running implies
                        a == b by {
                        assert(a == i && b == i);
                    }
                }
                return Some(i);
            }
            i = i + 1;
        }
        None
    }

    /// The running task reached an await: it suspends on the given condition
    /// and control returns to the scheduler.
    pub fn suspend(&mut self, id: usize, cond: WaitCondition)
        requires
            id < old(self).statuses@.len(),
            old(self).statuses@[id as int] is Running,
        ensures
            final(self).statuses@ =~= old(self).statuses@.update(
                id as int,
                TaskStatus::Waiting(cond),
            ),
            final(self).started == old(self).started,
            old(self).wf() ==> final(self).wf(),
    {
        self.statuses[id] = TaskStatus::Waiting(cond);
    }
}

} // verus!
