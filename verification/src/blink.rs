//! Digital output tasks: periodic level-toggling control loops, each owning
//! one pin, parameterized by an initial level and a half-period.

use vstd::prelude::*;

verus! {

/// Static parameters of one digital output task, fixed at spawn time.
#[derive(Clone, Copy, Debug, PartialEq, Eq, Structural)]
pub struct BlinkConfig {
    /// The level the task drives on its first transition, at task start.
    pub initial_high: bool,
    /// How long each level is held, in milliseconds.
    pub half_period_millis: u64,
}

/// The level a digital output task drives on its `n`-th transition: the
/// initial level on even transitions, its inverse on odd ones.
pub open spec fn blink_level(initial_high: bool, n: nat) -> bool {
    if n % 2 == 0 {
        initial_high
    } else {
        !initial_high
    }
}

/// The instant, in milliseconds from task start, of a task's `n`-th
/// transition: one half-period after the previous one, the first at start.
pub open spec fn blink_instant(half_period_millis: u64, n: nat) -> int {
    n * half_period_millis
}

/// What a digital output task asks of the hardware each time it is resumed:
/// drive the pin to a level, then rest for the task's half-period.
#[derive(Clone, Copy, Debug, PartialEq, Eq, Structural)]
pub struct BlinkCommand {
    /// The level to drive now.
    pub drive_high: bool,
    /// How long to suspend before the next transition, in milliseconds.
    pub rest_millis: u64,
}

/// One digital output task: drives a level, rests half a period, inverts the
/// level, and repeats forever.
pub struct BlinkTask {
    /// The task's spawn-time parameters.
    pub config: BlinkConfig,
    /// Transitions driven so far.
    pub transitions: u64,
    /// The level the next transition will drive.
    pub next_high: bool,
}

impl BlinkTask {
    /// The task's private state always agrees with the transition schedule.
    pub open spec fn wf(self) -> bool {
        self.next_high == blink_level(self.config.initial_high, self.transitions as nat)
    }

    /// Creates the task; it has driven nothing yet and will drive the
    /// initial level when first resumed.
    pub fn new(config: BlinkConfig) -> (t: Self)
        ensures
            t.wf(),
            t.config == config,
            t.transitions == 0,
    {
        BlinkTask { config, transitions: 0, next_high: config.initial_high }
    }

    /// One resumption of the task's loop: drives the next level of the
    /// alternating schedule and asks to rest for the half-period.
    pub fn step(&mut self) -> (cmd: BlinkCommand)
        requires
            old(self).wf(),
            old(self).transitions < u64::MAX,
        ensures
            final(self).wf(),
            final(self).config == old(self).config,
            final(self).transitions == old(self).transitions + 1,
            cmd.drive_high == blink_level(
                old(self).config.initial_high,
                old(self).transitions as nat,
            ),
            cmd.rest_millis == old(self).config.half_period_millis,
    {
        let cmd = BlinkCommand {
            drive_high: self.next_high,
            rest_millis: self.config.half_period_millis,
        };
        self.next_high = !self.next_high;
        self.transitions = self.transitions + 1;
        cmd
    }
}

/// Runs one digital output task alone for a given number of transitions and
/// returns its trace: each entry is the instant of a transition, in
/// milliseconds from task start, and the level driven there.
pub fn blink_trace(config: BlinkConfig, steps: usize) -> (trace: Vec<(u64, bool)>)
    requires
        steps as int * config.half_period_millis as int <= u64::MAX as int,
    ensures
        trace@.len() == steps,
        forall|k: int|
            0 <= k < steps ==> trace@[k].0 == blink_instant(config.half_period_millis, k as nat)
                && trace@[k].1 == blink_level(config.initial_high, k as nat),
{
    let mut trace: Vec<(u64, bool)> = Vec::new();
    let mut task = BlinkTask::new(config);
    let mut now: u64 = 0;
    while trace.len() < steps
        invariant
            task.wf(),
            task.config == config,
            task.transitions == trace@.len(),
            trace@.len() <= steps,
            steps as int * config.half_period_millis as int <= u64::MAX as int,
            now == trace@.len() * config.half_period_millis as int,
            forall|k: int|
                0 <= k < trace@.len() ==> trace@[k].0 == blink_instant(
                    config.half_period_millis,
                    k as nat,
                ) && trace@[k].1 == blink_level(config.initial_high, k as nat),
        decreases steps - trace.len(),
    {
        proof {
            vstd::arithmetic::mul::lemma_mul_inequality(
                trace@.len() as int + 1,
                steps as int,
                config.half_period_millis as int,
            );
            vstd::arithmetic::mul::lemma_mul_is_distributive_add_other_way(
                config.half_period_millis as int,
                trace@.len() as int,
                1,
            );
        }
        let cmd = task.step();
        trace.push((now, cmd.drive_high));
        now = now + cmd.rest_millis;
    }
    trace
}

/// The number of the first transition at or after a given instant.
pub open spec fn first_transition_from(half_period_millis: u64, start: int) -> int {
    (start + half_period_millis - 1) / (half_period_millis as int)
}

/// Law: a digital output task toggles exactly twice every two half-periods,
/// wherever the window is put: of all transition instants, exactly two
/// consecutive ones fall inside any half-open window two half-periods wide.
pub proof fn lemma_two_toggles_in_any_window(p: u64, start: int, n: nat)
    requires
        p >= 1,
        start >= 0,
    ensures
        (start <= blink_instant(p, n) < start + 2 * p) <==> (n == first_transition_from(p, start)
            || n == first_transition_from(p, start) + 1),
{
    let pi = p as int;
    let n0 = first_transition_from(p, start);
    vstd::arithmetic::div_mod::lemma_fundamental_div_mod(start + pi - 1, pi);
    vstd::arithmetic::div_mod::lemma_mod_bound(start + pi - 1, pi);
    let r = (start + pi - 1) % pi;
    assert(n0 * pi == start + pi - 1 - r);
    assert((start <= n * pi < start + 2 * pi) <==> (n == n0 || n == n0 + 1)) by (nonlinear_arith)
        requires
            pi >= 1,
            start >= 0,
            n >= 0,
            start <= n0 * pi,
            n0 * pi <= start + pi - 1;
}

/// Law: a digital output task with half-period `p` toggles exactly twice in
/// every full period: of all transition instants, exactly the `2k`-th and the
/// `(2k + 1)`-th fall inside the window starting at instant `2k` and two
/// half-periods wide; consecutive transitions drive opposite levels; and the
/// first transition, at task start (instant zero), drives the initial level.
pub proof fn lemma_two_toggles_per_period(p: u64, initial_high: bool, k: nat, n: nat)
    requires
        p >= 1,
    ensures
        (blink_instant(p, 2 * k) <= blink_instant(p, n) < blink_instant(p, 2 * k) + 2 * p) <==> (n
            == 2 * k || n == 2 * k + 1),
        blink_level(initial_high, n) != blink_level(initial_high, n + 1),
        blink_instant(p, 0) == 0,
        blink_level(initial_high, 0) == initial_high,
{
    assert((2 * k * p <= n * p < 2 * k * p + 2 * p) <==> (n == 2 * k || n == 2 * k + 1))
        by (nonlinear_arith)
        requires
            p >= 1;
    assert(n % 2 != (n + 1) % 2);
}

} // verus!
