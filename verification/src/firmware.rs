//! The assembled firmware. Boot claims every peripheral handle exactly once
//! from the registry, moves it into the task that will own it for the
//! lifetime of the system, and spawns the full task set before the
//! scheduler's run loop begins. `run_task` is the run loop's decision half:
//! it advances the one resumed task and says what the hardware must perform;
//! the loop around it only performs actions and reports interrupts.

use vstd::prelude::*;

use crate::adc::adc_accepts;
use crate::adc::adc_command;
use crate::adc::adc_next;
use crate::adc::AdcCommand;
use crate::adc::AdcEvent;
use crate::adc::AdcPhase;
use crate::adc::AdcTask;
use crate::adc::SAMPLE_REST_MILLIS;
use crate::blink::blink_level;
use crate::blink::BlinkConfig;
use crate::blink::BlinkTask;
use crate::capture::CaptureChannel;
use crate::handles::HandleRegistry;
use crate::handles::PeripheralHandle;
use crate::scheduler::Scheduler;
use crate::scheduler::TaskStatus;
use crate::scheduler::WaitCondition;

verus! {

/// Boot-time index of the fast indicator's pin.
pub const RESOURCE_FAST_LED: usize = 0;

/// Boot-time index of the slow indicator's pin.
pub const RESOURCE_SLOW_LED: usize = 1;

/// Boot-time index of the analog-to-digital converter unit.
pub const RESOURCE_ADC_UNIT: usize = 2;

/// Boot-time index of the externally sampled analog pin.
pub const RESOURCE_ADC_PIN: usize = 3;

/// Boot-time index of the input-capture timer.
pub const RESOURCE_CAPTURE_TIMER: usize = 4;

/// How many physical resources the firmware uses.
pub const RESOURCE_COUNT: usize = 5;

/// Task identifier of the fast digital output task.
pub const TASK_FAST_BLINK: usize = 0;

/// Task identifier of the slow digital output task.
pub const TASK_SLOW_BLINK: usize = 1;

/// Task identifier of the analog sampling task.
pub const TASK_ADC: usize = 2;

/// Task identifier of the input-capture task.
pub const TASK_CAPTURE: usize = 3;

/// Half-period of the fast digital output task, in milliseconds.
pub const FAST_HALF_PERIOD_MILLIS: u64 = 100;

/// Half-period of the slow digital output task, in milliseconds.
pub const SLOW_HALF_PERIOD_MILLIS: u64 = 1000;

/// The timer channel the capture task watches.
pub const CAPTURE_TIMER_CHANNEL: u8 = 3;

/// The assembled firmware: the scheduler with its fixed task set, each task's
/// private state, and the peripheral handle each task owns exclusively.
pub struct Firmware {
    /// The cooperative scheduler, already started: the task set is fixed.
    pub scheduler: Scheduler,
    /// The fast indicator task and the pin it owns.
    pub fast_blink: BlinkTask,
    pub fast_pin: PeripheralHandle,
    /// The slow indicator task and the pin it owns.
    pub slow_blink: BlinkTask,
    pub slow_pin: PeripheralHandle,
    /// The analog sampling task; it owns the converter and the sampled pin.
    pub adc_task: AdcTask,
    pub adc_unit: PeripheralHandle,
    pub adc_pin: PeripheralHandle,
    /// The capture task's channel state and the timer it owns.
    pub capture: CaptureChannel,
    pub capture_timer: PeripheralHandle,
}

impl Firmware {
    /// What boot establishes and every later step preserves.
    pub open spec fn wf(self) -> bool {
        &&& self.scheduler.wf()
        &&& self.scheduler.statuses@.len() == 4
        &&& self.fast_blink.wf()
        &&& self.slow_blink.wf()
        &&& self.adc_task.wf()
        &&& self.fast_blink.config == (BlinkConfig {
            initial_high: true,
            half_period_millis: FAST_HALF_PERIOD_MILLIS,
        })
        &&& self.slow_blink.config == (BlinkConfig {
            initial_high: true,
            half_period_millis: SLOW_HALF_PERIOD_MILLIS,
        })
        &&& self.fast_pin.resource == RESOURCE_FAST_LED
        &&& self.slow_pin.resource == RESOURCE_SLOW_LED
        &&& self.adc_unit.resource == RESOURCE_ADC_UNIT
        &&& self.adc_pin.resource == RESOURCE_ADC_PIN
        &&& self.capture_timer.resource == RESOURCE_CAPTURE_TIMER
        &&& self.capture.channel == CAPTURE_TIMER_CHANNEL
    }
}

/// What the hardware must perform after one task resumption. The run loop
/// performs it, hands back the event it produces, and sleeps until the next
/// interrupt; it decides nothing itself.
#[derive(Clone, Copy, Debug, PartialEq, Eq, Structural)]
pub enum Action {
    /// Drive the resumed task's pin to this level.
    DriveLevel { high: bool },
    /// Start a conversion, of the internal reference or the external channel,
    /// and interrupt when it completes.
    StartConversion { reference: bool },
    /// Log one converted sample.
    ReportSample { raw: u16, millivolts: u32 },
    /// Log one captured edge.
    ReportCapture { value: u32, channel: u8 },
    /// Nothing happened yet on the capture channel: keep waiting.
    AwaitEdge,
}

impl Firmware {
    /// Runs the task the scheduler just resumed: advances that task's state
    /// machine, suspends it on the condition of its next await, and returns
    /// the one action the hardware must perform. Every other task's state is
    /// untouched: the tasks are independent.
    pub fn run_task(&mut self, id: usize, now: u64, adc_event: AdcEvent) -> (action: Action)
        requires
            old(self).wf(),
            id < 4,
            old(self).scheduler.statuses@[id as int] is Running,
            now + SLOW_HALF_PERIOD_MILLIS <= u64::MAX,
            id == TASK_FAST_BLINK ==> old(self).fast_blink.transitions < u64::MAX,
            id == TASK_SLOW_BLINK ==> old(self).slow_blink.transitions < u64::MAX,
            id == TASK_ADC ==> adc_accepts(old(self).adc_task.phase, adc_event),
        ensures
            final(self).wf(),
            final(self).scheduler.started == old(self).scheduler.started,
            id != TASK_FAST_BLINK ==> final(self).fast_blink == old(self).fast_blink,
            id != TASK_SLOW_BLINK ==> final(self).slow_blink == old(self).slow_blink,
            id != TASK_ADC ==> final(self).adc_task == old(self).adc_task,
            id != TASK_CAPTURE ==> final(self).capture == old(self).capture,
            id == TASK_FAST_BLINK ==> final(self).fast_blink.transitions == old(
                self,
            ).fast_blink.transitions + 1 && action == (Action::DriveLevel {
                high: blink_level(true, old(self).fast_blink.transitions as nat),
            }) && final(self).scheduler.statuses@ =~= old(self).scheduler.statuses@.update(
                id as int,
                TaskStatus::Waiting(WaitCondition::Deadline((now + FAST_HALF_PERIOD_MILLIS) as u64)),
            ),
            id == TASK_SLOW_BLINK ==> final(self).slow_blink.transitions == old(
                self,
            ).slow_blink.transitions + 1 && action == (Action::DriveLevel {
                high: blink_level(true, old(self).slow_blink.transitions as nat),
            }) && final(self).scheduler.statuses@ =~= old(self).scheduler.statuses@.update(
                id as int,
                TaskStatus::Waiting(WaitCondition::Deadline((now + SLOW_HALF_PERIOD_MILLIS) as u64)),
            ),
            id == TASK_ADC ==> final(self).adc_task.phase == adc_next(
                old(self).adc_task.phase,
                adc_event,
            ) && (match adc_command(old(self).adc_task.phase, adc_event) {
                AdcCommand::ReadReference => action == (Action::StartConversion { reference: true })
                    && final(self).scheduler.statuses@ =~= old(self).scheduler.statuses@.update(
                    id as int,
                    TaskStatus::Waiting(WaitCondition::AdcConversion),
                ),
                AdcCommand::ReadExternal => action == (Action::StartConversion { reference: false })
                    && final(self).scheduler.statuses@ =~= old(self).scheduler.statuses@.update(
                    id as int,
                    TaskStatus::Waiting(WaitCondition::AdcConversion),
                ),
                AdcCommand::Report { raw, millivolts } => action == (Action::ReportSample {
                    raw,
                    millivolts,
                }) && final(self).scheduler.statuses@ =~= old(self).scheduler.statuses@.update(
                    id as int,
                    TaskStatus::Waiting(WaitCondition::Deadline((now + SAMPLE_REST_MILLIS) as u64)),
                ),
            }),
            id == TASK_CAPTURE ==> final(self).scheduler.statuses@ =~= old(
                self,
            ).scheduler.statuses@.update(
                id as int,
                TaskStatus::Waiting(WaitCondition::RisingEdge(CAPTURE_TIMER_CHANNEL)),
            ),
            id == TASK_CAPTURE ==> final(self).capture.latched == old(self).capture.latched && !(
            final(self).capture.edge_pending),
            id == TASK_CAPTURE && old(self).capture.edge_pending ==> action == (
            Action::ReportCapture {
                value: old(self).capture.latched,
                channel: old(self).capture.channel,
            }),
            id == TASK_CAPTURE && !old(self).capture.edge_pending ==> action == Action::AwaitEdge,
    {
        if id == TASK_FAST_BLINK {
            let cmd = self.fast_blink.step();
            self.scheduler.suspend(id, WaitCondition::Deadline(now + cmd.rest_millis));
            Action::DriveLevel { high: cmd.drive_high }
        } else if id == TASK_SLOW_BLINK {
            let cmd = self.slow_blink.step();
            self.scheduler.suspend(id, WaitCondition::Deadline(now + cmd.rest_millis));
            Action::DriveLevel { high: cmd.drive_high }
        } else if id == TASK_ADC {
            let cmd = self.adc_task.step(adc_event);
            match cmd {
                AdcCommand::ReadReference => {
                    self.scheduler.suspend(id, WaitCondition::AdcConversion);
                    Action::StartConversion { reference: true }
                },
                AdcCommand::ReadExternal => {
                    self.scheduler.suspend(id, WaitCondition::AdcConversion);
                    Action::StartConversion { reference: false }
                },
                AdcCommand::Report { raw, millivolts } => {
                    self.scheduler.suspend(
                        id,
                        WaitCondition::Deadline(now + SAMPLE_REST_MILLIS),
                    );
                    Action::ReportSample { raw, millivolts }
                },
            }
        } else {
            self.scheduler.suspend(id, WaitCondition::RisingEdge(CAPTURE_TIMER_CHANNEL));
            if self.capture.edge_pending {
                let report = self.capture.take_capture();
                Action::ReportCapture { value: report.value, channel: report.channel }
            } else {
                Action::AwaitEdge
            }
        }
    }
}

/// Assembles the firmware: claims each peripheral's one handle, moves it into
/// its task, spawns the task set, and starts the scheduler. Each resource is
/// claimed exactly once, so no claim fails; every task starts ready, so the
/// first round runs each task once from the top.
pub fn boot() -> (fw: Firmware)
    ensures
        fw.wf(),
        fw.scheduler.started,
        forall|i: int| 0 <= i < 4 ==> fw.scheduler.statuses@[i] is Ready,
        fw.fast_blink.transitions == 0,
        fw.slow_blink.transitions == 0,
        fw.adc_task.phase == AdcPhase::Boot,
        !fw.capture.edge_pending,
{
    let mut registry = HandleRegistry::new(RESOURCE_COUNT);
    // Fresh registry: every claim is the first for its resource.
    let fast_pin = registry.claim(RESOURCE_FAST_LED).unwrap();
    let slow_pin = registry.claim(RESOURCE_SLOW_LED).unwrap();
    let adc_unit = registry.claim(RESOURCE_ADC_UNIT).unwrap();
    let adc_pin = registry.claim(RESOURCE_ADC_PIN).unwrap();
    let capture_timer = registry.claim(RESOURCE_CAPTURE_TIMER).unwrap();

    let mut scheduler = Scheduler::new();
    let fast_id = scheduler.spawn();
    let slow_id = scheduler.spawn();
    let adc_id = scheduler.spawn();
    let capture_id = scheduler.spawn();
    proof {
        assert(fast_id == TASK_FAST_BLINK);
        assert(slow_id == TASK_SLOW_BLINK);
        assert(adc_id == TASK_ADC);
        assert(capture_id == TASK_CAPTURE);
    }
    scheduler.start();

    Firmware {
        scheduler,
        fast_blink: BlinkTask::new(
            BlinkConfig { initial_high: true, half_period_millis: FAST_HALF_PERIOD_MILLIS },
        ),
        fast_pin,
        slow_blink: BlinkTask::new(
            BlinkConfig { initial_high: true, half_period_millis: SLOW_HALF_PERIOD_MILLIS },
        ),
        slow_pin,
        adc_task: AdcTask::new(),
        adc_unit,
        adc_pin,
        capture: CaptureChannel::new(CAPTURE_TIMER_CHANNEL),
        capture_timer,
    }
}

} // verus!
