//! The analog sampling task: it first measures the internal reference once
//! (calibration), then forever samples the external channel, converts each
//! raw count to millivolts against the calibration constant, and rests
//! between samples. Calibration strictly precedes the first conversion, so
//! the division is never by zero.

use vstd::prelude::*;

use crate::convert::convert_to_millivolts;
use crate::convert::millivolts_of;

verus! {

/// Rest between two samples of the external channel, in milliseconds.
pub const SAMPLE_REST_MILLIS: u64 = 100;

/// Where the analog sampling task stands between two of its await points.
#[derive(Clone, Copy, Debug, PartialEq, Eq, Structural)]
pub enum AdcPhase {
    /// Spawned, not yet resumed for the first time.
    Boot,
    /// Awaiting the conversion of the internal reference channel.
    Calibrating,
    /// Awaiting a conversion of the external channel.
    AwaitingSample { calibration: u16 },
    /// Resting between two samples.
    Resting { calibration: u16 },
}

/// An event that resumes the analog sampling task.
#[derive(Clone, Copy, Debug, PartialEq, Eq, Structural)]
pub enum AdcEvent {
    /// The scheduler ran the task for the first time.
    Started,
    /// The converter finished, yielding this raw count.
    ConversionDone(u16),
    /// The inter-sample rest elapsed.
    RestElapsed,
}

/// What the task asks of the hardware when it suspends again.
#[derive(Clone, Copy, Debug, PartialEq, Eq, Structural)]
pub enum AdcCommand {
    /// Enable the internal reference, start converting it, await the result.
    ReadReference,
    /// Start converting the external channel and await the result.
    ReadExternal,
    /// Report one sample, then rest for `SAMPLE_REST_MILLIS`.
    Report { raw: u16, millivolts: u32 },
}

/// The calibration constant a phase carries, once measured.
pub open spec fn calibration_of(phase: AdcPhase) -> Option<u16> {
    match phase {
        AdcPhase::Boot => None,
        AdcPhase::Calibrating => None,
        AdcPhase::AwaitingSample { calibration } => Some(calibration),
        AdcPhase::Resting { calibration } => Some(calibration),
    }
}

/// Which events a phase can consume. Each await is unconditional: the
/// scheduler resumes the task only on the one event it suspended on. The
/// internal reference is a fixed non-zero voltage, so the conversion that
/// completes calibration yields a non-zero count.
pub open spec fn adc_accepts(phase: AdcPhase, event: AdcEvent) -> bool {
    match (phase, event) {
        (AdcPhase::Boot, AdcEvent::Started) => true,
        (AdcPhase::Calibrating, AdcEvent::ConversionDone(raw)) => raw != 0,
        (AdcPhase::AwaitingSample { .. }, AdcEvent::ConversionDone(_)) => true,
        (AdcPhase::Resting { .. }, AdcEvent::RestElapsed) => true,
        _ => false,
    }
}

/// The phase after one resumption.
pub open spec fn adc_next(phase: AdcPhase, event: AdcEvent) -> AdcPhase {
    match (phase, event) {
        (AdcPhase::Boot, AdcEvent::Started) => AdcPhase::Calibrating,
        (AdcPhase::Calibrating, AdcEvent::ConversionDone(raw)) => AdcPhase::AwaitingSample {
            calibration: raw,
        },
        (AdcPhase::AwaitingSample { calibration }, AdcEvent::ConversionDone(_)) => AdcPhase::Resting {
            calibration,
        },
        (AdcPhase::Resting { calibration }, AdcEvent::RestElapsed) => AdcPhase::AwaitingSample {
            calibration,
        },
        _ => phase,
    }
}

/// What the task asks for on one resumption: the reference conversion when it
/// first runs, a report of the converted sample when a conversion of the
/// external channel finished, and an external conversion otherwise.
pub open spec fn adc_command(phase: AdcPhase, event: AdcEvent) -> AdcCommand {
    match (phase, event) {
        (AdcPhase::Boot, AdcEvent::Started) => AdcCommand::ReadReference,
        (AdcPhase::AwaitingSample { calibration }, AdcEvent::ConversionDone(raw)) => AdcCommand::Report {
            raw,
            millivolts: millivolts_of(raw, calibration) as u32,
        },
        _ => AdcCommand::ReadExternal,
    }
}

/// The sample one resumption reports, if any: only a conversion of the
/// external channel is reported, as the raw count and its millivolt value.
pub open spec fn adc_report(phase: AdcPhase, event: AdcEvent) -> Option<(u16, u32)> {
    match (phase, event) {
        (AdcPhase::AwaitingSample { calibration }, AdcEvent::ConversionDone(raw)) => Some(
            (raw, millivolts_of(raw, calibration) as u32),
        ),
        _ => None,
    }
}

/// The analog sampling task's private state.
pub struct AdcTask {
    /// Where the task stands; carries the calibration constant once measured.
    pub phase: AdcPhase,
}

impl AdcTask {
    /// The calibration constant, once measured, is never zero: the hazard of
    /// dividing by zero is unreachable.
    pub open spec fn wf(self) -> bool {
        match calibration_of(self.phase) {
            Some(calibration) => calibration != 0,
            None => true,
        }
    }

    /// Creates the task; nothing has been measured yet.
    pub fn new() -> (t: Self)
        ensures
            t.wf(),
            t.phase == AdcPhase::Boot,
    {
        AdcTask { phase: AdcPhase::Boot }
    }

    /// One resumption of the task's loop: consumes the event it awaited,
    /// moves to the next phase, and says what to do before the next await.
    pub fn step(&mut self, event: AdcEvent) -> (cmd: AdcCommand)
        requires
            old(self).wf(),
            adc_accepts(old(self).phase, event),
        ensures
            final(self).wf(),
            final(self).phase == adc_next(old(self).phase, event),
            cmd == adc_command(old(self).phase, event),
    {
        match (self.phase, event) {
            (AdcPhase::Boot, AdcEvent::Started) => {
                self.phase = AdcPhase::Calibrating;
                AdcCommand::ReadReference
            },
            (AdcPhase::Calibrating, AdcEvent::ConversionDone(raw)) => {
                self.phase = AdcPhase::AwaitingSample { calibration: raw };
                AdcCommand::ReadExternal
            },
            (AdcPhase::AwaitingSample { calibration }, AdcEvent::ConversionDone(raw)) => {
                self.phase = AdcPhase::Resting { calibration };
                AdcCommand::Report { raw, millivolts: convert_to_millivolts(raw, calibration) }
            },
            (AdcPhase::Resting { calibration }, AdcEvent::RestElapsed) => {
                self.phase = AdcPhase::AwaitingSample { calibration };
                AdcCommand::ReadExternal
            },
            _ => AdcCommand::ReadReference,
        }
    }
}

/// The phase after consuming a whole event sequence, from boot.
pub open spec fn adc_run(events: Seq<AdcEvent>) -> AdcPhase
    decreases events.len(),
{
    if events.len() == 0 {
        AdcPhase::Boot
    } else {
        adc_next(adc_run(events.drop_last()), events.last())
    }
}

/// Whether every event of the sequence is accepted where it arrives.
pub open spec fn adc_run_ok(events: Seq<AdcEvent>) -> bool
    decreases events.len(),
{
    if events.len() == 0 {
        true
    } else {
        adc_run_ok(events.drop_last()) && adc_accepts(adc_run(events.drop_last()), events.last())
    }
}

/// All samples the task reports over an event sequence, in order.
pub open spec fn adc_reports(events: Seq<AdcEvent>) -> Seq<(u16, u32)>
    decreases events.len(),
{
    if events.len() == 0 {
        Seq::empty()
    } else {
        let earlier = adc_reports(events.drop_last());
        match adc_report(adc_run(events.drop_last()), events.last()) {
            Some(sample) => earlier.push(sample),
            None => earlier,
        }
    }
}

/// Law: the calibration constant, once measured, never changes.
pub proof fn lemma_calibration_stable(phase: AdcPhase, event: AdcEvent)
    requires
        adc_accepts(phase, event),
        calibration_of(phase) is Some,
    ensures
        calibration_of(adc_next(phase, event)) == calibration_of(phase),
{
}

/// Law: the calibration constant is exactly the first conversion the task
/// ever receives — the reference sample, measured before any external count.
pub proof fn lemma_constant_is_first_conversion(events: Seq<AdcEvent>)
    requires
        adc_run_ok(events),
        events.len() >= 2,
    ensures
        events[1] matches AdcEvent::ConversionDone(raw) && calibration_of(adc_run(events))
            == Some(raw),
    decreases events.len(),
{
    if events.len() == 2 {
        let prefix = events.drop_last();
        assert(prefix.last() == events[0]);
        assert(prefix.drop_last().len() == 0);
        assert(adc_run(prefix.drop_last()) == AdcPhase::Boot);
        assert(adc_run_ok(prefix));
        assert(adc_accepts(adc_run(prefix.drop_last()), prefix.last()));
        assert(adc_run(prefix) == AdcPhase::Calibrating);
    } else {
        lemma_constant_is_first_conversion(events.drop_last());
        assert(events.drop_last()[1] == events[1]);
        lemma_calibration_stable(adc_run(events.drop_last()), events.last());
    }
}

/// Law: calibration completes before the first conversion. Over any event
/// sequence the task accepts from boot: while no calibration constant has
/// been measured the task has reported nothing, and once one is measured it
/// is non-zero and every sample ever reported was converted against it.
pub proof fn lemma_calibration_precedes_conversion(events: Seq<AdcEvent>)
    requires
        adc_run_ok(events),
    ensures
        calibration_of(adc_run(events)) is None ==> adc_reports(events).len() == 0,
        calibration_of(adc_run(events)) matches Some(calibration) ==> calibration != 0 && (forall|
            k: int,
        |
            0 <= k < adc_reports(events).len() ==> adc_reports(events)[k].1 == millivolts_of(
                adc_reports(events)[k].0,
                calibration,
            ) as u32),
    decreases events.len(),
{
    if events.len() > 0 {
        lemma_calibration_precedes_conversion(events.drop_last());
        let earlier_run = adc_run(events.drop_last());
        let earlier = adc_reports(events.drop_last());
        if calibration_of(adc_run(events)) is Some {
            let calibration = calibration_of(adc_run(events)).unwrap();
            assert forall|k: int| 0 <= k < adc_reports(events).len() implies adc_reports(
                events,
            )[k].1 == millivolts_of(adc_reports(events)[k].0, calibration) as u32 by {
                if k < earlier.len() {
                    assert(adc_reports(events)[k] == earlier[k]);
                }
            }
        }
    }
}

} // verus!
