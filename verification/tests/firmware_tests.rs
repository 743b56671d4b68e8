use firmware_core::adc::AdcPhase;
use firmware_core::firmware::boot;
use firmware_core::firmware::CAPTURE_TIMER_CHANNEL;
use firmware_core::firmware::RESOURCE_ADC_PIN;
use firmware_core::firmware::RESOURCE_ADC_UNIT;
use firmware_core::firmware::RESOURCE_CAPTURE_TIMER;
use firmware_core::firmware::RESOURCE_FAST_LED;
use firmware_core::firmware::RESOURCE_SLOW_LED;
use firmware_core::scheduler::WaitCondition;
use firmware_core::adc::AdcEvent;
use firmware_core::firmware::Action;
use firmware_core::scheduler::Event;

#[test]
fn boot_assigns_each_peripheral_to_one_task() {
    let fw = boot();
    assert_eq!(fw.fast_pin.resource, RESOURCE_FAST_LED);
    assert_eq!(fw.slow_pin.resource, RESOURCE_SLOW_LED);
    assert_eq!(fw.adc_unit.resource, RESOURCE_ADC_UNIT);
    assert_eq!(fw.adc_pin.resource, RESOURCE_ADC_PIN);
    assert_eq!(fw.capture_timer.resource, RESOURCE_CAPTURE_TIMER);
    assert_eq!(fw.capture.channel, CAPTURE_TIMER_CHANNEL);
    assert_eq!(fw.adc_task.phase, AdcPhase::Boot);
}

#[test]
fn boot_spawns_the_whole_task_set_ready() {
    let mut fw = boot();
    // All four tasks run once from the top, in insertion order.
    assert_eq!(fw.scheduler.resume_next(), Some(0));
    fw.scheduler.suspend(0, WaitCondition::Deadline(100));
    assert_eq!(fw.scheduler.resume_next(), Some(1));
    fw.scheduler.suspend(1, WaitCondition::Deadline(1000));
    assert_eq!(fw.scheduler.resume_next(), Some(2));
    fw.scheduler.suspend(2, WaitCondition::AdcConversion);
    assert_eq!(fw.scheduler.resume_next(), Some(3));
    fw.scheduler.suspend(3, WaitCondition::RisingEdge(3));
    assert_eq!(fw.scheduler.resume_next(), None);
}

#[test]
fn run_loop_round_trip_at_boot() {

    let mut fw = boot();
    // Boot round at instant zero: both indicators drive high, the sampling
    // task starts the reference conversion, the capture task waits.
    assert_eq!(fw.scheduler.resume_next(), Some(0));
    assert_eq!(
        fw.run_task(0, 0, AdcEvent::Started),
        Action::DriveLevel { high: true }
    );
    assert_eq!(fw.scheduler.resume_next(), Some(1));
    assert_eq!(
        fw.run_task(1, 0, AdcEvent::Started),
        Action::DriveLevel { high: true }
    );
    assert_eq!(fw.scheduler.resume_next(), Some(2));
    assert_eq!(
        fw.run_task(2, 0, AdcEvent::Started),
        Action::StartConversion { reference: true }
    );
    assert_eq!(fw.scheduler.resume_next(), Some(3));
    assert_eq!(fw.run_task(3, 0, AdcEvent::Started), Action::AwaitEdge);
    assert_eq!(fw.scheduler.resume_next(), None);
}

#[test]
fn run_loop_converts_and_captures() {

    let mut fw = boot();
    // Boot round.
    while let Some(id) = fw.scheduler.resume_next() {
        fw.run_task(id, 0, AdcEvent::Started);
    }
    // The reference conversion completes: calibration, then the external read.
    fw.scheduler.signal(Event::AdcConversionDone);
    assert_eq!(fw.scheduler.resume_next(), Some(2));
    assert_eq!(
        fw.run_task(2, 1, AdcEvent::ConversionDone(1489)),
        Action::StartConversion { reference: false }
    );
    // The external conversion completes: the sample is reported, converted
    // against the calibration constant.
    fw.scheduler.signal(Event::AdcConversionDone);
    assert_eq!(fw.scheduler.resume_next(), Some(2));
    assert_eq!(
        fw.run_task(2, 2, AdcEvent::ConversionDone(1489)),
        Action::ReportSample { raw: 1489, millivolts: 1200 }
    );
    // An edge fires: the capture task reports the latched value.
    fw.capture.record_edge(4242);
    fw.scheduler.signal(Event::RisingEdge(3));
    assert_eq!(fw.scheduler.resume_next(), Some(3));
    assert_eq!(
        fw.run_task(3, 2, AdcEvent::RestElapsed),
        Action::ReportCapture { value: 4242, channel: 3 }
    );
    // The fast indicator's half-period elapses: it toggles low.
    fw.scheduler.signal(Event::TimeReached(100));
    assert_eq!(fw.scheduler.resume_next(), Some(0));
    assert_eq!(
        fw.run_task(0, 100, AdcEvent::RestElapsed),
        Action::DriveLevel { high: false }
    );
}
