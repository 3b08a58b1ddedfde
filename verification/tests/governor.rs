use clipboard_pipeline::CaptureCounter;
use clipboard_pipeline::MaintenanceSignal;
use clipboard_pipeline::CAPTURE_THRESHOLD;

#[test]
fn fresh_counter_starts_at_zero() {
    let c = CaptureCounter::new();
    assert_eq!(c.current(), 0);
}

#[test]
fn threshold_is_two_hundred() {
    assert_eq!(CAPTURE_THRESHOLD, 200);
}

#[test]
fn ticks_count_up_and_reset_at_threshold() {
    let mut c = CaptureCounter::new();
    for i in 1..=199u64 {
        let sig = c.tick();
        assert_eq!(sig, MaintenanceSignal::Idle);
        assert_eq!(c.current(), i);
    }
    let sig = c.tick();
    assert_eq!(sig, MaintenanceSignal::Run);
    assert_eq!(c.current(), 0);
}

#[test]
fn counting_continues_after_a_reset() {
    let mut c = CaptureCounter::new();
    for _ in 0..200 {
        c.tick();
    }
    assert_eq!(c.current(), 0);
    let sig = c.tick();
    assert_eq!(sig, MaintenanceSignal::Idle);
    assert_eq!(c.current(), 1);
}
