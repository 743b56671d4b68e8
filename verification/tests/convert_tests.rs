use firmware_core::convert::convert_to_millivolts;
use firmware_core::convert::REFERENCE_MILLIVOLTS;

#[test]
fn reference_sample_round_trips() {
    // A raw count equal to the calibration constant is the reference itself.
    assert_eq!(convert_to_millivolts(1489, 1489), 1200);
    assert_eq!(convert_to_millivolts(1, 1), REFERENCE_MILLIVOLTS);
    assert_eq!(convert_to_millivolts(u16::MAX, u16::MAX), 1200);
}

#[test]
fn zero_count_converts_to_zero() {
    assert_eq!(convert_to_millivolts(0, 1489), 0);
    assert_eq!(convert_to_millivolts(0, 1), 0);
    assert_eq!(convert_to_millivolts(0, u16::MAX), 0);
}

#[test]
fn conversion_is_proportional() {
    assert_eq!(convert_to_millivolts(2978, 1489), 2400);
    assert_eq!(convert_to_millivolts(1, 1200), 1);
    assert_eq!(convert_to_millivolts(100, 3), 40000);
}

#[test]
fn conversion_rounds_down() {
    // 5 * 1200 / 7 = 857.14...
    assert_eq!(convert_to_millivolts(5, 7), 857);
}

#[test]
fn conversion_largest_count() {
    // 65535 * 1200 stays within the unsigned 32-bit range.
    assert_eq!(convert_to_millivolts(u16::MAX, 1), 78642000);
}
