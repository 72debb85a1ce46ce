use std::time::Duration;

use qubit_retry::executor::will_exceed_elapsed;

#[test]
fn test_will_exceed_elapsed_handles_boundaries_and_overflow() {
    let one_ms = Duration::from_millis(1);
    let two_ms = Duration::from_millis(2);

    assert!(!will_exceed_elapsed(one_ms, Duration::ZERO, two_ms));
    assert!(will_exceed_elapsed(one_ms, one_ms, two_ms));
    assert!(will_exceed_elapsed(Duration::MAX, one_ms, Duration::MAX));
}
