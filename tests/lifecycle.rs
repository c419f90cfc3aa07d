use sysmon::lifecycle::{Lifecycle, Phase, Step};

#[test]
fn stops_once_and_flushes_once() {
    let mut l = Lifecycle::new();
    assert_eq!(l.next(true), Step::Cycle);
    assert_eq!(l.next(true), Step::Cycle);
    assert_eq!(l.next(false), Step::Flush);
    assert_eq!(l.phase, Phase::Stopped);
    assert_eq!(l.next(true), Step::Halt);
    assert_eq!(l.next(false), Step::Halt);
}

#[test]
fn stop_before_first_cycle() {
    let mut l = Lifecycle::new();
    assert_eq!(l.next(false), Step::Flush);
    assert_eq!(l.next(true), Step::Halt);
}
