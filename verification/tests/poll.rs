use fan_service::poll::Tracker;

#[test]
fn tracker_starts_at_zero() {
    assert_eq!(Tracker::new().applied, 0);
    assert_eq!(Tracker::new().due(0), None);
}

#[test]
fn changed_reading_is_due() {
    let tracker = Tracker::new();
    assert_eq!(tracker.due(1), Some(1));
    assert_eq!(tracker.due(47), Some(47));
    assert_eq!(tracker.due(255), Some(255));
}

#[test]
fn unchanged_reading_is_not_due() {
    let mut tracker = Tracker::new();
    tracker.record(47);
    assert_eq!(tracker.applied, 47);
    assert_eq!(tracker.due(47), None);
    assert_eq!(tracker.due(46), Some(46));
    assert_eq!(tracker.due(48), Some(48));
    assert_eq!(tracker.due(0), Some(0));
}

#[test]
fn reading_that_was_not_recorded_stays_due() {
    let tracker = Tracker::new();
    assert_eq!(tracker.due(60), Some(60));
    assert_eq!(tracker.due(60), Some(60));
}

#[test]
fn index_is_the_low_byte_of_the_reading() {
    let tracker = Tracker::new();
    assert_eq!(tracker.due(256), Some(0));
    assert_eq!(tracker.due(257), Some(1));
    assert_eq!(tracker.due(300), Some(44));
    assert_eq!(tracker.due(32767), Some(255));
    assert_eq!(tracker.due(-1), Some(255));
    assert_eq!(tracker.due(-256), Some(0));
    assert_eq!(tracker.due(-32768), Some(0));
    for degrees in [-32768i16, -300, -1, 1, 255, 256, 1000, 32767] {
        assert_eq!(tracker.due(degrees), Some(degrees as u8));
    }
}
