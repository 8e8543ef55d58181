use ds_controller::log_event::{now_millis_string, LogEvent, LogLevel};
use ds_controller::text::{decimal_string, with_decimal};

#[test]
fn log_event_is_stamped_with_decimal_millis() {
    let event = LogEvent::at_millis(LogLevel::Warn, "hello".to_owned(), 1_700_000_000_123);
    assert_eq!(event.id, "1700000000123");
    assert_eq!(event.timestamp, "1700000000123");
    assert_eq!(event.level, LogLevel::Warn);
    assert_eq!(event.message, "hello");
}

#[test]
fn new_log_event_uses_the_clock() {
    let before: u128 = now_millis_string().parse().unwrap();
    let event = LogEvent::new(LogLevel::Info, "ready".to_owned());
    let stamp: u128 = event.timestamp.parse().unwrap();
    assert_eq!(event.id, event.timestamp);
    assert!(stamp >= before);
    assert!(stamp > 1_600_000_000_000);
}

#[test]
fn decimal_rendering_matches_to_string() {
    for n in [0u128, 7, 10, 99, 100, 255, 65535, u64::MAX as u128, u128::MAX] {
        assert_eq!(decimal_string(n), n.to_string());
    }
    assert_eq!(with_decimal("size: ", 16), "size: 16");
}
