use liquid_scan::logger::{deliver, Delivery, LogLevel, RecordLevel};

#[test]
fn levels_have_the_numbers_of_the_host() {
    assert_eq!(LogLevel::Debug.code(), 0);
    assert_eq!(LogLevel::Info.code(), 1);
    assert_eq!(LogLevel::Error.code(), 2);
}

#[test]
fn records_are_enabled_down_to_info() {
    assert!(RecordLevel::Error.enabled());
    assert!(RecordLevel::Warn.enabled());
    assert!(RecordLevel::Info.enabled());
    assert!(!RecordLevel::Debug.enabled());
    assert!(!RecordLevel::Trace.enabled());
}

#[test]
fn records_are_forwarded_under_a_host_level() {
    assert_eq!(RecordLevel::Error.forwarded(), Some(LogLevel::Error));
    assert_eq!(RecordLevel::Warn.forwarded(), Some(LogLevel::Info));
    assert_eq!(RecordLevel::Info.forwarded(), Some(LogLevel::Info));
    assert_eq!(RecordLevel::Debug.forwarded(), None);
    assert_eq!(RecordLevel::Trace.forwarded(), None);
}

#[test]
fn a_registered_callback_gets_the_level_and_the_byte_length() {
    match deliver(true, LogLevel::Error, "grüße") {
        Delivery::Callback { level, len } => {
            assert_eq!(level, 2);
            assert_eq!(len, 7);
        }
        Delivery::Fallback(line) => panic!("{}", line),
    }
}

#[test]
fn without_a_callback_a_line_stands_in() {
    for level in [LogLevel::Debug, LogLevel::Info, LogLevel::Error] {
        match deliver(false, level, "cache cleared") {
            Delivery::Fallback(line) => {
                assert_eq!(line, format!("[RUST_LOG_FALLBACK] {:?}: {}", level, "cache cleared"))
            }
            Delivery::Callback { .. } => panic!("no callback is registered"),
        }
    }
}
