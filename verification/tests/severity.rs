use kamel_render::message_severity::{
    to_log_level, to_log_level_noting_unknown, LogLevel, SEVERITY_ERROR, SEVERITY_INFO,
    SEVERITY_VERBOSE, SEVERITY_WARNING,
};

#[test]
fn known_severities_map_to_documented_levels() {
    assert_eq!(to_log_level(SEVERITY_VERBOSE), LogLevel::Trace);
    assert_eq!(to_log_level(SEVERITY_INFO), LogLevel::Info);
    assert_eq!(to_log_level(SEVERITY_WARNING), LogLevel::Warn);
    assert_eq!(to_log_level(SEVERITY_ERROR), LogLevel::Error);
}

#[test]
fn unknown_severity_is_warned_with_raw_value() {
    assert_eq!(to_log_level(0x2), LogLevel::Warn);
    assert_eq!(to_log_level_noting_unknown(0x2), (LogLevel::Warn, Some(0x2)));
    assert_eq!(to_log_level_noting_unknown(0), (LogLevel::Warn, Some(0)));
    assert_eq!(to_log_level_noting_unknown(0x11), (LogLevel::Warn, Some(0x11)));
}

#[test]
fn known_severity_carries_no_unknown_note() {
    assert_eq!(to_log_level_noting_unknown(SEVERITY_VERBOSE), (LogLevel::Trace, None));
    assert_eq!(to_log_level_noting_unknown(SEVERITY_ERROR), (LogLevel::Error, None));
}
