use write_log::{
    try_log, Clock, Config, ConfigBuilder, Level, LevelFilter, Padding, Record, RejectingSink,
    StringSink, WriteError, WriteLogger, Wrapper,
};

struct FixedClock {
    millis: u64,
}

impl Clock for FixedClock {
    fn now_millis(&self) -> u64 {
        self.millis
    }
}

fn record(level: Level, target: &str, message: &str) -> Record {
    Record {
        level,
        target: target.to_string(),
        file: None,
        line: None,
        thread_name: String::new(),
        message: message.to_string(),
    }
}

#[test]
fn test() {
    let logger = WriteLogger::new(
        LevelFilter::Trace,
        Config::new(),
        Wrapper::new(StringSink::new()),
        FixedClock { millis: 5025678 },
    );
    logger.log(&record(Level::Error, "write_log::tests", "Test Error"));
    let out = logger.into_sink().into_string();
    assert_eq!(out, "01:23:45.678 [ERROR] write_log::tests: Test Error\n");
}

#[test]
fn render_is_deterministic() {
    let config = ConfigBuilder::new()
        .set_thread_level(LevelFilter::Trace)
        .set_location_level(LevelFilter::Error)
        .build();
    let mut r = record(Level::Warn, "a::b", "hello");
    r.file = Some("a.rs".to_string());
    r.line = Some(7);
    r.thread_name = "main".to_string();
    let mut first = StringSink::new();
    let mut second = StringSink::new();
    try_log(&config, &r, Some(123456), &mut first).unwrap();
    try_log(&config, &r, Some(123456), &mut second).unwrap();
    assert_eq!(first.as_str(), second.as_str());
}

#[test]
fn message_alone_when_all_fields_off() {
    let config = ConfigBuilder::new()
        .set_time_level(LevelFilter::Off)
        .set_level_level(LevelFilter::Off)
        .set_thread_level(LevelFilter::Off)
        .set_target_level(LevelFilter::Off)
        .set_location_level(LevelFilter::Off)
        .build();
    let mut sink = StringSink::new();
    try_log(&config, &record(Level::Error, "t", "just the message"), Some(42), &mut sink).unwrap();
    assert_eq!(sink.as_str(), "just the message\n");
}

#[test]
fn threshold_equal_to_severity_admits_field() {
    let config = ConfigBuilder::new()
        .set_time_level(LevelFilter::Off)
        .set_level_level(LevelFilter::Warn)
        .set_target_level(LevelFilter::Off)
        .build();
    let mut sink = StringSink::new();
    try_log(&config, &record(Level::Warn, "t", "m"), None, &mut sink).unwrap();
    assert_eq!(sink.as_str(), "[WARN] m\n");
}

#[test]
fn off_threshold_suppresses_even_for_error() {
    let config = ConfigBuilder::new()
        .set_time_level(LevelFilter::Off)
        .set_level_level(LevelFilter::Off)
        .set_target_level(LevelFilter::Error)
        .build();
    let mut sink = StringSink::new();
    try_log(&config, &record(Level::Error, "core::io", "m"), None, &mut sink).unwrap();
    assert_eq!(sink.as_str(), "core::io: m\n");
}

#[test]
fn left_align_right_pads_label() {
    let config = ConfigBuilder::new()
        .set_time_level(LevelFilter::Off)
        .set_target_level(LevelFilter::Off)
        .set_level_padding(Padding::LeftAlign(8))
        .build();
    let mut sink = StringSink::new();
    try_log(&config, &record(Level::Info, "t", "m"), None, &mut sink).unwrap();
    assert_eq!(sink.as_str(), "[INFO    ] m\n");
}

#[test]
fn right_align_left_pads_label() {
    let config = ConfigBuilder::new()
        .set_time_level(LevelFilter::Off)
        .set_target_level(LevelFilter::Off)
        .set_level_padding(Padding::RightAlign(7))
        .build();
    let mut sink = StringSink::new();
    try_log(&config, &record(Level::Warn, "t", "m"), None, &mut sink).unwrap();
    assert_eq!(sink.as_str(), "[   WARN] m\n");
}

#[test]
fn long_label_is_not_truncated() {
    let config = ConfigBuilder::new()
        .set_time_level(LevelFilter::Off)
        .set_target_level(LevelFilter::Off)
        .set_level_padding(Padding::LeftAlign(3))
        .build();
    let mut sink = StringSink::new();
    try_log(&config, &record(Level::Error, "t", "m"), None, &mut sink).unwrap();
    assert_eq!(sink.as_str(), "[ERROR] m\n");
}

#[test]
fn thread_name_padded_in_parentheses() {
    let config = ConfigBuilder::new()
        .set_time_level(LevelFilter::Off)
        .set_level_level(LevelFilter::Off)
        .set_target_level(LevelFilter::Off)
        .set_thread_level(LevelFilter::Error)
        .set_thread_padding(Padding::RightAlign(6))
        .build();
    let mut r = record(Level::Debug, "t", "m");
    r.thread_name = "main".to_string();
    let mut sink = StringSink::new();
    try_log(&config, &r, None, &mut sink).unwrap();
    assert_eq!(sink.as_str(), "(  main) m\n");
}

#[test]
fn location_with_file_and_line() {
    let config = ConfigBuilder::new()
        .set_time_level(LevelFilter::Off)
        .set_level_level(LevelFilter::Off)
        .set_target_level(LevelFilter::Off)
        .set_location_level(LevelFilter::Error)
        .build();
    let mut r = record(Level::Error, "t", "m");
    r.file = Some("src/main.rs".to_string());
    r.line = Some(27);
    let mut sink = StringSink::new();
    try_log(&config, &r, None, &mut sink).unwrap();
    assert_eq!(sink.as_str(), "[src/main.rs:27] m\n");
}

#[test]
fn location_placeholders_when_unknown() {
    let config = ConfigBuilder::new()
        .set_time_level(LevelFilter::Off)
        .set_level_level(LevelFilter::Off)
        .set_target_level(LevelFilter::Off)
        .set_location_level(LevelFilter::Error)
        .build();
    let mut sink = StringSink::new();
    try_log(&config, &record(Level::Error, "t", "m"), None, &mut sink).unwrap();
    assert_eq!(sink.as_str(), "[<unknown>:<unknown>] m\n");
}

#[test]
fn time_renders_zero_padded() {
    let config = ConfigBuilder::new()
        .set_level_level(LevelFilter::Off)
        .set_target_level(LevelFilter::Off)
        .build();
    let mut sink = StringSink::new();
    try_log(&config, &record(Level::Error, "t", "m"), Some(0), &mut sink).unwrap();
    assert_eq!(sink.as_str(), "00:00:00.000 m\n");

    let mut sink = StringSink::new();
    try_log(&config, &record(Level::Error, "t", "m"), Some(9045007), &mut sink).unwrap();
    assert_eq!(sink.as_str(), "02:30:45.007 m\n");
}

#[test]
fn time_hours_widen_past_two_digits() {
    let config = ConfigBuilder::new()
        .set_level_level(LevelFilter::Off)
        .set_target_level(LevelFilter::Off)
        .build();
    let mut sink = StringSink::new();
    try_log(&config, &record(Level::Error, "t", "m"), Some(360000000), &mut sink).unwrap();
    assert_eq!(sink.as_str(), "100:00:00.000 m\n");
}

#[test]
fn overall_gate_by_severity() {
    let logger = WriteLogger::new(
        LevelFilter::Warn,
        Config::new(),
        Wrapper::new(StringSink::new()),
        FixedClock { millis: 0 },
    );
    assert!(logger.enabled(Level::Error));
    assert!(logger.enabled(Level::Warn));
    assert!(!logger.enabled(Level::Info));
    assert!(!logger.enabled(Level::Debug));
    assert!(!logger.enabled(Level::Trace));
}

#[test]
fn off_logger_drops_everything() {
    let logger = WriteLogger::new(
        LevelFilter::Off,
        Config::new(),
        Wrapper::new(StringSink::new()),
        FixedClock { millis: 0 },
    );
    assert!(!logger.enabled(Level::Error));
    logger.log(&record(Level::Error, "t", "dropped"));
    let out = logger.into_sink().into_string();
    assert_eq!(out, "");
}

#[test]
fn field_thresholds_independent_of_overall_gate() {
    // The overall gate admits the record, yet every field but the message
    // misses its own threshold.
    let config = ConfigBuilder::new()
        .set_time_level(LevelFilter::Debug)
        .set_level_level(LevelFilter::Debug)
        .set_thread_level(LevelFilter::Debug)
        .set_target_level(LevelFilter::Debug)
        .set_location_level(LevelFilter::Debug)
        .build();
    let logger = WriteLogger::new(
        LevelFilter::Trace,
        config,
        Wrapper::new(StringSink::new()),
        FixedClock { millis: 0 },
    );
    logger.log(&record(Level::Error, "t", "bare"));
    let out = logger.into_sink().into_string();
    assert_eq!(out, "bare\n");
}

#[test]
fn sequential_lines_are_contiguous() {
    let config = ConfigBuilder::new()
        .set_time_level(LevelFilter::Off)
        .set_level_level(LevelFilter::Off)
        .set_target_level(LevelFilter::Off)
        .build();
    let logger = WriteLogger::new(
        LevelFilter::Trace,
        config,
        Wrapper::new(StringSink::new()),
        FixedClock { millis: 0 },
    );
    logger.log(&record(Level::Info, "t", "first"));
    logger.log(&record(Level::Info, "t", "second"));
    let out = logger.into_sink().into_string();
    assert_eq!(out, "first\nsecond\n");
}

#[test]
fn failing_sink_reports_write_error() {
    let config = Config::new();
    let mut sink = RejectingSink::new();
    let result = try_log(&config, &record(Level::Error, "t", "m"), Some(1), &mut sink);
    assert_eq!(result, Err(WriteError));
}

#[test]
fn should_skip_never_skips() {
    assert!(!write_log::should_skip(&Config::new(), &record(Level::Trace, "t", "m")));
}

#[test]
fn builder_defaults_match_config_new() {
    assert_eq!(ConfigBuilder::new().build(), Config::new());
    assert_eq!(Config::default(), Config::new());
}

#[test]
fn builder_setters_replace_each_field() {
    let config = ConfigBuilder::new()
        .set_time_level(LevelFilter::Info)
        .set_level_level(LevelFilter::Warn)
        .set_thread_level(LevelFilter::Trace)
        .set_target_level(LevelFilter::Debug)
        .set_location_level(LevelFilter::Off)
        .set_level_padding(Padding::LeftAlign(5))
        .set_thread_padding(Padding::RightAlign(9))
        .build();
    assert_eq!(config.time, LevelFilter::Info);
    assert_eq!(config.level, LevelFilter::Warn);
    assert_eq!(config.thread, LevelFilter::Trace);
    assert_eq!(config.target, LevelFilter::Debug);
    assert_eq!(config.location, LevelFilter::Off);
    assert_eq!(config.level_padding, Padding::LeftAlign(5));
    assert_eq!(config.thread_padding, Padding::RightAlign(9));
}
