use write_log::{Clock, Config, Level, LevelFilter, Record, StringSink, WriteLogger, Wrapper};

struct FixedClock;

impl Clock for FixedClock {
    fn now_millis(&self) -> u64 {
        0
    }
}

fn level_from(l: log::Level) -> Level {
    match l {
        log::Level::Error => Level::Error,
        log::Level::Warn => Level::Warn,
        log::Level::Info => Level::Info,
        log::Level::Debug => Level::Debug,
        log::Level::Trace => Level::Trace,
    }
}

struct Facade {
    inner: WriteLogger<FixedClock, StringSink>,
}

impl log::Log for Facade {
    fn enabled(&self, metadata: &log::Metadata<'_>) -> bool {
        self.inner.enabled(level_from(metadata.level()))
    }

    fn log(&self, record: &log::Record<'_>) {
        if self.enabled(record.metadata()) {
            self.inner.log(&Record {
                level: level_from(record.level()),
                target: record.target().to_string(),
                file: record.file().map(|f| f.to_string()),
                line: record.line(),
                thread_name: record.target().to_string(),
                message: record.args().to_string(),
            });
        }
    }

    fn flush(&self) {
        self.inner.flush();
    }
}

fn leaked_facade() -> &'static Facade {
    Box::leak(Box::new(Facade {
        inner: WriteLogger::new(
            LevelFilter::Trace,
            Config::new(),
            Wrapper::new(StringSink::new()),
            FixedClock,
        ),
    }))
}

#[test]
fn register_twice() {
    log::set_max_level(log::LevelFilter::Trace);
    assert!(log::set_logger(leaked_facade()).is_ok());
    assert!(log::set_logger(leaked_facade()).is_err());
}
