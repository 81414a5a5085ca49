//! The logger: severity gate, exclusive sink access, formatting.
//!
//! A [`WriteLogger`] owns a configuration, an overall severity threshold, a
//! clock and — by exclusive right, through a [`Wrapper`] — one write sink.
//! Each accepted record is rendered into the sink by the formatting pipeline
//! while the sink is held exclusively.

use vstd::prelude::*;

use crate::config::Config;
use crate::level::{field_gate, filter_num, level_num, level_passes, Level, LevelFilter};
use crate::logging::{try_log, Record};
use crate::sink::TextSink;
use crate::Wrapper;

verus! {

/// The clock capability: supplies the current instant as a count of elapsed
/// milliseconds. It is consulted only when the time field is enabled, and
/// nothing is promised of the value it returns.
pub trait Clock {
    /// The current instant, in milliseconds.
    fn now_millis(&self) -> u64;
}

/// A logger writing rendered records into one exclusively held sink.
pub struct WriteLogger<C: Clock, S: TextSink> {
    /// The overall severity threshold: records above it are dropped whole.
    pub level: LevelFilter,
    /// Per-field thresholds and paddings.
    pub config: Config,
    /// The injected clock capability.
    pub clock: C,
    /// The shared sink, behind the exclusion wrapper.
    pub writable: Wrapper<S>,
}

impl<C: Clock, S: TextSink> WriteLogger<C, S> {
    /// A logger with the given threshold, configuration, sink and clock.
    /// None of them can be changed later on.
    pub fn new(log_level: LevelFilter, config: Config, writable: Wrapper<S>, clock: C) -> (l:
        WriteLogger<C, S>)
        ensures
            l.level == log_level,
            l.config == config,
    {
        WriteLogger { level: log_level, config, clock, writable }
    }

    /// True exactly when records of this severity pass the overall gate.
    pub fn enabled(&self, level: Level) -> (b: bool)
        ensures
            b == level_passes(level, self.level),
    {
        level_num(level) <= filter_num(self.level)
    }

    /// Writes one record, or nothing when its severity does not pass the
    /// overall gate.
    ///
    /// The clock is read only when the time field is enabled for this record.
    /// The sink is acquired exclusively, grows by the rendered line — or by a
    /// prefix of it when an append fails, the failure being swallowed as the
    /// facade contract asks — and is released again; [`try_log`] states what
    /// the sink receives.
    pub fn log(&self, record: &Record) {
        if self.enabled(record.level) {
            let now: Option<u64> = if field_gate(self.config.time, record.level) {
                Some(self.clock.now_millis())
            } else {
                None
            };
            let (mut sink, handle) = self.writable.acquire();
            let _ = try_log(&self.config, record, now, &mut sink);
            handle.release_write(sink);
        }
    }

    /// Nothing is buffered, so there is nothing to flush; present to satisfy
    /// the facade's logger contract.
    pub fn flush(&self) {
    }

    /// Surrenders the logger and hands back its sink.
    pub fn into_sink(self) -> S {
        self.writable.into_inner()
    }
}

} // verus!
