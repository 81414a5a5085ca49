//! The immutable configuration and its builder.
//!
//! A [`Config`] holds one threshold per output field (time, severity label,
//! context name, target, location) and a padding rule for the severity label
//! and for the context name. It is a plain value: once built it never
//! changes, so every log call may read it freely. Any combination of
//! thresholds and paddings is legal; the builder performs no validation.

use vstd::prelude::*;

use crate::level::LevelFilter;

verus! {

/// How a label is aligned inside its field.
///
/// `LeftAlign(w)` pads the label on the right with spaces up to width `w`;
/// `RightAlign(w)` pads on the left; `Off` leaves the label as it is. A label
/// already at least `w` characters long is never truncated.
#[derive(Clone, Copy, PartialEq, Eq, Structural, Debug)]
pub enum Padding {
    Off,
    LeftAlign(usize),
    RightAlign(usize),
}

/// Per-field thresholds and label paddings for one logger.
#[derive(Clone, Copy, PartialEq, Eq, Structural, Debug)]
pub struct Config {
    /// Threshold at which the clock reading is written.
    pub time: LevelFilter,
    /// Threshold at which the severity label is written.
    pub level: LevelFilter,
    /// Threshold at which the context name is written.
    pub thread: LevelFilter,
    /// Threshold at which the record's target is written.
    pub target: LevelFilter,
    /// Threshold at which the file and line are written.
    pub location: LevelFilter,
    /// Alignment of the severity label.
    pub level_padding: Padding,
    /// Alignment of the context name.
    pub thread_padding: Padding,
}

/// The default configuration: time, severity label and target appear for
/// every accepted record, the context name only from `Debug` on, the location
/// only at `Trace`, and no label is padded.
pub open spec fn default_config() -> Config {
    Config {
        time: LevelFilter::Error,
        level: LevelFilter::Error,
        thread: LevelFilter::Debug,
        target: LevelFilter::Error,
        location: LevelFilter::Trace,
        level_padding: Padding::Off,
        thread_padding: Padding::Off,
    }
}

impl Config {
    /// The default configuration, as described at [`default_config`].
    pub fn new() -> (c: Config)
        ensures
            c == default_config(),
    {
        Config {
            time: LevelFilter::Error,
            level: LevelFilter::Error,
            thread: LevelFilter::Debug,
            target: LevelFilter::Error,
            location: LevelFilter::Trace,
            level_padding: Padding::Off,
            thread_padding: Padding::Off,
        }
    }
}

impl Default for Config {
    /// The default configuration, as described at [`default_config`].
    fn default() -> (c: Config)
        ensures
            c == default_config(),
    {
        Config::new()
    }
}

/// Builds a [`Config`] starting from the defaults.
///
/// Every setter consumes the builder and returns it with one field replaced;
/// `build` yields the finished configuration.
#[derive(Clone, Copy, PartialEq, Eq, Structural, Debug)]
pub struct ConfigBuilder {
    /// The configuration assembled so far.
    pub config: Config,
}

impl ConfigBuilder {
    /// A builder holding the default configuration.
    pub fn new() -> (b: ConfigBuilder)
        ensures
            b.config == default_config(),
    {
        ConfigBuilder { config: Config::new() }
    }

    /// Sets the threshold of the time field.
    pub fn set_time_level(self, f: LevelFilter) -> (b: ConfigBuilder)
        ensures
            b.config == (Config { time: f, ..self.config }),
    {
        ConfigBuilder { config: Config { time: f, ..self.config } }
    }

    /// Sets the threshold of the severity-label field.
    pub fn set_level_level(self, f: LevelFilter) -> (b: ConfigBuilder)
        ensures
            b.config == (Config { level: f, ..self.config }),
    {
        ConfigBuilder { config: Config { level: f, ..self.config } }
    }

    /// Sets the threshold of the context-name field.
    pub fn set_thread_level(self, f: LevelFilter) -> (b: ConfigBuilder)
        ensures
            b.config == (Config { thread: f, ..self.config }),
    {
        ConfigBuilder { config: Config { thread: f, ..self.config } }
    }

    /// Sets the threshold of the target field.
    pub fn set_target_level(self, f: LevelFilter) -> (b: ConfigBuilder)
        ensures
            b.config == (Config { target: f, ..self.config }),
    {
        ConfigBuilder { config: Config { target: f, ..self.config } }
    }

    /// Sets the threshold of the location field.
    pub fn set_location_level(self, f: LevelFilter) -> (b: ConfigBuilder)
        ensures
            b.config == (Config { location: f, ..self.config }),
    {
        ConfigBuilder { config: Config { location: f, ..self.config } }
    }

    /// Sets the alignment of the severity label.
    pub fn set_level_padding(self, p: Padding) -> (b: ConfigBuilder)
        ensures
            b.config == (Config { level_padding: p, ..self.config }),
    {
        ConfigBuilder { config: Config { level_padding: p, ..self.config } }
    }

    /// Sets the alignment of the context name.
    pub fn set_thread_padding(self, p: Padding) -> (b: ConfigBuilder)
        ensures
            b.config == (Config { thread_padding: p, ..self.config }),
    {
        ConfigBuilder { config: Config { thread_padding: p, ..self.config } }
    }

    /// The finished configuration.
    pub fn build(self) -> (c: Config)
        ensures
            c == self.config,
    {
        self.config
    }
}

} // verus!
