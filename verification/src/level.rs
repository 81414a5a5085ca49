//! Severities and per-field thresholds.
//!
//! A [`Level`] is the severity of one record; a [`LevelFilter`] is either a
//! severity bound or `Off`. Both are ordered by a numeric value: `Error` is
//! the most urgent (smallest value) and `Trace` the least. `Off` sits below
//! every real severity so that no record can satisfy an `Off` threshold.

use vstd::prelude::*;

verus! {

/// Severity of a single record, from most urgent (`Error`) to least (`Trace`).
#[derive(Clone, Copy, PartialEq, Eq, Structural, Debug)]
pub enum Level {
    Error,
    Warn,
    Info,
    Debug,
    Trace,
}

/// A severity bound for a field or for the logger as a whole, or `Off` to
/// disable unconditionally.
#[derive(Clone, Copy, PartialEq, Eq, Structural, Debug)]
pub enum LevelFilter {
    Off,
    Error,
    Warn,
    Info,
    Debug,
    Trace,
}

/// Numeric rank of a severity: `Error` is 1, `Trace` is 5.
pub open spec fn level_value(l: Level) -> int {
    match l {
        Level::Error => 1,
        Level::Warn => 2,
        Level::Info => 3,
        Level::Debug => 4,
        Level::Trace => 5,
    }
}

/// Numeric rank of a threshold: `Off` is 0, real severities rank as in
/// [`level_value`].
pub open spec fn filter_value(f: LevelFilter) -> int {
    match f {
        LevelFilter::Off => 0,
        LevelFilter::Error => 1,
        LevelFilter::Warn => 2,
        LevelFilter::Info => 3,
        LevelFilter::Debug => 4,
        LevelFilter::Trace => 5,
    }
}

/// The per-field gate: a field is emitted exactly when its threshold is not
/// `Off` and lies at or below the record's severity.
pub open spec fn field_enabled(threshold: LevelFilter, sev: Level) -> bool {
    threshold != LevelFilter::Off && filter_value(threshold) <= level_value(sev)
}

/// The overall gate: a record is accepted when its severity lies at or below
/// the logger's threshold.
pub open spec fn level_passes(sev: Level, max: LevelFilter) -> bool {
    level_value(sev) <= filter_value(max)
}

/// Uppercase name of a severity, as it appears in the severity field.
pub open spec fn level_label(l: Level) -> Seq<char> {
    match l {
        Level::Error => seq!['E', 'R', 'R', 'O', 'R'],
        Level::Warn => seq!['W', 'A', 'R', 'N'],
        Level::Info => seq!['I', 'N', 'F', 'O'],
        Level::Debug => seq!['D', 'E', 'B', 'U', 'G'],
        Level::Trace => seq!['T', 'R', 'A', 'C', 'E'],
    }
}

/// Executable rank of a severity.
pub fn level_num(l: Level) -> (n: u8)
    ensures
        n == level_value(l),
{
    match l {
        Level::Error => 1,
        Level::Warn => 2,
        Level::Info => 3,
        Level::Debug => 4,
        Level::Trace => 5,
    }
}

/// Executable rank of a threshold.
pub fn filter_num(f: LevelFilter) -> (n: u8)
    ensures
        n == filter_value(f),
{
    match f {
        LevelFilter::Off => 0,
        LevelFilter::Error => 1,
        LevelFilter::Warn => 2,
        LevelFilter::Info => 3,
        LevelFilter::Debug => 4,
        LevelFilter::Trace => 5,
    }
}

/// Executable per-field gate, deciding [`field_enabled`].
pub fn field_gate(threshold: LevelFilter, sev: Level) -> (b: bool)
    ensures
        b == field_enabled(threshold, sev),
{
    let t: u8 = filter_num(threshold);
    t != 0 && t <= level_num(sev)
}

/// Executable uppercase name of a severity.
pub fn level_label_str(l: Level) -> (s: &'static str)
    ensures
        s@ == level_label(l),
{
    match l {
        Level::Error => {
            proof {
                reveal_strlit("ERROR");
                assert("ERROR"@ =~= level_label(Level::Error));
            }
            "ERROR"
        },
        Level::Warn => {
            proof {
                reveal_strlit("WARN");
                assert("WARN"@ =~= level_label(Level::Warn));
            }
            "WARN"
        },
        Level::Info => {
            proof {
                reveal_strlit("INFO");
                assert("INFO"@ =~= level_label(Level::Info));
            }
            "INFO"
        },
        Level::Debug => {
            proof {
                reveal_strlit("DEBUG");
                assert("DEBUG"@ =~= level_label(Level::Debug));
            }
            "DEBUG"
        },
        Level::Trace => {
            proof {
                reveal_strlit("TRACE");
                assert("TRACE"@ =~= level_label(Level::Trace));
            }
            "TRACE"
        },
    }
}

} // verus!
