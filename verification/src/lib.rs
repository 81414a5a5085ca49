//! A minimal, allocation-conscious textual log-record formatter with a
//! single-writer sink discipline.
//!
//! A [`Record`] carries a severity, a target, an optional source location and
//! a message. A [`Config`] decides, per output field, the minimum severity at
//! which that field is emitted and how the severity and context labels are
//! padded. [`try_log`] renders one record into a [`TextSink`] field by field,
//! and [`WriteLogger`] gates records by severity and serializes access to the
//! shared sink through [`Wrapper`].

use vstd::prelude::*;

mod config;
mod level;
mod logging;
mod sink;
mod text;
mod writelog;

pub use crate::config::{default_config, Config, ConfigBuilder, Padding};
pub use crate::level::{
    field_enabled, field_gate, filter_num, filter_value, level_label, level_label_str, level_num,
    level_passes, level_value, Level, LevelFilter,
};
pub use crate::logging::{
    file_text, lemma_field_gating, lemma_message_unconditional, lemma_off_suppresses,
    lemma_padding, lemma_render_deterministic, lemma_rendered_prefix_full, level_fragment,
    level_segment, line_text, location_fragment, location_segment, message_fragment,
    rendered_line, rendered_prefix, segment, should_skip, target_fragment, target_segment,
    thread_fragment, thread_segment, time_fragment, time_segment, try_log, unknown_label,
    write_args, write_level, write_location, write_target, write_thread_name, write_time, Record,
};
pub use crate::sink::{RejectingSink, StringSink, TextSink, WriteError};
pub use crate::text::{
    dec_digits, dec_padded, dec_string, dec_string_padded, digit_char, pad_label, pad_spec, spaces,
    time_string, time_text, zeros,
};
pub use crate::writelog::{Clock, WriteLogger};

use vstd::rwlock::{RwLock, RwLockPredicate, WriteHandle};

verus! {

/// The lock invariant for the shared sink: any sink value may be stored.
pub struct SinkPred;

impl<T> RwLockPredicate<T> for SinkPred {
    open spec fn inv(self, v: T) -> bool {
        true
    }
}

/// Exclusive access to the one shared sink.
///
/// The wrapper holds the sink behind a verified lock: at most one writer
/// holds the value at a time, so the fragments of one rendered line are never
/// interleaved with another's. [`Wrapper::acquire`] blocks until the value is
/// free and takes it out; releasing the returned handle puts it back.
pub struct Wrapper<T> {
    lock: RwLock<T, SinkPred>,
}

impl<T> Wrapper<T> {
    /// Wraps a value for exclusive access.
    pub fn new(val: T) -> (w: Wrapper<T>) {
        Wrapper { lock: RwLock::new(val, Ghost(SinkPred)) }
    }

    /// Takes exclusive possession of the value, blocking until it is free.
    /// The handle's `release_write` puts the (possibly changed) value back.
    pub fn acquire(&self) -> (ret: (T, WriteHandle<'_, T, SinkPred>))
        ensures
            forall|v: T| ret.1.rwlock().inv(v),
    {
        self.lock.acquire_write()
    }

    /// Destroys the wrapper and hands the value back.
    pub fn into_inner(self) -> T {
        self.lock.into_inner()
    }
}

} // verus!
