//! The formatting pipeline.
//!
//! [`try_log`] renders one [`Record`] into a [`TextSink`] as a fixed sequence
//! of fields — time, severity label, context name, target, location, message —
//! each of the first five gated by its own threshold, the message always
//! written and followed by one newline. Each field is appended as one atomic
//! fragment; on the first failed append the pipeline stops and returns the
//! failure, leaving the fragments already written in place.

use vstd::prelude::*;

use crate::config::{Config, Padding};
use crate::level::{
    field_enabled, field_gate, filter_value, level_label, level_label_str, level_value, Level,
    LevelFilter,
};
use crate::sink::{TextSink, WriteError};
use crate::text::{dec_digits, dec_string, pad_label, pad_spec, spaces, time_string, time_text};
use vstd::string::StringExecFns;

verus! {

/// One log record: what a single call of the logger is asked to write.
#[derive(Debug)]
pub struct Record {
    /// Severity of the record.
    pub level: Level,
    /// Logical source of the record, such as a module path.
    pub target: String,
    /// Source file of the call, when known.
    pub file: Option<String>,
    /// Source line of the call, when known.
    pub line: Option<u32>,
    /// Logical context name written in the context field.
    pub thread_name: String,
    /// The message itself.
    pub message: String,
}

/// Placeholder for a missing file name or line number.
pub open spec fn unknown_label() -> Seq<char> {
    seq!['<', 'u', 'n', 'k', 'n', 'o', 'w', 'n', '>']
}

/// The time field's text: the clock reading and one space.
pub open spec fn time_fragment(ms: u64) -> Seq<char> {
    time_text(ms) + seq![' ']
}

/// The severity field's text: the padded label in square brackets and one
/// space.
pub open spec fn level_fragment(l: Level, p: Padding) -> Seq<char> {
    seq!['['] + pad_spec(level_label(l), p) + seq![']', ' ']
}

/// The context field's text: the padded name in parentheses and one space.
pub open spec fn thread_fragment(name: Seq<char>, p: Padding) -> Seq<char> {
    seq!['('] + pad_spec(name, p) + seq![')', ' ']
}

/// The target field's text: the target, a colon and one space.
pub open spec fn target_fragment(target: Seq<char>) -> Seq<char> {
    target + seq![':', ' ']
}

/// A file name, or the placeholder when there is none.
pub open spec fn file_text(file: Option<String>) -> Seq<char> {
    match file {
        Some(f) => f@,
        None => unknown_label(),
    }
}

/// A line number in decimal, or the placeholder when there is none.
pub open spec fn line_text(line: Option<u32>) -> Seq<char> {
    match line {
        Some(n) => dec_digits(n as nat),
        None => unknown_label(),
    }
}

/// The location field's text: file and line in square brackets and one space.
pub open spec fn location_fragment(r: Record) -> Seq<char> {
    seq!['['] + file_text(r.file) + seq![':'] + line_text(r.line) + seq![']', ' ']
}

/// The message field's text: the message and exactly one newline.
pub open spec fn message_fragment(r: Record) -> Seq<char> {
    r.message@ + seq!['\n']
}

/// The time segment: the time fragment when the time field is enabled for
/// this record and a clock reading is at hand, else nothing.
pub open spec fn time_segment(c: Config, r: Record, now: Option<u64>) -> Seq<char> {
    match now {
        Some(ms) => if field_enabled(c.time, r.level) {
            time_fragment(ms)
        } else {
            Seq::empty()
        },
        None => Seq::empty(),
    }
}

/// The severity segment: the severity fragment when enabled, else nothing.
pub open spec fn level_segment(c: Config, r: Record) -> Seq<char> {
    if field_enabled(c.level, r.level) {
        level_fragment(r.level, c.level_padding)
    } else {
        Seq::empty()
    }
}

/// The context segment: the context fragment when enabled, else nothing.
pub open spec fn thread_segment(c: Config, r: Record) -> Seq<char> {
    if field_enabled(c.thread, r.level) {
        thread_fragment(r.thread_name@, c.thread_padding)
    } else {
        Seq::empty()
    }
}

/// The target segment: the target fragment when enabled, else nothing.
pub open spec fn target_segment(c: Config, r: Record) -> Seq<char> {
    if field_enabled(c.target, r.level) {
        target_fragment(r.target@)
    } else {
        Seq::empty()
    }
}

/// The location segment: the location fragment when enabled, else nothing.
pub open spec fn location_segment(c: Config, r: Record) -> Seq<char> {
    if field_enabled(c.location, r.level) {
        location_fragment(r)
    } else {
        Seq::empty()
    }
}

/// The whole rendered line: the five gated segments in fixed order, then the
/// message and its newline.
pub open spec fn rendered_line(c: Config, r: Record, now: Option<u64>) -> Seq<char> {
    time_segment(c, r, now) + level_segment(c, r) + thread_segment(c, r) + target_segment(c, r)
        + location_segment(c, r) + message_fragment(r)
}

/// The `i`th segment of the rendered line, `0 <= i <= 5`.
pub open spec fn segment(c: Config, r: Record, now: Option<u64>, i: int) -> Seq<char> {
    if i == 0 {
        time_segment(c, r, now)
    } else if i == 1 {
        level_segment(c, r)
    } else if i == 2 {
        thread_segment(c, r)
    } else if i == 3 {
        target_segment(c, r)
    } else if i == 4 {
        location_segment(c, r)
    } else {
        message_fragment(r)
    }
}

/// The first `k` segments of the rendered line, in order.
pub open spec fn rendered_prefix(c: Config, r: Record, now: Option<u64>, k: int) -> Seq<char>
    decreases k,
{
    if k <= 0 {
        Seq::empty()
    } else {
        rendered_prefix(c, r, now, k - 1) + segment(c, r, now, k - 1)
    }
}

/// An empty prefix holds no text.
pub proof fn lemma_prefix_zero(c: Config, r: Record, now: Option<u64>)
    ensures
        rendered_prefix(c, r, now, 0) == Seq::<char>::empty(),
{
}

/// Extending a prefix by one adds the next segment.
pub proof fn lemma_prefix_step(c: Config, r: Record, now: Option<u64>, k: int)
    requires
        0 <= k,
    ensures
        rendered_prefix(c, r, now, k + 1) == rendered_prefix(c, r, now, k) + segment(
            c,
            r,
            now,
            k,
        ),
{
}

/// The six segments in order make up the whole rendered line.
pub proof fn lemma_rendered_prefix_full(c: Config, r: Record, now: Option<u64>)
    ensures
        rendered_prefix(c, r, now, 6) == rendered_line(c, r, now),
{
    reveal_with_fuel(rendered_prefix, 8);
    assert(rendered_prefix(c, r, now, 6) =~= rendered_line(c, r, now));
}

/// Writes the time field: the clock reading and one space.
pub fn write_time<S: TextSink>(write: &mut S, now_ms: u64) -> (r: Result<(), WriteError>)
    ensures
        r is Ok ==> final(write).contents() == old(write).contents() + time_fragment(now_ms),
        r is Err ==> final(write).contents() == old(write).contents(),
{
    let mut frag = time_string(now_ms);
    proof {
        reveal_strlit(" ");
        assert(frag@ + " "@ =~= time_fragment(now_ms));
    }
    frag.append(" ");
    write.append(frag.as_str())
}

/// Writes the severity field: the padded label in square brackets and one
/// space.
pub fn write_level<S: TextSink>(record: &Record, write: &mut S, config: &Config) -> (r: Result<
    (),
    WriteError,
>)
    ensures
        r is Ok ==> final(write).contents() == old(write).contents() + level_fragment(
            record.level,
            config.level_padding,
        ),
        r is Err ==> final(write).contents() == old(write).contents(),
{
    let padded = pad_label(level_label_str(record.level), config.level_padding);
    let mut frag = "[".to_owned();
    frag.append(padded.as_str());
    proof {
        reveal_strlit("[");
        reveal_strlit("] ");
        assert(frag@ + "] "@ =~= level_fragment(record.level, config.level_padding));
    }
    frag.append("] ");
    write.append(frag.as_str())
}

/// Writes the context field: the padded name in parentheses and one space.
pub fn write_thread_name<S: TextSink>(write: &mut S, name: &str, config: &Config) -> (r: Result<
    (),
    WriteError,
>)
    ensures
        r is Ok ==> final(write).contents() == old(write).contents() + thread_fragment(
            name@,
            config.thread_padding,
        ),
        r is Err ==> final(write).contents() == old(write).contents(),
{
    let padded = pad_label(name, config.thread_padding);
    let mut frag = "(".to_owned();
    frag.append(padded.as_str());
    proof {
        reveal_strlit("(");
        reveal_strlit(") ");
        assert(frag@ + ") "@ =~= thread_fragment(name@, config.thread_padding));
    }
    frag.append(") ");
    write.append(frag.as_str())
}

/// Writes the target field: the target, a colon and one space.
pub fn write_target<S: TextSink>(record: &Record, write: &mut S) -> (r: Result<(), WriteError>)
    ensures
        r is Ok ==> final(write).contents() == old(write).contents() + target_fragment(
            record.target@,
        ),
        r is Err ==> final(write).contents() == old(write).contents(),
{
    let mut frag = record.target.clone();
    proof {
        reveal_strlit(": ");
        assert(frag@ + ": "@ =~= target_fragment(record.target@));
    }
    frag.append(": ");
    write.append(frag.as_str())
}

/// Writes the location field: file and line in square brackets, each replaced
/// by a placeholder when missing, and one space.
pub fn write_location<S: TextSink>(record: &Record, write: &mut S) -> (r: Result<(), WriteError>)
    ensures
        r is Ok ==> final(write).contents() == old(write).contents() + location_fragment(*record),
        r is Err ==> final(write).contents() == old(write).contents(),
{
    proof {
        reveal_strlit("[");
        reveal_strlit("<unknown>");
        reveal_strlit(":");
        reveal_strlit("] ");
        assert("<unknown>"@ =~= unknown_label());
    }
    let mut frag = "[".to_owned();
    match &record.file {
        Some(f) => frag.append(f.as_str()),
        None => frag.append("<unknown>"),
    }
    frag.append(":");
    match record.line {
        Some(l) => {
            let digits = dec_string(l as u64);
            frag.append(digits.as_str());
        },
        None => frag.append("<unknown>"),
    }
    proof {
        assert(frag@ + "] "@ =~= location_fragment(*record));
    }
    frag.append("] ");
    write.append(frag.as_str())
}

/// Writes the message field: the message and exactly one newline.
pub fn write_args<S: TextSink>(record: &Record, write: &mut S) -> (r: Result<(), WriteError>)
    ensures
        r is Ok ==> final(write).contents() == old(write).contents() + message_fragment(*record),
        r is Err ==> final(write).contents() == old(write).contents(),
{
    let mut frag = record.message.clone();
    proof {
        reveal_strlit("\n");
        assert(frag@ + "\n"@ =~= message_fragment(*record));
    }
    frag.append("\n");
    write.append(frag.as_str())
}

/// Whether the record is filtered out before any field is written. Per-target
/// allow and deny lists are out of scope, so no record is ever skipped.
pub fn should_skip(config: &Config, record: &Record) -> (r: bool)
    ensures
        r == false,
{
    false
}

/// Renders one record into the sink, field by field in fixed order.
///
/// On success the sink has grown by exactly the rendered line. On failure the
/// sink has grown by the segments completed before the failing append — a
/// prefix of the line — and the error is returned at once.
pub fn try_log<S: TextSink>(
    config: &Config,
    record: &Record,
    now: Option<u64>,
    write: &mut S,
) -> (r: Result<(), WriteError>)
    ensures
        r is Ok ==> final(write).contents() == old(write).contents() + rendered_line(
            *config,
            *record,
            now,
        ),
        r is Err ==> exists|k: int|
            0 <= k <= 5 && final(write).contents() == old(write).contents() + rendered_prefix(
                *config,
                *record,
                now,
                k,
            ),
{
    proof {
        lemma_prefix_zero(*config, *record, now);
        lemma_prefix_step(*config, *record, now, 0);
        lemma_prefix_step(*config, *record, now, 1);
        lemma_prefix_step(*config, *record, now, 2);
        lemma_prefix_step(*config, *record, now, 3);
        lemma_prefix_step(*config, *record, now, 4);
        lemma_prefix_step(*config, *record, now, 5);
    }
    if should_skip(config, record) {
        return Ok(());
    }
    if field_gate(config.time, record.level) {
        if let Some(ms) = now {
            if let Err(e) = write_time(write, ms) {
                proof {
                    assert(write.contents() =~= old(write).contents() + rendered_prefix(
                        *config,
                        *record,
                        now,
                        0,
                    ));
                }
                return Err(e);
            }
        }
    }
    proof {
        assert(write.contents() =~= old(write).contents() + rendered_prefix(
            *config,
            *record,
            now,
            1,
        ));
    }
    if field_gate(config.level, record.level) {
        if let Err(e) = write_level(record, write, config) {
            proof {
                assert(write.contents() =~= old(write).contents() + rendered_prefix(
                    *config,
                    *record,
                    now,
                    1,
                ));
            }
            return Err(e);
        }
    }
    proof {
        assert(write.contents() =~= old(write).contents() + rendered_prefix(
            *config,
            *record,
            now,
            2,
        ));
    }
    if field_gate(config.thread, record.level) {
        if let Err(e) = write_thread_name(write, record.thread_name.as_str(), config) {
            proof {
                assert(write.contents() =~= old(write).contents() + rendered_prefix(
                    *config,
                    *record,
                    now,
                    2,
                ));
            }
            return Err(e);
        }
    }
    proof {
        assert(write.contents() =~= old(write).contents() + rendered_prefix(
            *config,
            *record,
            now,
            3,
        ));
    }
    if field_gate(config.target, record.level) {
        if let Err(e) = write_target(record, write) {
            proof {
                assert(write.contents() =~= old(write).contents() + rendered_prefix(
                    *config,
                    *record,
                    now,
                    3,
                ));
            }
            return Err(e);
        }
    }
    proof {
        assert(write.contents() =~= old(write).contents() + rendered_prefix(
            *config,
            *record,
            now,
            4,
        ));
    }
    if field_gate(config.location, record.level) {
        if let Err(e) = write_location(record, write) {
            proof {
                assert(write.contents() =~= old(write).contents() + rendered_prefix(
                    *config,
                    *record,
                    now,
                    4,
                ));
            }
            return Err(e);
        }
    }
    proof {
        assert(write.contents() =~= old(write).contents() + rendered_prefix(
            *config,
            *record,
            now,
            5,
        ));
    }
    match write_args(record, write) {
        Err(e) => {
            proof {
                assert(write.contents() =~= old(write).contents() + rendered_prefix(
                    *config,
                    *record,
                    now,
                    5,
                ));
            }
            Err(e)
        },
        Ok(_) => {
            proof {
                assert(write.contents() =~= old(write).contents() + rendered_prefix(
                    *config,
                    *record,
                    now,
                    6,
                ));
                lemma_rendered_prefix_full(*config, *record, now);
            }
            Ok(())
        },
    }
}

/// Determinism: two successful renders from the same configuration, record
/// and clock reading append identical text, wherever each sink started.
pub proof fn lemma_render_deterministic(
    c: Config,
    r: Record,
    now: Option<u64>,
    pre1: Seq<char>,
    post1: Seq<char>,
    pre2: Seq<char>,
    post2: Seq<char>,
)
    requires
        post1 == pre1 + rendered_line(c, r, now),
        post2 == pre2 + rendered_line(c, r, now),
    ensures
        post1.skip(pre1.len() as int) == post2.skip(pre2.len() as int),
{
    assert(post1.skip(pre1.len() as int) =~= rendered_line(c, r, now));
    assert(post2.skip(pre2.len() as int) =~= rendered_line(c, r, now));
}

/// Field gating: an `Off` threshold suppresses its field for every record,
/// and a threshold equal to the record's own severity always admits it.
pub proof fn lemma_field_gating(threshold: LevelFilter, sev: Level)
    ensures
        threshold == LevelFilter::Off ==> !field_enabled(threshold, sev),
        filter_value(threshold) == level_value(sev) ==> field_enabled(threshold, sev),
{
}

/// An `Off` threshold leaves its segment empty in every rendered line.
pub proof fn lemma_off_suppresses(c: Config, r: Record, now: Option<u64>)
    ensures
        c.time == LevelFilter::Off ==> time_segment(c, r, now) == Seq::<char>::empty(),
        c.level == LevelFilter::Off ==> level_segment(c, r) == Seq::<char>::empty(),
        c.thread == LevelFilter::Off ==> thread_segment(c, r) == Seq::<char>::empty(),
        c.target == LevelFilter::Off ==> target_segment(c, r) == Seq::<char>::empty(),
        c.location == LevelFilter::Off ==> location_segment(c, r) == Seq::<char>::empty(),
{
}

/// Padding: `LeftAlign(w)` right-pads a short label with spaces to width `w`,
/// `RightAlign(w)` left-pads it, and a label at least `w` characters long is
/// never changed or truncated.
pub proof fn lemma_padding(label: Seq<char>, rule: Padding)
    ensures
        (match rule {
            Padding::Off => pad_spec(label, rule) == label,
            Padding::LeftAlign(w) => if label.len() < w {
                pad_spec(label, rule) == label + spaces((w - label.len()) as nat) && pad_spec(
                    label,
                    rule,
                ).len() == w
            } else {
                pad_spec(label, rule) == label
            },
            Padding::RightAlign(w) => if label.len() < w {
                pad_spec(label, rule) == spaces((w - label.len()) as nat) + label && pad_spec(
                    label,
                    rule,
                ).len() == w
            } else {
                pad_spec(label, rule) == label
            },
        }),
{
}

/// The message is unconditional: every rendered line ends with the message
/// and exactly one newline, and with every field threshold `Off` the line is
/// the message and newline alone.
pub proof fn lemma_message_unconditional(c: Config, r: Record, now: Option<u64>)
    ensures
        rendered_line(c, r, now).len() > r.message@.len(),
        rendered_line(c, r, now).skip(
            rendered_line(c, r, now).len() - r.message@.len() - 1,
        ) == r.message@ + seq!['\n'],
        c.time == LevelFilter::Off && c.level == LevelFilter::Off && c.thread == LevelFilter::Off
            && c.target == LevelFilter::Off && c.location == LevelFilter::Off ==> rendered_line(
            c,
            r,
            now,
        ) == r.message@ + seq!['\n'],
{
    let pre = time_segment(c, r, now) + level_segment(c, r) + thread_segment(c, r)
        + target_segment(c, r) + location_segment(c, r);
    assert(rendered_line(c, r, now) == pre + message_fragment(r));
    assert(rendered_line(c, r, now).skip(pre.len() as int) =~= r.message@ + seq!['\n']);
    if c.time == LevelFilter::Off && c.level == LevelFilter::Off && c.thread == LevelFilter::Off
        && c.target == LevelFilter::Off && c.location == LevelFilter::Off {
        assert(rendered_line(c, r, now) =~= r.message@ + seq!['\n']);
    }
}

} // verus!
