//! A small leveled logging library: messages are filtered against a
//! minimum severity, stamped with the local time, formatted into a fixed
//! bracketed layout, colorized for the console, and optionally handed back
//! as a plain line for a file sink.

pub mod data;

use std::io::Write;
use vstd::prelude::*;

verus! {

/// The six severities, ordered from lowest to highest:
/// Trace < Debug < Info < Warn < Error < Fatal.
#[derive(Debug, Clone, Copy, PartialEq, Eq, Structural)]
pub enum LogLevel {
    Trace,
    Debug,
    Info,
    Warn,
    Error,
    Fatal,
}

impl LogLevel {
    /// The numeric rank of a severity; the total order on severities is
    /// the order of ranks.
    pub open spec fn rank(self) -> int {
        match self {
            LogLevel::Trace => 0,
            LogLevel::Debug => 1,
            LogLevel::Info => 2,
            LogLevel::Warn => 3,
            LogLevel::Error => 4,
            LogLevel::Fatal => 5,
        }
    }

    /// The rank as a machine integer.
    pub fn rank_value(&self) -> (r: u8)
        ensures
            r as int == self.rank(),
    {
        match self {
            LogLevel::Trace => 0,
            LogLevel::Debug => 1,
            LogLevel::Info => 2,
            LogLevel::Warn => 3,
            LogLevel::Error => 4,
            LogLevel::Fatal => 5,
        }
    }
}

impl PartialOrd for LogLevel {
    fn partial_cmp(&self, other: &Self) -> (r: Option<core::cmp::Ordering>) {
        let a = self.rank_value();
        let b = other.rank_value();
        if a < b {
            Some(core::cmp::Ordering::Less)
        } else if a == b {
            Some(core::cmp::Ordering::Equal)
        } else {
            Some(core::cmp::Ordering::Greater)
        }
    }
}

impl vstd::std_specs::cmp::PartialOrdSpecImpl for LogLevel {
    open spec fn obeys_partial_cmp_spec() -> bool {
        true
    }

    open spec fn partial_cmp_spec(&self, other: &Self) -> Option<core::cmp::Ordering> {
        if self.rank() < other.rank() {
            Some(core::cmp::Ordering::Less)
        } else if self.rank() == other.rank() {
            Some(core::cmp::Ordering::Equal)
        } else {
            Some(core::cmp::Ordering::Greater)
        }
    }
}

/// The order on severities is total: ranks are distinct, any two
/// severities compare, and the order runs
/// Trace < Debug < Info < Warn < Error < Fatal.
pub proof fn lemma_severity_total_order(a: LogLevel, b: LogLevel)
    ensures
        a.rank() <= b.rank() || b.rank() <= a.rank(),
        a.rank() == b.rank() <==> a == b,
        0 <= a.rank() <= 5,
        LogLevel::Trace.rank() < LogLevel::Debug.rank() < LogLevel::Info.rank()
            < LogLevel::Warn.rank() < LogLevel::Error.rank() < LogLevel::Fatal.rank(),
{
}

/// The display label of a severity, before padding.
pub open spec fn label_spec(level: LogLevel) -> Seq<char> {
    match level {
        LogLevel::Trace => "TRACE"@,
        LogLevel::Debug => "DEBUG"@,
        LogLevel::Info => "INFO"@,
        LogLevel::Warn => "WARN"@,
        LogLevel::Error => "ERROR"@,
        LogLevel::Fatal => "FATAL"@,
    }
}

/// The display label of a severity, left-justified to a width of five
/// characters with trailing spaces.
pub open spec fn padded_label_spec(level: LogLevel) -> Seq<char> {
    match level {
        LogLevel::Trace => "TRACE"@,
        LogLevel::Debug => "DEBUG"@,
        LogLevel::Info => "INFO "@,
        LogLevel::Warn => "WARN "@,
        LogLevel::Error => "ERROR"@,
        LogLevel::Fatal => "FATAL"@,
    }
}

/// Every padded severity label is exactly five characters wide: the bare
/// label, followed by spaces out to the fifth column.
pub proof fn lemma_label_padding(level: LogLevel)
    ensures
        padded_label_spec(level).len() == 5,
        label_spec(level).len() <= 5,
        padded_label_spec(level).subrange(0, label_spec(level).len() as int) == label_spec(level),
        forall|i: int|
            label_spec(level).len() <= i < 5 ==> padded_label_spec(level)[i] == ' ',
{
    reveal_strlit("TRACE");
    reveal_strlit("DEBUG");
    reveal_strlit("INFO");
    reveal_strlit("INFO ");
    reveal_strlit("WARN");
    reveal_strlit("WARN ");
    reveal_strlit("ERROR");
    reveal_strlit("FATAL");
    match level {
        LogLevel::Trace => {
            assert(padded_label_spec(level).subrange(0, 5) =~= label_spec(level));
        },
        LogLevel::Debug => {
            assert(padded_label_spec(level).subrange(0, 5) =~= label_spec(level));
        },
        LogLevel::Info => {
            assert(padded_label_spec(level).subrange(0, 4) =~= label_spec(level));
        },
        LogLevel::Warn => {
            assert(padded_label_spec(level).subrange(0, 4) =~= label_spec(level));
        },
        LogLevel::Error => {
            assert(padded_label_spec(level).subrange(0, 5) =~= label_spec(level));
        },
        LogLevel::Fatal => {
            assert(padded_label_spec(level).subrange(0, 5) =~= label_spec(level));
        },
    }
}

/// The padded display label of a severity.
pub fn padded_label(level: &LogLevel) -> (r: &'static str)
    ensures
        r@ == padded_label_spec(*level),
{
    match level {
        LogLevel::Trace => "TRACE",
        LogLevel::Debug => "DEBUG",
        LogLevel::Info => "INFO ",
        LogLevel::Warn => "WARN ",
        LogLevel::Error => "ERROR",
        LogLevel::Fatal => "FATAL",
    }
}

/// The fixed bracketed layout of a log line:
/// `[<time>] [<severity padded to 5>] [<id>]: <message>`.
pub open spec fn line_spec(time: Seq<char>, level: LogLevel, id: Seq<char>, msg: Seq<char>) -> Seq<
    char,
> {
    "["@ + time + "] ["@ + padded_label_spec(level) + "] ["@ + id + "]: "@ + msg
}

/// Build the formatted log line for a timestamp, a severity, a component
/// identifier and a message.
pub fn format_line(time: &str, level: &LogLevel, id: &str, msg: &str) -> (r: String)
    ensures
        r@ == line_spec(time@, *level, id@, msg@),
{
    let mut line = String::from_str("[");
    line.append(time);
    line.append("] [");
    line.append(padded_label(level));
    line.append("] [");
    line.append(id);
    line.append("]: ");
    line.append(msg);
    line
}

/// Whether a text is free of the ANSI escape character; the colorizer is
/// only guaranteed to leave such a text intact inside its decoration.
pub open spec fn esc_free(s: Seq<char>) -> bool {
    forall|i: int| 0 <= i < s.len() ==> s[i] != 27 as char
}

/// Whether `out` is `text` with a (possibly empty) decoration before and
/// after it, and nothing else: the semantic content is unchanged.
pub open spec fn ansi_wrapped(out: Seq<char>, text: Seq<char>) -> bool {
    exists|p: Seq<char>, s: Seq<char>| out == p + text + s
}

/// Relies on colored's `bright_black` and `ColoredString`'s rendering: for
/// a text without the escape character, the result is the text between a
/// style prefix and a reset suffix, or the text itself when colors are off.
#[verifier::external_body]
fn paint_trace(line: &str) -> (r: String)
    ensures
        esc_free(line@) ==> ansi_wrapped(r@, line@),
{
    colored::Colorize::bright_black(line).to_string()
}

/// Relies on colored's `blue`, as `paint_trace` relies on `bright_black`.
#[verifier::external_body]
fn paint_debug(line: &str) -> (r: String)
    ensures
        esc_free(line@) ==> ansi_wrapped(r@, line@),
{
    colored::Colorize::blue(line).to_string()
}

/// Relies on colored's `white`, as `paint_trace` relies on `bright_black`.
#[verifier::external_body]
fn paint_info(line: &str) -> (r: String)
    ensures
        esc_free(line@) ==> ansi_wrapped(r@, line@),
{
    colored::Colorize::white(line).to_string()
}

/// Relies on colored's `yellow`, as `paint_trace` relies on `bright_black`.
#[verifier::external_body]
fn paint_warn(line: &str) -> (r: String)
    ensures
        esc_free(line@) ==> ansi_wrapped(r@, line@),
{
    colored::Colorize::yellow(line).to_string()
}

/// Relies on colored's `bright_red`, as `paint_trace` relies on
/// `bright_black`.
#[verifier::external_body]
fn paint_error(line: &str) -> (r: String)
    ensures
        esc_free(line@) ==> ansi_wrapped(r@, line@),
{
    colored::Colorize::bright_red(line).to_string()
}

/// Relies on colored's `red` and `underline`, as `paint_trace` relies on
/// `bright_black`.
#[verifier::external_body]
fn paint_fatal(line: &str) -> (r: String)
    ensures
        esc_free(line@) ==> ansi_wrapped(r@, line@),
{
    colored::Colorize::underline(colored::Colorize::red(line)).to_string()
}

/// The fixed console color policy: dim gray for Trace, blue for Debug,
/// white for Info, yellow for Warn, bright red for Error, underlined red
/// for Fatal. The decoration never alters the text it wraps.
pub fn colorize(line: &str, level: &LogLevel) -> (r: String)
    ensures
        esc_free(line@) ==> ansi_wrapped(r@, line@),
{
    match level {
        LogLevel::Trace => paint_trace(line),
        LogLevel::Debug => paint_debug(line),
        LogLevel::Info => paint_info(line),
        LogLevel::Warn => paint_warn(line),
        LogLevel::Error => paint_error(line),
        LogLevel::Fatal => paint_fatal(line),
    }
}

/// Relies on `std::io::stdout` and `writeln`: writes the line and a
/// newline to standard output; a write error is swallowed, so the caller
/// never observes a failure.
#[verifier::external_body]
fn write_console(line: &str) {
    let mut out = std::io::stdout();
    let _ = writeln!(out, "{}", line);
}

/// A logger: a component identifier, a minimum severity below which
/// messages are dropped, and a flag that says whether a plain copy of each
/// emitted line is to be appended to a file sink. The logger is immutable
/// after construction.
#[derive(Debug, Clone, Copy)]
pub struct Hagja {
    pub id: &'static str,
    pub log_level: LogLevel,
    pub write_file: bool,
}

impl Hagja {
    /// Create a new logger instance with the given identifier, minimum
    /// severity and file-writing flag.
    pub fn new(id: &'static str, log_level: LogLevel, write_file: bool) -> (r: Self)
        ensures
            r.id == id,
            r.log_level == log_level,
            r.write_file == write_file,
    {
        Self { id, log_level, write_file }
    }

    /// Whether a message at `level` passes this logger's threshold:
    /// exactly when its rank is at least the threshold's rank.
    pub fn should_log(&self, level: &LogLevel) -> (r: bool)
        ensures
            r == (level.rank() >= self.log_level.rank()),
    {
        level.rank_value() >= self.log_level.rank_value()
    }

    /// The bare display label of a severity.
    pub fn get_level_name(&self, level: &LogLevel) -> (r: &'static str)
        ensures
            r@ == label_spec(*level),
    {
        match level {
            LogLevel::Info => "INFO",
            LogLevel::Debug => "DEBUG",
            LogLevel::Warn => "WARN",
            LogLevel::Error => "ERROR",
            LogLevel::Fatal => "FATAL",
            LogLevel::Trace => "TRACE",
        }
    }

    /// Emit a message at the given severity.
    ///
    /// When the severity passes the threshold, the line is built from the
    /// current clock reading, written colorized to the console, and — when
    /// file writing is enabled — returned in plain form for the file sink;
    /// otherwise nothing at all is done. The returned line, if any, is the
    /// bracketed layout around some well-formed clock reading.
    pub fn emit(&self, level: LogLevel, msg: &str) -> (r: Option<String>)
        ensures
            r is Some <==> (level.rank() >= self.log_level.rank() && self.write_file),
            r is Some ==> exists|t: Seq<char>|
                #[trigger] crate::data::is_clock_text(t) && r->0@ == line_spec(
                    t,
                    level,
                    self.id@,
                    msg@,
                ),
    {
        if !self.should_log(&level) {
            return None;
        }
        let time = crate::data::get_time();
        let line = format_line(time.as_str(), &level, self.id, msg);
        let cline = colorize(line.as_str(), &level);
        write_console(cline.as_str());
        if self.write_file {
            proof {
                assert(crate::data::is_clock_text(time@) && line@ == line_spec(
                    time@,
                    level,
                    self.id@,
                    msg@,
                ));
            }
            Some(line)
        } else {
            None
        }
    }

    /// Standard log, for information or standard procedures.
    pub fn info(&self, msg: &str) {
        let _ = self.emit(LogLevel::Info, msg);
    }

    /// Lower than info, for deeper logging or excessive logs.
    pub fn debug(&self, msg: &str) {
        let _ = self.emit(LogLevel::Debug, msg);
    }

    /// Warnings, for when something unexpected happens that does not
    /// directly warrant an error.
    pub fn warn(&self, msg: &str) {
        let _ = self.emit(LogLevel::Warn, msg);
    }

    /// Errors.
    pub fn error(&self, msg: &str) {
        let _ = self.emit(LogLevel::Error, msg);
    }

    /// Fatal errors: logs a line like the others and returns normally;
    /// terminating the process is the caller's separate responsibility.
    pub fn fatal(&self, msg: &str) {
        let _ = self.emit(LogLevel::Fatal, msg);
    }

    /// Lower than debug, for precise step-by-step logging.
    pub fn trace(&self, msg: &str) {
        let _ = self.emit(LogLevel::Trace, msg);
    }
}

/// The fallback logger that the default slot lazily initializes itself to.
pub open spec fn is_fallback(h: Hagja) -> bool {
    h.id@ == "default"@ && h.log_level == LogLevel::Info && !h.write_file
}

/// The fallback logger: identifier `default`, threshold Info, no file
/// output.
pub fn fallback_logger() -> (r: Hagja)
    ensures
        is_fallback(r),
{
    Hagja::new("default", LogLevel::Info, false)
}

/// The process-wide default-logger slot: starts empty, is assigned at most
/// once, and lazily fills itself with the fallback logger on first read.
pub struct DefaultSlot {
    pub slot: Option<Hagja>,
}

impl DefaultSlot {
    /// A fresh, empty slot.
    pub fn new() -> (r: Self)
        ensures
            r.slot is None,
    {
        DefaultSlot { slot: None }
    }
}

/// Set the default logger. Single assignment: the logger is stored only
/// when the slot is still empty; a populated slot is left exactly as it
/// was and the rejected logger is handed back to the caller.
pub fn set_default_logger(slot: &mut DefaultSlot, logger: Hagja) -> (r: Result<(), Hagja>)
    ensures
        old(slot).slot is None ==> (final(slot).slot == Some(logger) && r is Ok),
        old(slot).slot is Some ==> (final(slot).slot == old(slot).slot && (r matches Err(rejected)
            && rejected == logger)),
{
    if slot.slot.is_none() {
        slot.slot = Some(logger);
        Ok(())
    } else {
        Err(logger)
    }
}

/// Get the default logger. An empty slot initializes itself to the
/// fallback logger first; a populated slot is never altered, so every call
/// after the first returns the same logger.
pub fn get_default_logger(slot: &mut DefaultSlot) -> (r: &Hagja)
    ensures
        final(slot).slot is Some,
        old(slot).slot is Some ==> final(slot).slot == old(slot).slot,
        old(slot).slot is None ==> is_fallback(final(slot).slot->0),
        *r == final(slot).slot->0,
{
    if slot.slot.is_none() {
        slot.slot = Some(fallback_logger());
    }
    slot.slot.as_ref().unwrap()
}

} // verus!
