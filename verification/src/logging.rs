//! Leveled, timestamped, color-coded log values.
//!
//! A log call builds a [`Log`] value: a prefix of the form
//! `[H:M:S - D.M.Y] (LABEL):`, the caller's message, and a display color
//! derived from the level. Rendering the value to a terminal is left to the
//! caller, so that building a log line never performs output itself.

use crate::decimal::dec_rep;
use crate::decimal::dec_rep_signed;
use crate::decimal::push_decimal_i32;
use crate::decimal::push_decimal_u32;
use crate::time::Timestamp;
use crate::time::now_utc;
use vstd::prelude::*;
use vstd::string::StringExecFns;

verus! {

/// Severity of a log entry, controlling the prefix label and the color.
#[derive(Clone, Copy, Debug)]
pub enum LogLevel {
    NORMAL,
    INFORMATION,
    WARNING,
    EXCEPTION,
}

/// The terminal color tag a log entry is rendered with.
#[derive(PartialEq, Eq, Structural, Clone, Copy, Debug)]
pub enum LogColor {
    White,
    Magenta,
    Yellow,
    Red,
}

/// A single formatted log entry, built per call and rendered immediately.
pub struct Log {
    pub prefix: String,
    pub message: String,
    pub color: LogColor,
}

/// The prefix label of each level.
pub open spec fn label_of(level: LogLevel) -> Seq<char> {
    match level {
        LogLevel::NORMAL => ""@,
        LogLevel::INFORMATION => "INFORMATION"@,
        LogLevel::WARNING => "WARN"@,
        LogLevel::EXCEPTION => "EXCEPTION"@,
    }
}

/// The display color of each level.
pub open spec fn color_of(level: LogLevel) -> LogColor {
    match level {
        LogLevel::NORMAL => LogColor::White,
        LogLevel::INFORMATION => LogColor::Magenta,
        LogLevel::WARNING => LogColor::Yellow,
        LogLevel::EXCEPTION => LogColor::Red,
    }
}

/// The log prefix for a time and a label: `[H:M:S - D.M.Y] (LABEL):`,
/// every numeric field unpadded decimal.
pub open spec fn prefix_spec(t: Timestamp, label: Seq<char>) -> Seq<char> {
    "["@ + dec_rep(t.hour as nat) + ":"@ + dec_rep(t.minute as nat) + ":"@ + dec_rep(
        t.second as nat,
    ) + " - "@ + dec_rep(t.day as nat) + "."@ + dec_rep(t.month as nat) + "."@ + dec_rep_signed(
        t.year as int,
    ) + "] ("@ + label + "):"@
}

/// Builds the log prefix for the given label and time.
pub fn create_log_prefix(label: &str, t: Timestamp) -> (r: String)
    ensures
        r@ == prefix_spec(t, label@),
{
    let mut s = String::from_str("[");
    push_decimal_u32(&mut s, t.hour);
    s.append(":");
    push_decimal_u32(&mut s, t.minute);
    s.append(":");
    push_decimal_u32(&mut s, t.second);
    s.append(" - ");
    push_decimal_u32(&mut s, t.day);
    s.append(".");
    push_decimal_u32(&mut s, t.month);
    s.append(".");
    push_decimal_i32(&mut s, t.year);
    s.append("] (");
    s.append(label);
    s.append("):");
    s
}

/// Builds the log entry for a level, a message and an explicit time.
pub fn make_log(level: LogLevel, message: String, t: Timestamp) -> (r: Log)
    ensures
        r.prefix@ == prefix_spec(t, label_of(level)),
        r.message@ == message@,
        r.color == color_of(level),
{
    let label: &str = match level {
        LogLevel::NORMAL => "",
        LogLevel::INFORMATION => "INFORMATION",
        LogLevel::WARNING => "WARN",
        LogLevel::EXCEPTION => "EXCEPTION",
    };
    let prefix = create_log_prefix(label, t);
    let color = match level {
        LogLevel::NORMAL => LogColor::White,
        LogLevel::INFORMATION => LogColor::Magenta,
        LogLevel::WARNING => LogColor::Yellow,
        LogLevel::EXCEPTION => LogColor::Red,
    };
    Log { prefix, message, color }
}

/// Builds the log entry for a level and a message at the current UTC time.
/// The time is whatever the clock reports, so the prefix is pinned down only
/// up to that reading.
pub fn log(level: LogLevel, message: String) -> (r: Log)
    ensures
        r.message@ == message@,
        r.color == color_of(level),
        exists|t: Timestamp| t.wf() && r.prefix@ == #[trigger] prefix_spec(t, label_of(level)),
{
    let t = now_utc();
    let r = make_log(level, message, t);
    proof {
        assert(t.wf() && r.prefix@ == prefix_spec(t, label_of(level)));
    }
    r
}

impl Log {
    /// The full rendered line: prefix, one space, message.
    pub open spec fn rendered_spec(self) -> Seq<char> {
        self.prefix@ + " "@ + self.message@
    }

    /// Renders the entry as one line of text, without color escapes.
    pub fn render(&self) -> (r: String)
        ensures
            r@ == self.rendered_spec(),
    {
        let mut s = self.prefix.clone();
        s.append(" ");
        s.append(self.message.as_str());
        s
    }
}

} // verus!
