//! The computational part of log formatting: level colors and labels,
//! and the zero-padded clock prefix.  Wiring these to an actual log
//! sink is an I/O concern and lives outside the library.

use vstd::prelude::*;
use vstd::string::StringExecFns;
use crate::text::{pad2, pad3, three_digit_string, two_digit_string};

verus! {

pub const RESET: &'static str = "\x1b[0m";

pub const GREY: &'static str = "\x1b[90m";

pub const RED: &'static str = "\x1b[31m";

pub const YELLOW: &'static str = "\x1b[33m";

pub const GREEN: &'static str = "\x1b[32m";

pub const ORANGE: &'static str = "\x1b[38;5;215m";

pub const CYAN: &'static str = "\x1b[36m";

/// A log severity level, most severe first.
#[derive(Clone, Copy, Debug, PartialEq, Eq, Structural)]
pub enum Level {
    Error,
    Warn,
    Info,
    Debug,
    Trace,
}

/// The escape sequence that colors a level's tag.
pub open spec fn spec_level_color(l: Level) -> Seq<char> {
    match l {
        Level::Error => RED@,
        Level::Warn => YELLOW@,
        Level::Info => GREEN@,
        Level::Debug => ORANGE@,
        Level::Trace => CYAN@,
    }
}

/// Picks the color for a level's tag.
pub fn level_color(l: Level) -> (r: &'static str)
    ensures
        r@ == spec_level_color(l),
{
    match l {
        Level::Error => RED,
        Level::Warn => YELLOW,
        Level::Info => GREEN,
        Level::Debug => ORANGE,
        Level::Trace => CYAN,
    }
}

/// The upper-case name of a level.
pub open spec fn spec_level_label(l: Level) -> Seq<char> {
    match l {
        Level::Error => "ERROR"@,
        Level::Warn => "WARN"@,
        Level::Info => "INFO"@,
        Level::Debug => "DEBUG"@,
        Level::Trace => "TRACE"@,
    }
}

/// Renders the upper-case name of a level.
pub fn level_label(l: Level) -> (r: &'static str)
    ensures
        r@ == spec_level_label(l),
{
    match l {
        Level::Error => "ERROR",
        Level::Warn => "WARN",
        Level::Info => "INFO",
        Level::Debug => "DEBUG",
        Level::Trace => "TRACE",
    }
}

/// The millisecond part of a nanosecond-of-second value.
pub fn millis_of_nanos(nanos: u32) -> (r: u32)
    requires
        nanos < 1_000_000_000,
    ensures
        r == nanos / 1_000_000,
        r < 1000,
{
    nanos / 1_000_000
}

/// The zero-padded clock text `hh:mm:ss:mmm`.
pub open spec fn spec_timestamp(hour: nat, minute: nat, second: nat, millis: nat) -> Seq<char> {
    pad2(hour) + ":"@ + pad2(minute) + ":"@ + pad2(second) + ":"@ + pad3(millis)
}

/// Renders the zero-padded clock text.
pub fn format_timestamp(hour: u8, minute: u8, second: u8, millis: u16) -> (r: String)
    requires
        hour < 24,
        minute < 60,
        second < 60,
        millis < 1000,
    ensures
        r@ == spec_timestamp(hour as nat, minute as nat, second as nat, millis as nat),
{
    let mut out = two_digit_string(hour as u64);
    out.append(":");
    let part = two_digit_string(minute as u64);
    out.append(part.as_str());
    out.append(":");
    let part = two_digit_string(second as u64);
    out.append(part.as_str());
    out.append(":");
    let part = three_digit_string(millis as u64);
    out.append(part.as_str());
    proof {
        assert(out@ =~= spec_timestamp(hour as nat, minute as nat, second as nat, millis as nat));
    }
    out
}

/// The full colored prefix of one log line: the greyed clock, a space,
/// and the level's bracketed, colored tag, ready to precede a message.
pub open spec fn spec_log_prefix(l: Level, hour: nat, minute: nat, second: nat, millis: nat) -> Seq<
    char,
> {
    GREY@ + spec_timestamp(hour, minute, second, millis) + RESET@ + " "@ + spec_level_color(l)
        + "["@ + spec_level_label(l) + "]"@ + RESET@ + " "@
}

/// Renders the colored prefix of one log line.
pub fn format_log_prefix(l: Level, hour: u8, minute: u8, second: u8, millis: u16) -> (r: String)
    requires
        hour < 24,
        minute < 60,
        second < 60,
        millis < 1000,
    ensures
        r@ == spec_log_prefix(l, hour as nat, minute as nat, second as nat, millis as nat),
{
    let mut out = String::from_str(GREY);
    let clock = format_timestamp(hour, minute, second, millis);
    out.append(clock.as_str());
    out.append(RESET);
    out.append(" ");
    out.append(level_color(l));
    out.append("[");
    out.append(level_label(l));
    out.append("]");
    out.append(RESET);
    out.append(" ");
    proof {
        assert(out@ =~= spec_log_prefix(l, hour as nat, minute as nat, second as nat,
        millis as nat));
    }
    out
}

} // verus!
