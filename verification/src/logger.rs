//! Logger.
//!
//! Log lines start with the local time, as `MM/DD/YYYY hh:mm:ss:nnnnnnnnn`, followed by the
//! message, in the color of its level.

use chrono::{Datelike, Timelike};
use std::io::Write;
use vstd::prelude::*;
use vstd::string::StringExecFns;

verus! {

/// Trait use to log activity.
pub trait Logger {
    /// Log some information.
    fn info(&mut self, msg: &str);

    /// Log some debug information.
    fn debug(&mut self, msg: &str);

    /// Log some warnings.
    fn warn(&mut self, msg: &str);

    /// Log some errors.
    fn error(&mut self, msg: &str);
}

/// A logger writing to the standard output.
#[derive(Clone, Copy, Debug, Eq, Hash, PartialEq, Structural)]
pub struct StdoutLogger;

/// A moment of the local calendar.
#[derive(Clone, Copy, Debug, Eq, PartialEq, Structural)]
pub struct LocalTime {
    pub year: i32,
    /// From 1 to 12.
    pub month: u32,
    /// From 1 to 31.
    pub day: u32,
    /// From 0 to 23.
    pub hour: u32,
    /// From 0 to 59.
    pub minute: u32,
    /// From 0 to 59.
    pub second: u32,
    /// Nanoseconds since the whole second; from 1,000,000,000 on during a leap second.
    pub nanosecond: u32,
}

/// The components of a local time lie in their ranges.
pub open spec fn valid_time(t: LocalTime) -> bool {
    &&& 1 <= t.month <= 12
    &&& 1 <= t.day <= 31
    &&& t.hour <= 23
    &&& t.minute <= 59
    &&& t.second <= 59
    &&& t.nanosecond <= 1_999_999_999
}

/// Calls `chrono::Local::now` and reads its calendar components with chrono's `Datelike` and
/// `Timelike` accessors.
///
/// The result depends on the clock; only the ranges that chrono documents for each component
/// are claimed.
#[verifier::external_body]
fn local_now() -> (res: LocalTime)
    ensures
        valid_time(res),
{
    let t = chrono::Local::now();
    LocalTime {
        year: t.year(),
        month: t.month(),
        day: t.day(),
        hour: t.hour(),
        minute: t.minute(),
        second: t.second(),
        nanosecond: t.nanosecond(),
    }
}

/// Writes `line` and a line break to the standard output; a failure to write is ignored.
#[verifier::external_body]
fn print_line(line: &str) {
    let _ = writeln!(std::io::stdout(), "{}", line);
}

/// The character of a decimal digit.
pub open spec fn digit_char(d: int) -> char {
    if d == 0 {
        '0'
    } else if d == 1 {
        '1'
    } else if d == 2 {
        '2'
    } else if d == 3 {
        '3'
    } else if d == 4 {
        '4'
    } else if d == 5 {
        '5'
    } else if d == 6 {
        '6'
    } else if d == 7 {
        '7'
    } else if d == 8 {
        '8'
    } else {
        '9'
    }
}

/// The decimal digits of `n`, without leading zero.
pub open spec fn decimal(n: nat) -> Seq<char>
    decreases n,
{
    if n < 10 {
        seq![digit_char(n as int)]
    } else {
        decimal(n / 10).push(digit_char((n % 10) as int))
    }
}

/// `n` in decimal, with leading zeros up to `width` digits.
pub open spec fn padded(n: nat, width: nat) -> Seq<char> {
    let d = decimal(n);
    if d.len() < width {
        Seq::new((width - d.len()) as nat, |i: int| '0') + d
    } else {
        d
    }
}

/// `n` in decimal, with a minus sign if it is negative.
pub open spec fn signed_decimal(n: int) -> Seq<char> {
    if n < 0 {
        seq!['-'] + decimal((-n) as nat)
    } else {
        decimal(n as nat)
    }
}

/// A local time as the logger prints it: `MM/DD/YYYY hh:mm:ss:nnnnnnnnn`.
pub open spec fn time_text(t: LocalTime) -> Seq<char> {
    padded(t.month as nat, 2) + seq!['/'] + padded(t.day as nat, 2) + seq!['/'] + signed_decimal(
        t.year as int,
    ) + seq![' '] + padded(t.hour as nat, 2) + seq![':'] + padded(t.minute as nat, 2) + seq![':']
        + padded(t.second as nat, 2) + seq![':'] + padded(t.nanosecond as nat, 9)
}

fn digit_str(d: u64) -> (res: &'static str)
    requires
        d < 10,
    ensures
        res@ == seq![digit_char(d as int)],
{
    proof {
        reveal_strlit("0");
        reveal_strlit("1");
        reveal_strlit("2");
        reveal_strlit("3");
        reveal_strlit("4");
        reveal_strlit("5");
        reveal_strlit("6");
        reveal_strlit("7");
        reveal_strlit("8");
        reveal_strlit("9");
    }
    if d == 0 {
        "0"
    } else if d == 1 {
        "1"
    } else if d == 2 {
        "2"
    } else if d == 3 {
        "3"
    } else if d == 4 {
        "4"
    } else if d == 5 {
        "5"
    } else if d == 6 {
        "6"
    } else if d == 7 {
        "7"
    } else if d == 8 {
        "8"
    } else {
        "9"
    }
}

/// Append `n` in decimal to `s`.
pub fn write_decimal(s: &mut String, n: u64)
    ensures
        final(s)@ == old(s)@ + decimal(n as nat),
    decreases n,
{
    if n >= 10 {
        write_decimal(s, n / 10);
    }
    s.append(digit_str(n % 10));
    assert(final(s)@ =~= old(s)@ + decimal(n as nat));
}

/// The number of decimal digits of `n`.
pub fn decimal_len(n: u64) -> (res: u64)
    ensures
        res == decimal(n as nat).len(),
    decreases n,
{
    proof {
        reveal_with_fuel(pow10, 21);
        assert(pow10(20) == 100000000000000000000);
        lemma_decimal_len_bound(n as nat, 20);
    }
    if n < 10 {
        1
    } else {
        let r = decimal_len(n / 10);
        r + 1
    }
}

proof fn lemma_decimal_len_bound(n: nat, k: nat)
    requires
        n < pow10(k),
        k >= 1,
    ensures
        decimal(n).len() <= k,
    decreases n,
{
    if n >= 10 {
        assert(k >= 2) by {
            if k == 1 {
                reveal_with_fuel(pow10, 2);
                assert(pow10(1) == 10);
            }
        }
        assert(pow10(k) == 10 * pow10((k - 1) as nat));
        assert(n / 10 < pow10((k - 1) as nat));
        lemma_decimal_len_bound(n / 10, (k - 1) as nat);
    }
}

/// Ten to the power `k`.
pub open spec fn pow10(k: nat) -> nat
    decreases k,
{
    if k == 0 {
        1
    } else {
        10 * pow10((k - 1) as nat)
    }
}

/// Append `n` in decimal to `s`, with leading zeros up to `width` digits.
pub fn write_padded(s: &mut String, n: u64, width: u64)
    ensures
        final(s)@ == old(s)@ + padded(n as nat, width as nat),
{
    let len = decimal_len(n);
    let mut k: u64 = len;
    let ghost start = s@;
    proof {
        reveal_strlit("0");
    }
    while k < width
        invariant
            len == decimal(n as nat).len(),
            len <= k,
            k <= width || k == len,
            s@ == start + Seq::new((k - len) as nat, |i: int| '0'),
        decreases width - k,
    {
        proof {
            reveal_strlit("0");
        }
        s.append("0");
        assert(s@ =~= start + Seq::new((k + 1 - len) as nat, |i: int| '0'));
        k = k + 1;
    }
    write_decimal(s, n);
    proof {
        if len < width {
            assert(k == width);
            assert(s@ =~= start + padded(n as nat, width as nat));
        } else {
            assert(k == len);
            assert(Seq::new(0, |i: int| '0') =~= Seq::<char>::empty());
            assert(s@ =~= start + padded(n as nat, width as nat));
        }
    }
}

/// Append `n` in decimal to `s`, with a minus sign if it is negative.
pub fn write_signed(s: &mut String, n: i32)
    ensures
        final(s)@ == old(s)@ + signed_decimal(n as int),
{
    proof {
        reveal_strlit("-");
    }
    if n < 0 {
        s.append("-");
        let m: i64 = n as i64;
        write_decimal(s, (-m) as u64);
        assert(final(s)@ =~= old(s)@ + signed_decimal(n as int));
    } else {
        write_decimal(s, n as u64);
    }
}

/// Format a local time as `MM/DD/YYYY hh:mm:ss:nnnnnnnnn`.
pub fn format_time(t: &LocalTime) -> (res: String)
    ensures
        res@ == time_text(*t),
{
    proof {
        reveal_strlit("/");
        reveal_strlit(" ");
        reveal_strlit(":");
    }
    let mut s = String::new();
    write_padded(&mut s, t.month as u64, 2);
    s.append("/");
    write_padded(&mut s, t.day as u64, 2);
    s.append("/");
    write_signed(&mut s, t.year);
    s.append(" ");
    write_padded(&mut s, t.hour as u64, 2);
    s.append(":");
    write_padded(&mut s, t.minute as u64, 2);
    s.append(":");
    write_padded(&mut s, t.second as u64, 2);
    s.append(":");
    write_padded(&mut s, t.nanosecond as u64, 9);
    assert(s@ =~= time_text(*t));
    s
}

/// The current local time, as the logger prints it.
pub fn now() -> (res: String)
    ensures
        exists|t: LocalTime| valid_time(t) && res@ == time_text(t),
{
    let t = local_now();
    format_time(&t)
}

/// A log line: the time in grey, then the message in the color `color` (an ANSI color code).
pub open spec fn log_line_text(time: Seq<char>, color: Seq<char>, msg: Seq<char>) -> Seq<char> {
    "\x1b[90m"@ + time + " \x1b["@ + color + "m> "@ + msg + "\x1b[0m"@
}

/// Build a log line.
pub fn log_line(time: &str, color: &str, msg: &str) -> (res: String)
    ensures
        res@ == log_line_text(time@, color@, msg@),
{
    let mut s = String::from_str("\x1b[90m");
    s.append(time);
    s.append(" \x1b[");
    s.append(color);
    s.append("m> ");
    s.append(msg);
    s.append("\x1b[0m");
    s
}

impl StdoutLogger {
    /// Write the log line of `msg`, in the color `color`, stamped with the current time, to the
    /// standard output; the line written is returned.
    fn log(&mut self, color: &str, msg: &str) -> (res: String)
        ensures
            exists|t: LocalTime| valid_time(t) && res@ == log_line_text(time_text(t), color@, msg@),
    {
        let t = now();
        let line = log_line(t.as_str(), color, msg);
        print_line(line.as_str());
        line
    }
}

impl Logger for StdoutLogger {
    fn info(&mut self, msg: &str) {
        self.log("34", msg);
    }

    fn debug(&mut self, msg: &str) {
        self.log("34", msg);
    }

    fn warn(&mut self, msg: &str) {
        self.log("33", msg);
    }

    fn error(&mut self, msg: &str) {
        self.log("31", msg);
    }
}

} // verus!
