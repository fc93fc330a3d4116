//! Where the debug log is kept, and how its lines read.

use vstd::prelude::*;
use crate::paths::{join, spec_join};
use crate::text::{chars_of, decimal, extend_chars, push_decimal, string_of};

verus! {

broadcast use vstd::string::group_string_axioms;

/// The log file `debug.log` in the app data folder.
pub fn log_path(app_data_dir: &str) -> (r: String)
    ensures
        r@ == spec_join(app_data_dir@, "debug.log"@),
{
    join(app_data_dir, "debug.log")
}

/// Where a log grown past its limit is moved to.
pub fn previous_log_path(app_data_dir: &str) -> (r: String)
    ensures
        r@ == spec_join(app_data_dir@, "debug.prev.log"@),
{
    join(app_data_dir, "debug.prev.log")
}

/// A log of `len` bytes is moved aside before logging starts when it has
/// reached 2 MiB.
pub fn needs_rotation(len: u64) -> (r: bool)
    ensures
        r == (len >= 2 * 1024 * 1024),
{
    len >= 2 * 1024 * 1024
}

/// `s` padded on the left with `c` to at least `w` characters.
pub open spec fn pad_left(s: Seq<char>, w: nat, c: char) -> Seq<char> {
    if s.len() >= w {
        s
    } else {
        Seq::new((w - s.len()) as nat, |_i: int| c) + s
    }
}

/// `s` padded on the right with spaces to at least `w` characters
/// (`{:<w}`).
pub open spec fn pad_right(s: Seq<char>, w: nat) -> Seq<char> {
    if s.len() >= w {
        s
    } else {
        s + Seq::new((w - s.len()) as nat, |_i: int| ' ')
    }
}

/// `n` in decimal with leading zeros to `w` digits (`{:0w}`).
pub open spec fn zero_padded(n: nat, w: nat) -> Seq<char> {
    pad_left(decimal(n), w, '0')
}

/// A local time as `YYYY-MM-DD hh:mm:ss.mmm`.
pub open spec fn spec_timestamp(year: u16, month: u16, day: u16, hour: u16, minute: u16, second: u16, ms: u16) -> Seq<char> {
    zero_padded(year as nat, 4) + "-"@ + zero_padded(month as nat, 2) + "-"@ + zero_padded(day as nat, 2) + " "@
        + zero_padded(hour as nat, 2) + ":"@ + zero_padded(minute as nat, 2) + ":"@ + zero_padded(second as nat, 2)
        + "."@ + zero_padded(ms as nat, 3)
}

/// A log line: `<timestamp> [<level, padded to 5>] <module>:<line>: <message>`
/// and a newline.
pub open spec fn spec_log_line(ts: Seq<char>, level: Seq<char>, module: Seq<char>, line: nat, msg: Seq<char>) -> Seq<char> {
    ts + " ["@ + pad_right(level, 5) + "] "@ + module + ":"@ + decimal(line) + ": "@ + msg + "\n"@
}

/// Appends `n` copies of `c`.
fn push_repeated(v: &mut Vec<char>, c: char, n: usize)
    ensures
        final(v)@ == old(v)@ + Seq::new(n as nat, |_i: int| c),
{
    let ghost start = v@;
    let mut i: usize = 0;
    while i < n
        invariant
            i <= n,
            v@ == start + Seq::new(i as nat, |_i: int| c),
        decreases n - i,
    {
        v.push(c);
        i = i + 1;
        assert(v@ =~= start + Seq::new(i as nat, |_i: int| c));
    }
}

/// Appends `n` with leading zeros to `w` digits.
fn push_zero_padded(v: &mut Vec<char>, n: u64, w: usize)
    ensures
        final(v)@ == old(v)@ + zero_padded(n as nat, w as nat),
{
    let mut d: Vec<char> = Vec::new();
    push_decimal(&mut d, n);
    assert(d@ =~= decimal(n as nat));
    if d.len() < w {
        push_repeated(v, '0', w - d.len());
    }
    extend_chars(v, &d);
    assert(v@ =~= old(v)@ + zero_padded(n as nat, w as nat));
}

/// Formats a local time for the log (`{:04}-{:02}-{:02} {:02}:{:02}:{:02}.{:03}`).
pub fn timestamp(year: u16, month: u16, day: u16, hour: u16, minute: u16, second: u16, milliseconds: u16) -> (r: String)
    ensures
        r@ == spec_timestamp(year, month, day, hour, minute, second, milliseconds),
{
    let mut v: Vec<char> = Vec::new();
    push_zero_padded(&mut v, year as u64, 4);
    v.push('-');
    push_zero_padded(&mut v, month as u64, 2);
    v.push('-');
    push_zero_padded(&mut v, day as u64, 2);
    v.push(' ');
    push_zero_padded(&mut v, hour as u64, 2);
    v.push(':');
    push_zero_padded(&mut v, minute as u64, 2);
    v.push(':');
    push_zero_padded(&mut v, second as u64, 2);
    v.push('.');
    push_zero_padded(&mut v, milliseconds as u64, 3);
    proof {
        reveal_strlit("-");
        reveal_strlit(" ");
        reveal_strlit(":");
        reveal_strlit(".");
    }
    assert(v@ =~= spec_timestamp(year, month, day, hour, minute, second, milliseconds));
    string_of(&v)
}

/// A log line; a record without a module reads `?`, without a line `0`.
pub fn log_line(ts: &str, level: &str, module: Option<&str>, line: Option<u32>, msg: &str) -> (r: String)
    ensures
        r@ == spec_log_line(
            ts@,
            level@,
            match module {
                Some(m) => m@,
                None => "?"@,
            },
            match line {
                Some(l) => l as nat,
                None => 0,
            },
            msg@,
        ),
{
    let mut v = chars_of(ts);
    extend_chars(&mut v, &chars_of(" ["));
    let lv = chars_of(level);
    extend_chars(&mut v, &lv);
    if lv.len() < 5 {
        push_repeated(&mut v, ' ', 5 - lv.len());
    }
    extend_chars(&mut v, &chars_of("] "));
    match module {
        Some(m) => extend_chars(&mut v, &chars_of(m)),
        None => v.push('?'),
    }
    v.push(':');
    match line {
        Some(l) => push_decimal(&mut v, l as u64),
        None => push_decimal(&mut v, 0),
    }
    extend_chars(&mut v, &chars_of(": "));
    extend_chars(&mut v, &chars_of(msg));
    v.push('\n');
    proof {
        let mv = match module {
            Some(m) => m@,
            None => "?"@,
        };
        let ln: nat = match line {
            Some(l) => l as nat,
            None => 0,
        };
        reveal_strlit("?");
        reveal_strlit(":");
        reveal_strlit("\n");
        assert(v@ =~= spec_log_line(ts@, level@, mv, ln, msg@));
    }
    string_of(&v)
}

} // verus!
