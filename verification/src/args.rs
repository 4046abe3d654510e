//! Command-line parsing: turning an argument list into numbers, flags,
//! durations, timers, entries and finally whole operations.
//!
//! Every parser is a pure function of the argument list and is specified
//! exactly: a flag that repeats is last-one-wins, a flag whose value is
//! missing or unreadable leaves the field as it was (or, for a few flags,
//! resets it), and number parsing accepts an optional sign followed by
//! decimal digits.

use vstd::prelude::*;

use crate::entry::{Action, DoIfRunning, Entry, EntryIdentifier, Execute, Logger, Status, Timer, Trigger};
use crate::time::{calendar_in_range, informational_total_sec, ts_in_chrono_range, DateTime, Duration, TimeZone};

verus! {

/// A decimal digit.
pub open spec fn is_digit(c: char) -> bool {
    '0' <= c && c <= '9'
}

/// The numeric value of a digit character.
pub open spec fn digit_val(c: char) -> int {
    c as int - '0' as int
}

/// Every character of the sequence is a decimal digit.
pub open spec fn all_digits(s: Seq<char>) -> bool {
    forall|i: int| 0 <= i < s.len() ==> is_digit(#[trigger] s[i])
}

/// The number a digit sequence denotes, most significant digit first.
pub open spec fn digits_val(s: Seq<char>) -> int
    decreases s.len(),
{
    if s.len() == 0 {
        0
    } else {
        digits_val(s.drop_last()) * 10 + digit_val(s.last())
    }
}

/// A digit sequence denotes a non-negative number.
proof fn lemma_digits_val_nonneg(s: Seq<char>)
    requires
        all_digits(s),
    ensures
        digits_val(s) >= 0,
    decreases s.len(),
{
    if s.len() > 0 {
        assert(forall|i: int| 0 <= i < s.len() - 1 ==> s.drop_last()[i] == #[trigger] s[i]);
        lemma_digits_val_nonneg(s.drop_last());
    }
}

/// Extending a digit sequence never shrinks its value: the whole sequence
/// denotes at least what any prefix denotes.
proof fn lemma_digits_val_prefix(s: Seq<char>, j: int)
    requires
        all_digits(s),
        0 <= j <= s.len(),
    ensures
        digits_val(s) >= digits_val(s.subrange(0, j)),
    decreases s.len() - j,
{
    if j < s.len() {
        assert(s.subrange(0, j + 1).drop_last() =~= s.subrange(0, j));
        assert(s.subrange(0, j + 1).last() == s[j]);
        assert(all_digits(s.subrange(0, j))) by {
            assert(forall|i: int|
                0 <= i < j ==> s.subrange(0, j)[i] == #[trigger] s[i]);
        }
        lemma_digits_val_nonneg(s.subrange(0, j));
        lemma_digits_val_prefix(s, j + 1);
    } else {
        assert(s.subrange(0, j) =~= s);
    }
}

/// One or more decimal digits denoting a value up to the given limit.
pub open spec fn spec_digits_bounded(t: Seq<char>, limit: int) -> Option<int> {
    if t.len() > 0 && all_digits(t) && digits_val(t) <= limit {
        Some(digits_val(t))
    } else {
        None
    }
}

/// What parsing an unsigned number accepts: an optional leading plus sign,
/// then one or more decimal digits, denoting a value up to the given
/// limit.
pub open spec fn spec_parse_bounded(s: Seq<char>, limit: int) -> Option<int> {
    let t = if s.len() > 0 && s[0] == '+' {
        s.drop_first()
    } else {
        s
    };
    spec_digits_bounded(t, limit)
}

/// The `u32` a string denotes, if any.
pub open spec fn spec_parse_u32(s: Seq<char>) -> Option<u32> {
    match spec_parse_bounded(s, u32::MAX as int) {
        Some(v) => Some(v as u32),
        None => None,
    }
}

/// The `i32` a string denotes, if any: an optional sign, then digits.
pub open spec fn spec_parse_i32(s: Seq<char>) -> Option<i32> {
    if s.len() > 0 && s[0] == '-' {
        match spec_digits_bounded(s.drop_first(), 0x8000_0000) {
            Some(v) => Some((-v) as i32),
            None => None,
        }
    } else {
        match spec_parse_bounded(s, i32::MAX as int) {
            Some(v) => Some(v as i32),
            None => None,
        }
    }
}

/// Parses the digit run `s[start..]` as a number of at most `limit`.
fn parse_digits(s: &str, start: usize, limit: u32) -> (r: Option<u32>)
    requires
        start <= s@.len(),
    ensures
        ({
            let t = s@.subrange(start as int, s@.len() as int);
            match r {
                Some(v) => t.len() > 0 && all_digits(t) && digits_val(t) == v && v <= limit,
                None => !(t.len() > 0 && all_digits(t) && digits_val(t) <= limit),
            }
        }),
{
    let ghost t = s@.subrange(start as int, s@.len() as int);
    let n = s.unicode_len();
    if start >= n {
        return None;
    }
    let mut val: u32 = 0;
    let mut i: usize = start;
    while i < n
        invariant
            start <= i <= n,
            n == s@.len(),
            t == s@.subrange(start as int, s@.len() as int),
            all_digits(t.subrange(0, i - start)),
            val == digits_val(t.subrange(0, i - start)),
            val <= limit,
        decreases n - i,
    {
        let c = s.get_char(i);
        let code = c as u32;
        proof {
            assert(t.subrange(0, i - start + 1).drop_last() =~= t.subrange(0, i - start));
            assert(t.subrange(0, i - start + 1).last() == s@[i as int]);
        }
        if code < 48 || code > 57 {
            proof {
                assert(t[i - start] == s@[i as int]);
                assert(!is_digit(t[i - start]));
            }
            return None;
        }
        let d = code - 48;
        let next: u64 = val as u64 * 10 + d as u64;
        if next > limit as u64 {
            proof {
                assert(all_digits(t.subrange(0, i - start + 1)));
                if all_digits(t) && digits_val(t) <= limit {
                    lemma_digits_val_prefix(t, i - start + 1);
                }
            }
            return None;
        }
        val = (next as u32);
        i = i + 1;
    }
    proof {
        assert(t.subrange(0, i - start) =~= t);
    }
    Some(val)
}

/// The `u32` the string denotes, if any: an optional plus sign, then
/// decimal digits, within range.
pub fn parse_u32(s: &str) -> (r: Option<u32>)
    ensures
        r == spec_parse_u32(s@),
{
    let n = s.unicode_len();
    let start: usize = if n > 0 && s.get_char(0) == '+' {
        1
    } else {
        0
    };
    proof {
        if start == 1 {
            assert(s@.subrange(1, s@.len() as int) =~= s@.drop_first());
        } else {
            assert(s@.subrange(0, s@.len() as int) =~= s@);
        }
    }
    parse_digits(s, start, u32::MAX)
}

/// The `i32` the string denotes, if any: an optional sign, then decimal
/// digits, within range.
pub fn parse_i32(s: &str) -> (r: Option<i32>)
    ensures
        r == spec_parse_i32(s@),
{
    let n = s.unicode_len();
    if n > 0 && s.get_char(0) == '-' {
        proof {
            assert(s@.subrange(1, s@.len() as int) =~= s@.drop_first());
        }
        match parse_digits(s, 1, 0x8000_0000) {
            Some(v) => Some((-(v as i64)) as i32),
            None => None,
        }
    } else {
        let start: usize = if n > 0 && s.get_char(0) == '+' {
            1
        } else {
            0
        };
        proof {
            if start == 1 {
                assert(s@.subrange(1, s@.len() as int) =~= s@.drop_first());
            } else {
                assert(s@.subrange(0, s@.len() as int) =~= s@);
            }
        }
        match parse_digits(s, start, 0x7fff_ffff) {
            Some(v) => Some(v as i32),
            None => None,
        }
    }
}

/// Whether an argument equals a flag.
fn arg_eq(a: &String, flag: &str) -> (r: bool)
    ensures
        r == (a@ == flag@),
{
    let owned: String = flag.to_owned();
    *a == owned
}

/// The argument at position `i` read as a `u32`, if present and readable.
pub open spec fn spec_garg_u32(args: Seq<String>, i: int) -> Option<u32> {
    if 0 <= i < args.len() {
        spec_parse_u32(args[i]@)
    } else {
        None
    }
}

/// The argument at position `i` read as an `i32`, if present and readable.
pub open spec fn spec_garg_i32(args: Seq<String>, i: int) -> Option<i32> {
    if 0 <= i < args.len() {
        spec_parse_i32(args[i]@)
    } else {
        None
    }
}

/// The argument at position `i`, if present.
pub open spec fn spec_garg_string(args: Seq<String>, i: int) -> Option<String> {
    if 0 <= i < args.len() {
        Some(args[i])
    } else {
        None
    }
}

/// Reads the argument at position `i` as a `u32`.
pub fn garg_u32(args: &Vec<String>, i: usize) -> (r: Option<u32>)
    ensures
        r == spec_garg_u32(args@, i as int),
{
    if i < args.len() {
        parse_u32(args[i].as_str())
    } else {
        None
    }
}

/// Reads the argument at position `i` as an `i32`.
pub fn garg_i32(args: &Vec<String>, i: usize) -> (r: Option<i32>)
    ensures
        r == spec_garg_i32(args@, i as int),
{
    if i < args.len() {
        parse_i32(args[i].as_str())
    } else {
        None
    }
}

/// Reads the argument at position `i` as a string.
pub fn garg_string(args: &Vec<String>, i: usize) -> (r: Option<String>)
    ensures
        r == spec_garg_string(args@, i as int),
{
    if i < args.len() {
        Some(args[i].clone())
    } else {
        None
    }
}

/// Whether the flag occurs anywhere in the argument list.
pub open spec fn has_flag(args: Seq<String>, flag: Seq<char>) -> bool {
    exists|i: int| 0 <= i < args.len() && #[trigger] args[i]@ == flag
}

/// Whether the help flag occurs in the argument list.
pub fn check_if_help_in_args(args: &Vec<String>) -> (r: bool)
    ensures
        r == has_flag(args@, "--help"@),
{
    find_flag(args, "--help")
}

/// Scans the argument list for one flag.
fn find_flag(args: &Vec<String>, flag: &str) -> (r: bool)
    ensures
        r == has_flag(args@, flag@),
{
    let mut i: usize = 0;
    while i < args.len()
        invariant
            i <= args@.len(),
            forall|j: int| 0 <= j < i as int ==> #[trigger] args@[j]@ != flag@,
        decreases args@.len() - i,
    {
        if arg_eq(&args[i], flag) {
            return true;
        }
        i = i + 1;
    }
    false
}

impl crate::entry::Status {
    /// `Paused` when the paused flag occurs anywhere, `Pending` otherwise.
    pub fn from_args(args: &Vec<String>) -> (r: Self)
        ensures
            r == (if has_flag(args@, "--paused"@) {
                crate::entry::Status::Paused
            } else {
                crate::entry::Status::Pending
            }),
    {
        if find_flag(args, "--paused") {
            crate::entry::Status::Paused
        } else {
            crate::entry::Status::Pending
        }
    }
}

/// The conflict policy the arguments choose, scanning left to right with
/// the last policy flag winning; `StartNew` when none occurs.
pub open spec fn spec_do_if_running(args: Seq<String>, n: int) -> DoIfRunning
    decreases n,
{
    if n <= 0 {
        DoIfRunning::StartNew
    } else {
        let prev = spec_do_if_running(args, n - 1);
        let a = args[n - 1]@;
        if a == "--rest-ir"@ {
            DoIfRunning::Restart
        } else if a == "--stop-ir"@ {
            DoIfRunning::Stop
        } else if a == "--cont-ir"@ {
            DoIfRunning::Continue
        } else if a == "--stne-ir"@ {
            DoIfRunning::StartNew
        } else {
            prev
        }
    }
}

impl DoIfRunning {
    /// The conflict policy the arguments choose (last flag wins).
    pub fn from_args(args: &Vec<String>) -> (r: Self)
        ensures
            r == spec_do_if_running(args@, args@.len() as int),
    {
        let mut do_if_running = DoIfRunning::StartNew;
        let mut i: usize = 0;
        while i < args.len()
            invariant
                i <= args@.len(),
                do_if_running == spec_do_if_running(args@, i as int),
            decreases args@.len() - i,
        {
            if arg_eq(&args[i], "--rest-ir") {
                do_if_running = DoIfRunning::Restart;
            } else if arg_eq(&args[i], "--stop-ir") {
                do_if_running = DoIfRunning::Stop;
            } else if arg_eq(&args[i], "--cont-ir") {
                do_if_running = DoIfRunning::Continue;
            } else if arg_eq(&args[i], "--stne-ir") {
                do_if_running = DoIfRunning::StartNew;
            }
            i = i + 1;
        }
        do_if_running
    }
}

/// The logger the arguments choose, scanning left to right with the last
/// logging flag winning: a log-file flag takes the following argument as
/// the file (switching logging off when it is missing), and the log-off
/// flag switches logging off.
pub open spec fn spec_logger(args: Seq<String>, n: int) -> Logger
    decreases n,
{
    if n <= 0 {
        Logger::Default
    } else {
        let prev = spec_logger(args, n - 1);
        let a = args[n - 1]@;
        if a == "--log-file"@ {
            match spec_garg_string(args, n) {
                Some(path) => Logger::File(path),
                None => Logger::Off,
            }
        } else if a == "--log-off"@ {
            Logger::Off
        } else {
            prev
        }
    }
}

impl Logger {
    /// The logger the arguments choose (last flag wins).
    pub fn from_args(args: &Vec<String>) -> (r: Self)
        ensures
            r == spec_logger(args@, args@.len() as int),
    {
        let mut logger = Logger::Default;
        let mut i: usize = 0;
        while i < args.len()
            invariant
                i <= args@.len(),
                logger == spec_logger(args@, i as int),
            decreases args@.len() - i,
        {
            if arg_eq(&args[i], "--log-file") {
                logger = match garg_string(args, i + 1) {
                    Some(path) => Logger::File(path),
                    None => Logger::Off,
                };
            } else if arg_eq(&args[i], "--log-off") {
                logger = Logger::Off;
            }
            i = i + 1;
        }
        logger
    }
}

/// The value of the last occurrence of `flag` whose following argument
/// reads as a `u32`; `dflt` when no occurrence has a readable value.
pub open spec fn scan_u32_flag(args: Seq<String>, n: int, flag: Seq<char>, dflt: u32) -> u32
    decreases n,
{
    if n <= 0 {
        dflt
    } else {
        let prev = scan_u32_flag(args, n - 1, flag, dflt);
        if args[n - 1]@ == flag {
            match spec_garg_u32(args, n) {
                Some(v) => v,
                None => prev,
            }
        } else {
            prev
        }
    }
}

/// The value of the last occurrence of `flag` whose following argument
/// reads as an `i32`; `dflt` when no occurrence has a readable value.
pub open spec fn scan_i32_flag(args: Seq<String>, n: int, flag: Seq<char>, dflt: i32) -> i32
    decreases n,
{
    if n <= 0 {
        dflt
    } else {
        let prev = scan_i32_flag(args, n - 1, flag, dflt);
        if args[n - 1]@ == flag {
            match spec_garg_i32(args, n) {
                Some(v) => v,
                None => prev,
            }
        } else {
            prev
        }
    }
}

/// The time-field flags, as concrete literals: their lengths, and one
/// distinguishing character for each pair the lengths leave apart.
proof fn lemma_time_flag_literals()
    ensures
        "--sec"@.len() == 5,
        "--min"@.len() == 5,
        "--hour"@.len() == 6,
        "--day"@.len() == 5,
        "--month"@.len() == 7,
        "--year"@.len() == 6,
        "--sec"@[2] == 's',
        "--min"@[2] == 'm',
        "--day"@[2] == 'd',
        "--hour"@[2] == 'h',
        "--year"@[2] == 'y',
{
    reveal_strlit("--sec");
    reveal_strlit("--min");
    reveal_strlit("--hour");
    reveal_strlit("--day");
    reveal_strlit("--month");
    reveal_strlit("--year");
}

/// A flag that sets one field of a duration or of a point in time.
pub open spec fn is_time_field_flag(a: Seq<char>) -> bool {
    ||| a == "--sec"@
    ||| a == "--min"@
    ||| a == "--hour"@
    ||| a == "--day"@
    ||| a == "--month"@
    ||| a == "--year"@
}

/// Whether any time-field flag occurs among the first `n` arguments.
pub open spec fn any_time_field_flag(args: Seq<String>, n: int) -> bool
    decreases n,
{
    if n <= 0 {
        false
    } else {
        any_time_field_flag(args, n - 1) || is_time_field_flag(args[n - 1]@)
    }
}

/// The duration the arguments denote: each field comes from its flag
/// (last readable occurrence wins, zero otherwise), the informational
/// seconds total is derived from the fields, and the whole reading exists
/// only when at least one time-field flag occurs.
pub open spec fn spec_duration_from_args(args: Seq<String>) -> Option<Duration> {
    let n = args.len() as int;
    if any_time_field_flag(args, n) {
        let d = Duration {
            sec: scan_u32_flag(args, n, "--sec"@, 0),
            min: scan_u32_flag(args, n, "--min"@, 0),
            hour: scan_u32_flag(args, n, "--hour"@, 0),
            day: scan_u32_flag(args, n, "--day"@, 0),
            month: scan_u32_flag(args, n, "--month"@, 0),
            year: scan_i32_flag(args, n, "--year"@, 0),
            total_sec: 0,
        };
        Some(Duration { total_sec: informational_total_sec(d), ..d })
    } else {
        None
    }
}

/// The point in time the arguments denote: calendar fields from their
/// flags (last readable occurrence wins, zero otherwise), no timestamp
/// derived, local time zone; only when at least one time-field flag
/// occurs.
pub open spec fn spec_datetime_from_args(args: Seq<String>) -> Option<DateTime> {
    let n = args.len() as int;
    if any_time_field_flag(args, n) {
        Some(DateTime {
            sec: scan_u32_flag(args, n, "--sec"@, 0),
            min: scan_u32_flag(args, n, "--min"@, 0),
            hour: scan_u32_flag(args, n, "--hour"@, 0),
            day: scan_u32_flag(args, n, "--day"@, 0),
            month: scan_u32_flag(args, n, "--month"@, 0),
            year: scan_i32_flag(args, n, "--year"@, 0),
            timestamp: 0,
            time_zone: TimeZone::Local,
        })
    } else {
        None
    }
}

impl Duration {
    /// The duration the arguments denote, if any time-field flag occurs.
    pub fn from_args(args: &Vec<String>) -> (r: Option<Duration>)
        ensures
            r == spec_duration_from_args(args@),
    {
        let mut hasarg = false;
        let mut sec: u32 = 0;
        let mut min: u32 = 0;
        let mut hour: u32 = 0;
        let mut day: u32 = 0;
        let mut month: u32 = 0;
        let mut year: i32 = 0;
        let mut i: usize = 0;
        while i < args.len()
            invariant
                i <= args@.len(),
                hasarg == any_time_field_flag(args@, i as int),
                sec == scan_u32_flag(args@, i as int, "--sec"@, 0),
                min == scan_u32_flag(args@, i as int, "--min"@, 0),
                hour == scan_u32_flag(args@, i as int, "--hour"@, 0),
                day == scan_u32_flag(args@, i as int, "--day"@, 0),
                month == scan_u32_flag(args@, i as int, "--month"@, 0),
                year == scan_i32_flag(args@, i as int, "--year"@, 0),
            decreases args@.len() - i,
        {
            proof {
                lemma_time_flag_literals();
            }
            if arg_eq(&args[i], "--sec") {
                hasarg = true;
                if let Some(v) = garg_u32(args, i + 1) {
                    sec = v;
                }
            } else if arg_eq(&args[i], "--min") {
                hasarg = true;
                if let Some(v) = garg_u32(args, i + 1) {
                    min = v;
                }
            } else if arg_eq(&args[i], "--hour") {
                hasarg = true;
                if let Some(v) = garg_u32(args, i + 1) {
                    hour = v;
                }
            } else if arg_eq(&args[i], "--day") {
                hasarg = true;
                if let Some(v) = garg_u32(args, i + 1) {
                    day = v;
                }
            } else if arg_eq(&args[i], "--month") {
                hasarg = true;
                if let Some(v) = garg_u32(args, i + 1) {
                    month = v;
                }
            } else if arg_eq(&args[i], "--year") {
                hasarg = true;
                if let Some(v) = garg_i32(args, i + 1) {
                    year = v;
                }
            }
            i = i + 1;
        }
        if !hasarg {
            return None;
        }
        let t: i64 = sec as i64 + min as i64 * 60 + hour as i64 * 3600 + day as i64 * 86400
            + month as i64 * 2_592_000 + year as i64 * 31_104_000;
        let total_sec: u64 = if t < 0 {
            0
        } else {
            t as u64
        };
        Some(Duration { sec, min, hour, day, month, year, total_sec })
    }
}

impl DateTime {
    /// The point in time the arguments denote, if any time-field flag
    /// occurs. The timestamp is left underived here; the timer reader
    /// resolves the fields through the calendar before storing them, so
    /// the due-time comparison sees the instant they name.
    pub fn from_args(args: &Vec<String>) -> (r: Option<DateTime>)
        ensures
            r == spec_datetime_from_args(args@),
    {
        let mut hasarg = false;
        let mut sec: u32 = 0;
        let mut min: u32 = 0;
        let mut hour: u32 = 0;
        let mut day: u32 = 0;
        let mut month: u32 = 0;
        let mut year: i32 = 0;
        let mut i: usize = 0;
        while i < args.len()
            invariant
                i <= args@.len(),
                hasarg == any_time_field_flag(args@, i as int),
                sec == scan_u32_flag(args@, i as int, "--sec"@, 0),
                min == scan_u32_flag(args@, i as int, "--min"@, 0),
                hour == scan_u32_flag(args@, i as int, "--hour"@, 0),
                day == scan_u32_flag(args@, i as int, "--day"@, 0),
                month == scan_u32_flag(args@, i as int, "--month"@, 0),
                year == scan_i32_flag(args@, i as int, "--year"@, 0),
            decreases args@.len() - i,
        {
            proof {
                lemma_time_flag_literals();
            }
            if arg_eq(&args[i], "--sec") {
                hasarg = true;
                if let Some(v) = garg_u32(args, i + 1) {
                    sec = v;
                }
            } else if arg_eq(&args[i], "--min") {
                hasarg = true;
                if let Some(v) = garg_u32(args, i + 1) {
                    min = v;
                }
            } else if arg_eq(&args[i], "--hour") {
                hasarg = true;
                if let Some(v) = garg_u32(args, i + 1) {
                    hour = v;
                }
            } else if arg_eq(&args[i], "--day") {
                hasarg = true;
                if let Some(v) = garg_u32(args, i + 1) {
                    day = v;
                }
            } else if arg_eq(&args[i], "--month") {
                hasarg = true;
                if let Some(v) = garg_u32(args, i + 1) {
                    month = v;
                }
            } else if arg_eq(&args[i], "--year") {
                hasarg = true;
                if let Some(v) = garg_i32(args, i + 1) {
                    year = v;
                }
            }
            i = i + 1;
        }
        if !hasarg {
            return None;
        }
        Some(DateTime { sec, min, hour, day, month, year, timestamp: 0, time_zone: TimeZone::Local })
    }
}

/// The views of a list of strings.
pub open spec fn views_of(v: Seq<String>) -> Seq<Seq<char>> {
    v.map_values(|x: String| x@)
}

/// The views of a list of string pairs.
pub open spec fn pair_views_of(v: Seq<(String, String)>) -> Seq<(Seq<char>, Seq<char>)> {
    v.map_values(|p: (String, String)| (p.0@, p.1@))
}

/// The pieces of `s` between occurrences of `sep`, reading from position
/// `i` with the current piece beginning at `start`. Empty pieces are kept,
/// as `split` keeps them.
pub open spec fn split_from(s: Seq<char>, sep: char, i: int, start: int) -> Seq<Seq<char>>
    decreases s.len() - i,
{
    if i >= s.len() {
        seq![s.subrange(start, s.len() as int)]
    } else if s[i] == sep {
        seq![s.subrange(start, i)] + split_from(s, sep, i + 1, i + 1)
    } else {
        split_from(s, sep, i + 1, start)
    }
}

/// The pieces of `s` between occurrences of `sep`, empty pieces included.
pub open spec fn spec_split_char(s: Seq<char>, sep: char) -> Seq<Seq<char>> {
    split_from(s, sep, 0, 0)
}

/// Splits `s` at every occurrence of `sep`, keeping empty pieces.
pub fn split_by_char(s: &str, sep: char) -> (r: Vec<String>)
    ensures
        views_of(r@) == spec_split_char(s@, sep),
{
    let n = s.unicode_len();
    let mut out: Vec<String> = Vec::new();
    let mut start: usize = 0;
    let mut i: usize = 0;
    while i < n
        invariant
            start <= i <= n,
            n == s@.len(),
            views_of(out@) + split_from(s@, sep, i as int, start as int) == spec_split_char(
                s@,
                sep,
            ),
        decreases n - i,
    {
        if s.get_char(i) == sep {
            let ghost before = out@;
            let tok = s.substring_char(start, i).to_owned();
            out.push(tok);
            proof {
                assert(views_of(out@) =~= views_of(before).push(s@.subrange(
                    start as int,
                    i as int,
                )));
                assert(views_of(out@) + split_from(s@, sep, i as int + 1, i as int + 1)
                    =~= views_of(before) + split_from(s@, sep, i as int, start as int));
            }
            start = i + 1;
        }
        i = i + 1;
    }
    let ghost before = out@;
    let tok = s.substring_char(start, n).to_owned();
    out.push(tok);
    proof {
        assert(views_of(out@) =~= views_of(before).push(s@.subrange(start as int, n as int)));
        assert(views_of(out@) =~= views_of(before) + split_from(s@, sep, n as int, start as int));
    }
    out
}

/// The position of the first occurrence of `c` in `s` at or after `i`, or
/// minus one when there is none.
pub open spec fn find_from(s: Seq<char>, i: int, c: char) -> int
    decreases s.len() - i,
{
    if i >= s.len() {
        -1
    } else if s[i] == c {
        i
    } else {
        find_from(s, i + 1, c)
    }
}

/// The position of the first occurrence of `c` in `t`, if any.
fn find_char(t: &str, c: char) -> (r: Option<usize>)
    ensures
        match r {
            Some(j) => j == find_from(t@, 0, c) && 0 <= j < t@.len() && t@[j as int] == c,
            None => find_from(t@, 0, c) == -1,
        },
{
    let n = t.unicode_len();
    let mut i: usize = 0;
    while i < n
        invariant
            i <= n,
            n == t@.len(),
            find_from(t@, 0, c) == find_from(t@, i as int, c),
        decreases n - i,
    {
        if t.get_char(i) == c {
            return Some(i);
        }
        i = i + 1;
    }
    None
}

/// The key-value reading of one token: the part before the first equals
/// sign and the part after it; nothing when the token has no equals sign.
pub open spec fn spec_eq_pair(t: Seq<char>) -> Option<(Seq<char>, Seq<char>)> {
    let j = find_from(t, 0, '=');
    if j < 0 {
        None
    } else {
        Some((t.subrange(0, j), t.subrange(j + 1, t.len() as int)))
    }
}

/// The key-value pairs among a token list: each token with an equals sign
/// contributes one pair, in order; the rest (empty tokens included) are
/// dropped.
pub open spec fn pairs_of_tokens(toks: Seq<Seq<char>>) -> Seq<(Seq<char>, Seq<char>)>
    decreases toks.len(),
{
    if toks.len() == 0 {
        Seq::<(Seq<char>, Seq<char>)>::empty()
    } else {
        let rest = pairs_of_tokens(toks.drop_last());
        match spec_eq_pair(toks.last()) {
            Some(p) => rest.push(p),
            None => rest,
        }
    }
}

/// The environment pairs a flag value denotes: space-separated tokens,
/// each `key=value` token split at its first equals sign.
pub open spec fn spec_env_pairs(s: Seq<char>) -> Seq<(Seq<char>, Seq<char>)> {
    pairs_of_tokens(spec_split_char(s, ' '))
}

/// Reads space-separated `key=value` pairs; tokens without an equals sign
/// are dropped.
pub fn parse_env_pairs(s: &str) -> (r: Vec<(String, String)>)
    ensures
        pair_views_of(r@) == spec_env_pairs(s@),
{
    let toks = split_by_char(s, ' ');
    let mut out: Vec<(String, String)> = Vec::new();
    let mut i: usize = 0;
    proof {
        assert(views_of(toks@).subrange(0, 0) =~= Seq::<Seq<char>>::empty());
    }
    while i < toks.len()
        invariant
            i <= toks@.len(),
            views_of(toks@) == spec_split_char(s@, ' '),
            pair_views_of(out@) == pairs_of_tokens(views_of(toks@).subrange(0, i as int)),
        decreases toks@.len() - i,
    {
        proof {
            assert(views_of(toks@).subrange(0, i as int + 1).drop_last() =~= views_of(
                toks@,
            ).subrange(0, i as int));
            assert(views_of(toks@).subrange(0, i as int + 1).last() == toks@[i as int]@);
        }
        let t = toks[i].as_str();
        match find_char(t, '=') {
            Some(j) => {
                let ghost before = out@;
                let tn = t.unicode_len();
                let key = t.substring_char(0, j).to_owned();
                let value = t.substring_char(j + 1, tn).to_owned();
                out.push((key, value));
                proof {
                    assert(pair_views_of(out@) =~= pair_views_of(before).push(
                        (t@.subrange(0, j as int), t@.subrange(j as int + 1, t@.len() as int)),
                    ));
                }
            },
            None => {},
        }
        i = i + 1;
    }
    proof {
        assert(views_of(toks@).subrange(0, i as int) =~= views_of(toks@));
    }
    out
}

/// What one left-to-right scan of the arguments collects for an
/// executable specification: the raw value of the last readable
/// occurrence of each flag. The executable and environment flags keep an
/// earlier value when their own value is missing; the directory and
/// argument-list flags reset theirs.
pub ghost struct ExecScan {
    pub executable: Option<String>,
    pub env_raw: Option<String>,
    pub dir: Option<String>,
    pub args_raw: Option<String>,
}

/// The scan of the first `n` arguments.
pub open spec fn spec_exec_scan(args: Seq<String>, n: int) -> ExecScan
    decreases n,
{
    if n <= 0 {
        ExecScan { executable: None, env_raw: None, dir: None, args_raw: None }
    } else {
        let prev = spec_exec_scan(args, n - 1);
        let a = args[n - 1]@;
        if a == "--exec"@ {
            match spec_garg_string(args, n) {
                Some(v) => ExecScan { executable: Some(v), ..prev },
                None => prev,
            }
        } else if a == "--env"@ {
            match spec_garg_string(args, n) {
                Some(v) => ExecScan { env_raw: Some(v), ..prev },
                None => prev,
            }
        } else if a == "--args"@ {
            ExecScan { args_raw: spec_garg_string(args, n), ..prev }
        } else if a == "--dir"@ {
            ExecScan { dir: spec_garg_string(args, n), ..prev }
        } else {
            prev
        }
    }
}

/// How an `Execute` follows from the argument scan: it exists exactly
/// when an executable was named; the directory is the raw directory
/// value, the run-as user is left unresolved (a user-name lookup is the
/// surrounding binary's job, via `username_from_args`), the argument list
/// is the last raw value split at spaces, and the environment is the last
/// raw value read as `key=value` pairs.
pub open spec fn execute_rel(args: Seq<String>, e: crate::entry::ExecuteV) -> bool {
    let sc = spec_exec_scan(args, args.len() as int);
    &&& match sc.executable {
        Some(x) => e.executable == x,
        None => false,
    }
    &&& e.working_dir == sc.dir
    &&& e.user is None
    &&& match sc.args_raw {
        Some(v) => match e.args {
            Some(a) => views_of(a) == spec_split_char(v@, ' '),
            None => false,
        },
        None => e.args is None,
    }
    &&& match sc.env_raw {
        Some(v) => match e.env {
            Some(p) => pair_views_of(p) == spec_env_pairs(v@),
            None => false,
        },
        None => e.env is None,
    }
}

impl Execute {
    /// The executable specification the arguments denote, if they name an
    /// executable at all. The run-as user is left unset here: resolving a
    /// user name against the system is the surrounding binary's job.
    pub fn from_args(args: &Vec<String>) -> (r: Option<Execute>)
        ensures
            match r {
                Some(e) => execute_rel(args@, e@),
                None => spec_exec_scan(args@, args@.len() as int).executable is None,
            },
    {
        let mut executable: Option<String> = None;
        let mut env_raw: Option<String> = None;
        let mut dir: Option<String> = None;
        let mut args_raw: Option<String> = None;
        let mut i: usize = 0;
        while i < args.len()
            invariant
                i <= args@.len(),
                spec_exec_scan(args@, i as int) == (ExecScan {
                    executable: executable,
                    env_raw: env_raw,
                    dir: dir,
                    args_raw: args_raw,
                }),
            decreases args@.len() - i,
        {
            if arg_eq(&args[i], "--exec") {
                if let Some(v) = garg_string(args, i + 1) {
                    executable = Some(v);
                }
            } else if arg_eq(&args[i], "--env") {
                if let Some(v) = garg_string(args, i + 1) {
                    env_raw = Some(v);
                }
            } else if arg_eq(&args[i], "--args") {
                args_raw = garg_string(args, i + 1);
            } else if arg_eq(&args[i], "--dir") {
                dir = garg_string(args, i + 1);
            }
            i = i + 1;
        }
        let executable = match executable {
            Some(x) => x,
            None => {
                return None;
            },
        };
        let env = match env_raw {
            Some(v) => Some(parse_env_pairs(v.as_str())),
            None => None,
        };
        let exec_args = match args_raw {
            Some(v) => Some(split_by_char(v.as_str(), ' ')),
            None => None,
        };
        Some(Execute { env, working_dir: dir, executable, user: None, args: exec_args })
    }
}

/// The username the arguments choose for the run-as identity: the
/// argument after the last username flag, if both exist.
pub open spec fn spec_username(args: Seq<String>, n: int) -> Option<String>
    decreases n,
{
    if n <= 0 {
        None
    } else {
        let prev = spec_username(args, n - 1);
        if args[n - 1]@ == "--username"@ {
            spec_garg_string(args, n)
        } else {
            prev
        }
    }
}

/// The username the arguments choose for the run-as identity. The lookup
/// that turns it into a `SystemUser` snapshot is the surrounding binary's
/// job.
pub fn username_from_args(args: &Vec<String>) -> (r: Option<String>)
    ensures
        r == spec_username(args@, args@.len() as int),
{
    let mut username: Option<String> = None;
    let mut i: usize = 0;
    while i < args.len()
        invariant
            i <= args@.len(),
            username == spec_username(args@, i as int),
        decreases args@.len() - i,
    {
        if arg_eq(&args[i], "--username") {
            username = garg_string(args, i + 1);
        }
        i = i + 1;
    }
    username
}

impl Action {
    /// The action the arguments denote: the executable specification they
    /// name, or no action when they name none.
    pub fn from_args(args: &Vec<String>) -> (r: Self)
        ensures
            match r {
                Action::Exec(e) => execute_rel(args@, e@),
                Action::Nothing => spec_exec_scan(args@, args@.len() as int).executable is None,
            },
    {
        match Execute::from_args(args) {
            Some(e) => Action::Exec(e),
            None => Action::Nothing,
        }
    }
}

/// Failure of an argument-list reading.
#[derive(Clone, Copy, Debug, PartialEq, Eq, Structural)]
pub enum ArgError {
    /// A flag that needs a value stood last, with no value after it.
    InvalidArgument,
}

/// Which timer flag stands last among the first `n` arguments.
pub ghost enum TimerChoice {
    Unset,
    RepeatFlag,
    OnceFlag,
    NeverFlag,
}

/// The last timer flag among the first `n` arguments.
pub open spec fn spec_timer_choice(args: Seq<String>, n: int) -> TimerChoice
    decreases n,
{
    if n <= 0 {
        TimerChoice::Unset
    } else {
        let prev = spec_timer_choice(args, n - 1);
        let a = args[n - 1]@;
        if a == "--repeat"@ {
            TimerChoice::RepeatFlag
        } else if a == "--once"@ {
            TimerChoice::OnceFlag
        } else if a == "--never"@ {
            TimerChoice::NeverFlag
        } else {
            prev
        }
    }
}

/// Whether a repeat or once flag occurs among the first `n` arguments:
/// only those two mark the arguments as carrying a timer at all; a bare
/// never flag, with nothing to repeat, does not.
pub open spec fn spec_timer_hasarg(args: Seq<String>, n: int) -> bool
    decreases n,
{
    if n <= 0 {
        false
    } else {
        spec_timer_hasarg(args, n - 1) || args[n - 1]@ == "--repeat"@ || args[n - 1]@ == "--once"@
    }
}

/// The duration a repeat flag carries: the one the arguments denote, or
/// one day when they denote none.
pub open spec fn spec_repeat_duration(args: Seq<String>) -> Duration {
    match spec_duration_from_args(args) {
        Some(d) => d,
        None => Duration {
            year: 0,
            month: 0,
            day: 1,
            hour: 0,
            min: 0,
            sec: 0,
            total_sec: 86400,
        },
    }
}

/// The shape of the "tomorrow" fallback time: a calendar-valid local time
/// within the representable range.
pub open spec fn tomorrow_shape(res: DateTime) -> bool {
    &&& calendar_in_range(res)
    &&& ts_in_chrono_range(res.timestamp)
    &&& res.time_zone is Local
}

/// A parsed one-shot time after calendar resolution: its calendar fields
/// with a freshly derived timestamp cache — so the due-time comparison
/// sees the instant the fields name — or the tomorrow fallback when the
/// fields name no local time.
pub open spec fn once_resolution(dt: DateTime, res: DateTime) -> bool {
    ||| {
        &&& res.year == dt.year
        &&& res.month == dt.month
        &&& res.day == dt.day
        &&& res.hour == dt.hour
        &&& res.min == dt.min
        &&& res.sec == dt.sec
        &&& res.time_zone is Local
        &&& ts_in_chrono_range(res.timestamp)
    }
    ||| tomorrow_shape(res)
}

/// How a timer reading follows from the arguments. Everything is an exact
/// function of the arguments except the two clock- and zone-dependent
/// spots: the once payload's calendar resolution and the tomorrow
/// fallback, pinned in shape.
pub open spec fn timer_from_args_rel(args: Seq<String>, r: Option<Timer>) -> bool {
    let n = args.len() as int;
    if !spec_timer_hasarg(args, n) {
        r is None
    } else {
        match spec_timer_choice(args, n) {
            TimerChoice::RepeatFlag => r == Some(Timer::Repeat(spec_repeat_duration(args))),
            TimerChoice::OnceFlag => match spec_datetime_from_args(args) {
                Some(dt) => r matches Some(Timer::Once(res)) && once_resolution(dt, res),
                None => r matches Some(Timer::Once(res)) && tomorrow_shape(res),
            },
            TimerChoice::NeverFlag => r == Some(Timer::Never),
            TimerChoice::Unset => false,
        }
    }
}

impl Timer {
    /// The timer the arguments denote, if a repeat or once flag occurs
    /// (last timer flag wins).
    pub fn from_args(args: &Vec<String>) -> (r: Option<Timer>)
        ensures
            timer_from_args_rel(args@, r),
    {
        let mut timer = Timer::Never;
        let mut hasarg = false;
        let mut i: usize = 0;
        while i < args.len()
            invariant
                i <= args@.len(),
                hasarg == spec_timer_hasarg(args@, i as int),
                match spec_timer_choice(args@, i as int) {
                    TimerChoice::Unset => timer is Never,
                    TimerChoice::RepeatFlag => timer == Timer::Repeat(spec_repeat_duration(args@)),
                    TimerChoice::OnceFlag => match spec_datetime_from_args(args@) {
                        Some(dt) => timer matches Timer::Once(res) && once_resolution(dt, res),
                        None => timer matches Timer::Once(res) && tomorrow_shape(res),
                    },
                    TimerChoice::NeverFlag => timer is Never,
                },
                spec_timer_hasarg(args@, i as int) ==> !(spec_timer_choice(args@, i as int)
                    is Unset),
            decreases args@.len() - i,
        {
            if arg_eq(&args[i], "--repeat") {
                hasarg = true;
                timer = Timer::Repeat(
                    match Duration::from_args(args) {
                        Some(d) => d,
                        None => Duration::one_day(),
                    },
                );
            } else if arg_eq(&args[i], "--once") {
                hasarg = true;
                timer = Timer::Once(
                    match DateTime::from_args(args) {
                        Some(dt) => match DateTime::from_ymd_hms(
                            dt.year,
                            dt.month,
                            dt.day,
                            dt.hour,
                            dt.min,
                            dt.sec,
                        ) {
                            Some(resolved) => resolved,
                            None => DateTime::one_day(),
                        },
                        None => DateTime::one_day(),
                    },
                );
            } else if arg_eq(&args[i], "--never") {
                timer = Timer::Never;
            }
            i = i + 1;
        }
        if hasarg {
            Some(timer)
        } else {
            None
        }
    }
}

impl Trigger {
    /// The trigger the arguments denote: their timer, or no trigger when
    /// they carry none.
    pub fn from_args(args: &Vec<String>) -> (r: Self)
        ensures
            r is Nothing <==> !spec_timer_hasarg(args@, args@.len() as int),
            r matches Trigger::Timer(t) ==> timer_from_args_rel(args@, Some(t)),
    {
        match Timer::from_args(args) {
            Some(timer) => Trigger::Timer(timer),
            None => Trigger::Nothing,
        }
    }
}

/// The name the arguments choose for a new entry: the argument after the
/// last name flag, when every name flag has one.
pub open spec fn spec_name_scan(args: Seq<String>, n: int) -> Option<String>
    decreases n,
{
    if n <= 0 {
        None
    } else {
        let prev = spec_name_scan(args, n - 1);
        if args[n - 1]@ == "--name"@ {
            spec_garg_string(args, n)
        } else {
            prev
        }
    }
}

/// An argument list whose last argument is a name flag: the one shape on
/// which building an entry fails, since the flag's value is missing.
pub open spec fn trailing_name_flag(args: Seq<String>) -> bool {
    args.len() > 0 && args[args.len() - 1]@ == "--name"@
}

/// How a built entry follows from the arguments and the chosen default
/// name: every field its own sub-reading.
pub open spec fn built_entry_rel(args: Seq<String>, default_name: String, e: Entry) -> bool {
    let n = args.len() as int;
    &&& e.id == 0
    &&& e.name == (match spec_name_scan(args, n) {
        Some(v) => v,
        None => default_name,
    })
    &&& e.enabled == !has_flag(args, "--disable"@)
    &&& e.logger == spec_logger(args, n)
    &&& e.do_if_running == spec_do_if_running(args, n)
    &&& e.status == (if has_flag(args, "--paused"@) {
        Status::Paused
    } else {
        Status::Pending
    })
    &&& (e.trigger is Nothing <==> !spec_timer_hasarg(args, n))
    &&& (e.trigger matches Trigger::Timer(t) ==> timer_from_args_rel(args, Some(t)))
    &&& match e.action {
        Action::Exec(ex) => execute_rel(args, ex@),
        Action::Nothing => spec_exec_scan(args, n).executable is None,
    }
}

impl Entry {
    /// Builds an entry from the arguments and the already-read parts: the
    /// name comes from the last name flag (or the given default — callers
    /// typically pass a randomly drawn one), and the enabled mark from the
    /// disable flag. Fails exactly when a name flag stands last, with no
    /// value after it.
    pub fn from_args(
        args: &Vec<String>,
        default_name: String,
        trigger: Trigger,
        logger: Logger,
        action: Action,
        do_if_running: DoIfRunning,
        status: Status,
    ) -> (r: Result<Entry, ArgError>)
        ensures
            r is Err <==> trailing_name_flag(args@),
            r matches Ok(e) ==> {
                &&& e.id == 0
                &&& e.name == (match spec_name_scan(args@, args@.len() as int) {
                    Some(v) => v,
                    None => default_name,
                })
                &&& e.enabled == !has_flag(args@, "--disable"@)
                &&& e.trigger == trigger
                &&& e.logger == logger
                &&& e.action == action
                &&& e.do_if_running == do_if_running
                &&& e.status == status
            },
    {
        let mut name = default_name;
        let mut i: usize = 0;
        while i < args.len()
            invariant
                i <= args@.len(),
                name == (match spec_name_scan(args@, i as int) {
                    Some(v) => v,
                    None => default_name,
                }),
                trailing_name_flag(args@) ==> (i as int) < args@.len(),
            decreases args@.len() - i,
        {
            if arg_eq(&args[i], "--name") {
                match garg_string(args, i + 1) {
                    Some(v) => {
                        name = v;
                    },
                    None => {
                        proof {
                            assert(i as int == args@.len() - 1);
                        }
                        return Err(ArgError::InvalidArgument);
                    },
                }
            }
            i = i + 1;
        }
        let enabled = !find_flag(args, "--disable");
        Ok(Entry { id: 0, name, action, logger, trigger, status, do_if_running, enabled })
    }
}

/// What an operation does, named for help text.
#[derive(Clone, Copy, Debug, PartialEq, Eq, Structural)]
pub enum OperationType {
    Add,
    Delete,
    Start,
    Pause,
    StartDaemon,
    StopDaemon,
    List,
    Detail,
    Help,
    Version,
}

/// One operation against the daemon, as the command line names it.
#[derive(Debug, PartialEq)]
pub enum Operation {
    Add(Entry),
    Delete(EntryIdentifier),
    Start(EntryIdentifier),
    Pause(EntryIdentifier),
    StartDaemon(),
    StopDaemon(),
    List(),
    Detail(EntryIdentifier),
    Help(Option<OperationType>),
    Version,
}

/// How an argument names an existing entry: a readable number is an id,
/// anything else is a name.
pub open spec fn spec_ident(s: String) -> EntryIdentifier {
    match spec_parse_u32(s@) {
        Some(id) => EntryIdentifier::Id(id),
        None => EntryIdentifier::Name(s),
    }
}

/// Reads an entry identifier: a number is an id, anything else a name.
pub fn parse_identifier(s: &String) -> (r: EntryIdentifier)
    ensures
        r == spec_ident(*s),
{
    match parse_u32(s.as_str()) {
        Some(id) => EntryIdentifier::Id(id),
        None => EntryIdentifier::Name(s.clone()),
    }
}

/// An operation word that needs an entry identifier after it.
pub open spec fn ident_op(a: Seq<char>) -> bool {
    ||| a == "delete"@
    ||| a == "start"@
    ||| a == "pause"@
    ||| a == "detail"@
}

/// How the read operation follows from the arguments: the word after the
/// program name chooses the operation, a help flag anywhere turns it into
/// help about that operation, and an unknown word gives general help.
pub open spec fn op_from_args_rel(args: Seq<String>, default_name: String, r: Result<
    Operation,
    ArgError,
>) -> bool {
    let cmd = args[1]@;
    let help = has_flag(args, "--help"@);
    if cmd == "add"@ {
        if help {
            r == Result::<Operation, ArgError>::Ok(Operation::Help(Some(OperationType::Add)))
        } else {
            match r {
                Ok(op) => match op {
                    Operation::Add(e) => built_entry_rel(args, default_name, e),
                    _ => false,
                },
                Err(_) => trailing_name_flag(args),
            }
        }
    } else if cmd == "delete"@ {
        r == Result::<Operation, ArgError>::Ok(
            if help {
                Operation::Help(Some(OperationType::Delete))
            } else {
                Operation::Delete(spec_ident(args[2]))
            },
        )
    } else if cmd == "start"@ {
        r == Result::<Operation, ArgError>::Ok(
            if help {
                Operation::Help(Some(OperationType::Start))
            } else {
                Operation::Start(spec_ident(args[2]))
            },
        )
    } else if cmd == "pause"@ {
        r == Result::<Operation, ArgError>::Ok(
            if help {
                Operation::Help(Some(OperationType::Pause))
            } else {
                Operation::Pause(spec_ident(args[2]))
            },
        )
    } else if cmd == "start-daemon"@ {
        r == Result::<Operation, ArgError>::Ok(
            if help {
                Operation::Help(Some(OperationType::StartDaemon))
            } else {
                Operation::StartDaemon()
            },
        )
    } else if cmd == "stop-daemon"@ {
        r == Result::<Operation, ArgError>::Ok(
            if help {
                Operation::Help(Some(OperationType::StopDaemon))
            } else {
                Operation::StopDaemon()
            },
        )
    } else if cmd == "list"@ {
        r == Result::<Operation, ArgError>::Ok(
            if help {
                Operation::Help(Some(OperationType::List))
            } else {
                Operation::List()
            },
        )
    } else if cmd == "detail"@ {
        r == Result::<Operation, ArgError>::Ok(
            if help {
                Operation::Help(Some(OperationType::Detail))
            } else {
                Operation::Detail(spec_ident(args[2]))
            },
        )
    } else if cmd == "help"@ {
        r == Result::<Operation, ArgError>::Ok(
            if help {
                Operation::Help(Some(OperationType::Help))
            } else {
                Operation::Help(None)
            },
        )
    } else if cmd == "version"@ {
        r == Result::<Operation, ArgError>::Ok(
            if help {
                Operation::Help(Some(OperationType::Version))
            } else {
                Operation::Version
            },
        )
    } else {
        r == Result::<Operation, ArgError>::Ok(Operation::Help(None))
    }
}

impl Operation {
    /// Reads the whole command line into one operation. The first
    /// argument is the program name and the second the operation word;
    /// operations that act on an entry need an identifier as the third.
    /// `default_name` is the name a built entry falls back to; drawing a
    /// random one is the caller's choice to make.
    pub fn from_args(args: &Vec<String>, default_name: String) -> (r: Result<
        Operation,
        ArgError,
    >)
        requires
            args@.len() >= 2,
            ident_op(args@[1]@) && !has_flag(args@, "--help"@) ==> args@.len() >= 3,
        ensures
            op_from_args_rel(args@, default_name, r),
    {
        let op_str = &args[1];
        if arg_eq(op_str, "add") {
            if check_if_help_in_args(args) {
                return Ok(Operation::Help(Some(OperationType::Add)));
            }
            let trigger = Trigger::from_args(args);
            let logger = Logger::from_args(args);
            let action = Action::from_args(args);
            let do_if_running = DoIfRunning::from_args(args);
            let status = Status::from_args(args);
            match Entry::from_args(
                args,
                default_name,
                trigger,
                logger,
                action,
                do_if_running,
                status,
            ) {
                Ok(entry) => Ok(Operation::Add(entry)),
                Err(err) => Err(err),
            }
        } else if arg_eq(op_str, "delete") {
            if check_if_help_in_args(args) {
                return Ok(Operation::Help(Some(OperationType::Delete)));
            }
            Ok(Operation::Delete(parse_identifier(&args[2])))
        } else if arg_eq(op_str, "start") {
            if check_if_help_in_args(args) {
                return Ok(Operation::Help(Some(OperationType::Start)));
            }
            Ok(Operation::Start(parse_identifier(&args[2])))
        } else if arg_eq(op_str, "pause") {
            if check_if_help_in_args(args) {
                return Ok(Operation::Help(Some(OperationType::Pause)));
            }
            Ok(Operation::Pause(parse_identifier(&args[2])))
        } else if arg_eq(op_str, "start-daemon") {
            if check_if_help_in_args(args) {
                return Ok(Operation::Help(Some(OperationType::StartDaemon)));
            }
            Ok(Operation::StartDaemon())
        } else if arg_eq(op_str, "stop-daemon") {
            if check_if_help_in_args(args) {
                return Ok(Operation::Help(Some(OperationType::StopDaemon)));
            }
            Ok(Operation::StopDaemon())
        } else if arg_eq(op_str, "list") {
            if check_if_help_in_args(args) {
                return Ok(Operation::Help(Some(OperationType::List)));
            }
            Ok(Operation::List())
        } else if arg_eq(op_str, "detail") {
            if check_if_help_in_args(args) {
                return Ok(Operation::Help(Some(OperationType::Detail)));
            }
            Ok(Operation::Detail(parse_identifier(&args[2])))
        } else if arg_eq(op_str, "help") {
            if check_if_help_in_args(args) {
                return Ok(Operation::Help(Some(OperationType::Help)));
            }
            Ok(Operation::Help(None))
        } else if arg_eq(op_str, "version") {
            if check_if_help_in_args(args) {
                return Ok(Operation::Help(Some(OperationType::Version)));
            }
            Ok(Operation::Version)
        } else {
            Ok(Operation::Help(None))
        }
    }
}

} // verus!
