//! The compatibility report saver's naming and placement logic.
//!
//! A report is written to `<dir>/tauri_compatibility_report_<timestamp>.json`,
//! where the timestamp is the current UTC time as `YYYYMMDD_HHMMSS` and the
//! directory is the user's `Desktop` under the home directory when that
//! resolves, else the current working directory. The clock and home-directory
//! reads are trusted; everything from their plain values to the final path is
//! verified. The host shell performs the file write itself and builds its
//! confirmation and error text through [`report_saved_message`] and
//! [`report_save_error_message`].

use vstd::prelude::*;
use vstd::string::*;
use vstd::arithmetic::div_mod::lemma_fundamental_div_mod;
use vstd::arithmetic::div_mod::lemma_div_denominator;
use chrono::Datelike;
use chrono::Timelike;

verus! {

/// A civil UTC time, to second granularity: what the report filename is
/// built from. Two saves within the same second share a timestamp and hence
/// a filename -- a known edge case of the second-level granularity.
#[derive(Clone, Copy, Debug, PartialEq, Eq, Structural)]
pub struct Timestamp {
    pub year: u16,
    pub month: u8,
    pub day: u8,
    pub hour: u8,
    pub minute: u8,
    pub second: u8,
}

impl Timestamp {
    /// A timestamp the formatter accepts: every component in its calendar
    /// range, and the year four digits.
    pub open spec fn wf(self) -> bool {
        self.year <= 9999 && 1 <= self.month <= 12 && 1 <= self.day <= 31 && self.hour <= 23
            && self.minute <= 59 && self.second <= 59
    }
}

/// The decimal digit character for `d`.
pub open spec fn digit_char(d: int) -> char {
    if d == 0 {
        '0'
    } else if d == 1 {
        '1'
    } else if d == 2 {
        '2'
    } else if d == 3 {
        '3'
    } else if d == 4 {
        '4'
    } else if d == 5 {
        '5'
    } else if d == 6 {
        '6'
    } else if d == 7 {
        '7'
    } else if d == 8 {
        '8'
    } else {
        '9'
    }
}

/// `n` as two decimal digits, zero-padded, for `n < 100`.
pub open spec fn two_digits(n: int) -> Seq<char> {
    seq![digit_char(n / 10 % 10), digit_char(n % 10)]
}

/// `n` as four decimal digits, zero-padded, for `n < 10000`.
pub open spec fn four_digits(n: int) -> Seq<char> {
    seq![
        digit_char(n / 1000),
        digit_char(n / 100 % 10),
        digit_char(n / 10 % 10),
        digit_char(n % 10),
    ]
}

/// A well-formed timestamp as `YYYYMMDD_HHMMSS`.
pub open spec fn spec_timestamp_text(ts: Timestamp) -> Seq<char> {
    four_digits(ts.year as int) + two_digits(ts.month as int) + two_digits(ts.day as int)
        + seq!['_'] + two_digits(ts.hour as int) + two_digits(ts.minute as int) + two_digits(
        ts.second as int,
    )
}

/// The one-character text of the decimal digit `d`.
fn digit_str(d: u64) -> (r: &'static str)
    requires
        d < 10,
    ensures
        r@ == seq![digit_char(d as int)],
{
    let s: &'static str = match d {
        0 => "0",
        1 => "1",
        2 => "2",
        3 => "3",
        4 => "4",
        5 => "5",
        6 => "6",
        7 => "7",
        8 => "8",
        _ => "9",
    };
    proof {
        reveal_strlit("0");
        reveal_strlit("1");
        reveal_strlit("2");
        reveal_strlit("3");
        reveal_strlit("4");
        reveal_strlit("5");
        reveal_strlit("6");
        reveal_strlit("7");
        reveal_strlit("8");
        reveal_strlit("9");
        assert(s@ =~= seq![digit_char(d as int)]);
    }
    s
}

/// Appends `n` as two zero-padded decimal digits.
fn append_two_digits(s: &mut String, n: u64)
    requires
        n < 100,
    ensures
        final(s)@ == old(s)@ + two_digits(n as int),
{
    s.append(digit_str(n / 10 % 10));
    s.append(digit_str(n % 10));
    proof {
        assert(s@ =~= old(s)@ + two_digits(n as int));
    }
}

/// Appends `n` as four zero-padded decimal digits.
fn append_four_digits(s: &mut String, n: u64)
    requires
        n < 10000,
    ensures
        final(s)@ == old(s)@ + four_digits(n as int),
{
    s.append(digit_str(n / 1000));
    s.append(digit_str(n / 100 % 10));
    s.append(digit_str(n / 10 % 10));
    s.append(digit_str(n % 10));
    proof {
        assert(s@ =~= old(s)@ + four_digits(n as int));
    }
}

/// Formats `ts` as `YYYYMMDD_HHMMSS`, each component zero-padded.
pub fn format_timestamp(ts: &Timestamp) -> (r: String)
    requires
        ts.wf(),
    ensures
        r@ == spec_timestamp_text(*ts),
{
    let mut s = String::new();
    append_four_digits(&mut s, ts.year as u64);
    append_two_digits(&mut s, ts.month as u64);
    append_two_digits(&mut s, ts.day as u64);
    s.append("_");
    append_two_digits(&mut s, ts.hour as u64);
    append_two_digits(&mut s, ts.minute as u64);
    append_two_digits(&mut s, ts.second as u64);
    proof {
        reveal_strlit("_");
        assert("_"@ =~= seq!['_']);
        assert(s@ =~= spec_timestamp_text(*ts));
    }
    s
}

/// The report filename for `ts`.
pub open spec fn spec_report_filename(ts: Timestamp) -> Seq<char> {
    "tauri_compatibility_report_"@ + spec_timestamp_text(ts) + ".json"@
}

/// The timestamped filename that the report is saved under.
pub fn report_filename(ts: &Timestamp) -> (r: String)
    requires
        ts.wf(),
    ensures
        r@ == spec_report_filename(*ts),
{
    let mut s = String::from_str("tauri_compatibility_report_");
    let t = format_timestamp(ts);
    s.append(t.as_str());
    s.append(".json");
    proof {
        assert(s@ =~= spec_report_filename(*ts));
    }
    s
}

/// Where the report for `ts` is written: on the Desktop under the home
/// directory when one resolved, else in the current working directory.
/// Path segments are joined with `/`; an empty working directory leaves the
/// bare relative filename, the way joining onto an empty path does.
pub open spec fn spec_report_destination(
    home: Option<Seq<char>>,
    cwd: Seq<char>,
    ts: Timestamp,
) -> Seq<char> {
    match home {
        Some(h) => h + "/Desktop/"@ + spec_report_filename(ts),
        None => if cwd.len() == 0 {
            spec_report_filename(ts)
        } else {
            cwd + "/"@ + spec_report_filename(ts)
        },
    }
}

/// The view of an optional owned string.
pub open spec fn opt_text(o: Option<String>) -> Option<Seq<char>> {
    match o {
        Some(s) => Some(s@),
        None => None,
    }
}

/// Builds the full path the report for `ts` is written to, from the
/// resolved home directory (if any) and the current working directory.
pub fn report_destination(home: &Option<String>, cwd: &str, ts: &Timestamp) -> (r: String)
    requires
        ts.wf(),
    ensures
        r@ == spec_report_destination(opt_text(*home), cwd@, *ts),
{
    let filename = report_filename(ts);
    match home {
        Some(h) => {
            let mut s = h.clone();
            s.append("/Desktop/");
            s.append(filename.as_str());
            proof {
                assert(s@ =~= spec_report_destination(opt_text(*home), cwd@, *ts));
            }
            s
        },
        None => {
            if cwd.is_empty() {
                filename
            } else {
                let mut s = String::from_str(cwd);
                s.append("/");
                s.append(filename.as_str());
                proof {
                    assert(s@ =~= spec_report_destination(opt_text(*home), cwd@, *ts));
                }
                s
            }
        },
    }
}

/// Relies on `chrono::Utc::now` and the `Datelike`/`Timelike` accessors
/// `year`, `month`, `day`, `hour`, `minute` and `second`: the current UTC
/// civil time, component by component. The clock decides the values; only
/// the ranges are promised: year at least 1970 (`Utc::now` builds the time
/// from a nonnegative Unix timestamp), month 1 to 12, day 1 to 31, hour 0
/// to 23, minute 0 to 59, second 0 to 59. `Utc::now` itself panics, before
/// returning, on a system clock set before the Unix epoch or beyond
/// chrono's representable range; no argument exists that a `requires`
/// could exclude, so that abort is inherited and documented here.
#[verifier::external_body]
fn now_utc_parts() -> (r: (i32, u32, u32, u32, u32, u32))
    ensures
        1970 <= r.0,
        1 <= r.1 <= 12,
        1 <= r.2 <= 31,
        r.3 <= 23,
        r.4 <= 59,
        r.5 <= 59,
{
    let now = chrono::Utc::now();
    (now.year(), now.month(), now.day(), now.hour(), now.minute(), now.second())
}

/// Relies on `dirs::home_dir`: the user's home directory as text, when the
/// platform reports one. Which directory, if any, depends on the
/// environment, so nothing is promised of the outcome.
#[verifier::external_body]
fn home_dir_text() -> Option<String> {
    dirs::home_dir().map(|p| p.to_string_lossy().into_owned())
}

/// Builds a timestamp from clock components: `Some` exactly when every
/// component is in the range the formatter accepts.
pub fn timestamp_from_parts(
    year: i32,
    month: u32,
    day: u32,
    hour: u32,
    minute: u32,
    second: u32,
) -> (r: Option<Timestamp>)
    ensures
        r is Some <==> (0 <= year <= 9999 && 1 <= month <= 12 && 1 <= day <= 31 && hour <= 23
            && minute <= 59 && second <= 59),
        r is Some ==> {
            &&& r->0.wf()
            &&& r->0.year == year
            &&& r->0.month as u32 == month
            &&& r->0.day as u32 == day
            &&& r->0.hour as u32 == hour
            &&& r->0.minute as u32 == minute
            &&& r->0.second as u32 == second
        },
{
    if 0 <= year && year <= 9999 && 1 <= month && month <= 12 && 1 <= day && day <= 31 && hour
        <= 23 && minute <= 59 && second <= 59 {
        Some(
            Timestamp {
                year: year as u16,
                month: month as u8,
                day: day as u8,
                hour: hour as u8,
                minute: minute as u8,
                second: second as u8,
            },
        )
    } else {
        None
    }
}

/// Reads the clock and builds the timestamp of this moment. `None` only
/// when the clock reports a year above 9999, which no present-day clock
/// does.
pub fn fresh_timestamp() -> (r: Option<Timestamp>)
    ensures
        r is Some ==> r->0.wf(),
{
    let (year, month, day, hour, minute, second) = now_utc_parts();
    timestamp_from_parts(year, month, day, hour, minute, second)
}

/// Resolves the full path the next report will be written to: the
/// timestamped filename of this moment, on the Desktop under the home
/// directory when one resolves, else under `cwd`, the host's current
/// working directory. `None` only when the clock's year is above 9999.
pub fn resolve_report_path(cwd: &str) -> (r: Option<String>)
    ensures
        r is Some ==> exists|home: Option<Seq<char>>, ts: Timestamp|
            ts.wf() && r->0@ == spec_report_destination(home, cwd@, ts),
{
    let ts = match fresh_timestamp() {
        Some(ts) => ts,
        None => {
            return None;
        },
    };
    let home = home_dir_text();
    let path = report_destination(&home, cwd, &ts);
    proof {
        assert(path@ == spec_report_destination(opt_text(home), cwd@, ts));
    }
    Some(path)
}

/// The confirmation returned after a successful save, embedding exactly the
/// path written to.
pub fn report_saved_message(path: &str) -> (r: String)
    ensures
        r@ == "Report saved to: "@ + path@,
{
    let mut s = String::from_str("Report saved to: ");
    s.append(path);
    s
}

/// The error returned when the save fails; `err` is the host's description
/// of the write failure.
pub fn report_save_error_message(err: &str) -> (r: String)
    ensures
        r@ == "Failed to save report: "@ + err@,
{
    let mut s = String::from_str("Failed to save report: ");
    s.append(err);
    s
}

/// Digit characters determine their digit.
proof fn lemma_digit_char_injective(x: int, y: int)
    requires
        0 <= x < 10,
        0 <= y < 10,
        digit_char(x) == digit_char(y),
    ensures
        x == y,
{
}

/// Two-digit renderings determine their number.
proof fn lemma_two_digits_injective(x: int, y: int)
    requires
        0 <= x < 100,
        0 <= y < 100,
        two_digits(x) == two_digits(y),
    ensures
        x == y,
{
    assert(two_digits(x)[0] == two_digits(y)[0]);
    assert(two_digits(x)[1] == two_digits(y)[1]);
    lemma_digit_char_injective(x / 10 % 10, y / 10 % 10);
    lemma_digit_char_injective(x % 10, y % 10);
    lemma_fundamental_div_mod(x, 10);
    lemma_fundamental_div_mod(y, 10);
    vstd::arithmetic::div_mod::lemma_small_mod((x / 10) as nat, 10);
    vstd::arithmetic::div_mod::lemma_small_mod((y / 10) as nat, 10);
}

/// Four-digit renderings determine their number.
proof fn lemma_four_digits_injective(x: int, y: int)
    requires
        0 <= x < 10000,
        0 <= y < 10000,
        four_digits(x) == four_digits(y),
    ensures
        x == y,
{
    assert(four_digits(x)[0] == four_digits(y)[0]);
    assert(four_digits(x)[1] == four_digits(y)[1]);
    assert(four_digits(x)[2] == four_digits(y)[2]);
    assert(four_digits(x)[3] == four_digits(y)[3]);
    lemma_digit_char_injective(x / 1000, y / 1000);
    lemma_digit_char_injective(x / 100 % 10, y / 100 % 10);
    lemma_digit_char_injective(x / 10 % 10, y / 10 % 10);
    lemma_digit_char_injective(x % 10, y % 10);
    lemma_fundamental_div_mod(x, 10);
    lemma_fundamental_div_mod(x / 10, 10);
    lemma_fundamental_div_mod(x / 100, 10);
    lemma_div_denominator(x, 10, 10);
    lemma_div_denominator(x, 100, 10);
    lemma_fundamental_div_mod(y, 10);
    lemma_fundamental_div_mod(y / 10, 10);
    lemma_fundamental_div_mod(y / 100, 10);
    lemma_div_denominator(y, 10, 10);
    lemma_div_denominator(y, 100, 10);
}

/// Timestamp texts determine their timestamp.
proof fn lemma_timestamp_text_injective(a: Timestamp, b: Timestamp)
    requires
        a.wf(),
        b.wf(),
        spec_timestamp_text(a) == spec_timestamp_text(b),
    ensures
        a == b,
{
    let ta = spec_timestamp_text(a);
    let tb = spec_timestamp_text(b);
    assert(ta.subrange(0, 4) =~= four_digits(a.year as int));
    assert(tb.subrange(0, 4) =~= four_digits(b.year as int));
    assert(ta.subrange(4, 6) =~= two_digits(a.month as int));
    assert(tb.subrange(4, 6) =~= two_digits(b.month as int));
    assert(ta.subrange(6, 8) =~= two_digits(a.day as int));
    assert(tb.subrange(6, 8) =~= two_digits(b.day as int));
    assert(ta.subrange(9, 11) =~= two_digits(a.hour as int));
    assert(tb.subrange(9, 11) =~= two_digits(b.hour as int));
    assert(ta.subrange(11, 13) =~= two_digits(a.minute as int));
    assert(tb.subrange(11, 13) =~= two_digits(b.minute as int));
    assert(ta.subrange(13, 15) =~= two_digits(a.second as int));
    assert(tb.subrange(13, 15) =~= two_digits(b.second as int));
    lemma_four_digits_injective(a.year as int, b.year as int);
    lemma_two_digits_injective(a.month as int, b.month as int);
    lemma_two_digits_injective(a.day as int, b.day as int);
    lemma_two_digits_injective(a.hour as int, b.hour as int);
    lemma_two_digits_injective(a.minute as int, b.minute as int);
    lemma_two_digits_injective(a.second as int, b.second as int);
}

/// Distinct timestamps give distinct report filenames: two saves in
/// different seconds never overwrite each other. Two saves within the same
/// second share a filename; that edge case is inherent in the second-level
/// granularity of the name.
pub proof fn lemma_report_filename_injective(a: Timestamp, b: Timestamp)
    requires
        a.wf(),
        b.wf(),
        a != b,
    ensures
        spec_report_filename(a) != spec_report_filename(b),
{
    if spec_report_filename(a) == spec_report_filename(b) {
        reveal_strlit("tauri_compatibility_report_");
        let p = "tauri_compatibility_report_"@;
        assert(p.len() == 27);
        assert(spec_report_filename(a).subrange(27, 42) =~= spec_timestamp_text(a));
        assert(spec_report_filename(b).subrange(27, 42) =~= spec_timestamp_text(b));
        lemma_timestamp_text_injective(a, b);
    }
}

} // verus!
