//! Wall-clock stamps: the local time as plain fields, and the two textual
//! forms the monitor uses (log-line stamps and the log file's name).
use chrono::{Datelike, Timelike};
use vstd::prelude::*;
use crate::text::{dec, decimal, is_digit, lemma_dec_shape, lemma_pad_digits, pad_with, zero_padded};

verus! {

/// A local calendar date and time of day.
#[derive(Clone, Copy, Debug, PartialEq, Eq, Structural)]
pub struct Stamp {
    pub year: i32,
    pub month: u32,
    pub day: u32,
    pub hour: u32,
    pub minute: u32,
    pub second: u32,
}

impl Stamp {
    /// Fields within their calendar ranges.
    pub open spec fn wf(&self) -> bool {
        &&& 1 <= self.month <= 12
        &&& 1 <= self.day <= 31
        &&& self.hour < 24
        &&& self.minute < 60
        &&& self.second < 60
    }
}

/// Two-digit zero-padded field.
pub open spec fn two(n: nat) -> Seq<char> {
    pad_with('0', dec(n), 2)
}

/// The year with at least four digits, and a minus sign before negative years.
pub open spec fn year_text(y: int) -> Seq<char> {
    if y >= 0 {
        pad_with('0', dec(y as nat), 4)
    } else {
        seq!['-'] + pad_with('0', dec((-y) as nat), 4)
    }
}

/// `YYYY-MM-DD_HH-MM-SS`.
pub open spec fn file_stamp(s: Stamp) -> Seq<char> {
    year_text(s.year as int) + seq!['-'] + two(s.month as nat) + seq!['-'] + two(s.day as nat)
        + seq!['_'] + two(s.hour as nat) + seq!['-'] + two(s.minute as nat) + seq!['-'] + two(
        s.second as nat,
    )
}

/// `system_info_YYYY-MM-DD_HH-MM-SS.txt`.
pub open spec fn log_file_name(s: Stamp) -> Seq<char> {
    seq!['s', 'y', 's', 't', 'e', 'm', '_', 'i', 'n', 'f', 'o', '_'] + file_stamp(s) + seq![
        '.',
        't',
        'x',
        't',
    ]
}

/// `MM/DD/YY:HH:MM:SS`, the year taken modulo 100.
pub open spec fn line_stamp(s: Stamp) -> Seq<char> {
    two(s.month as nat) + seq!['/'] + two(s.day as nat) + seq!['/'] + two(
        (s.year as int % 100) as nat,
    ) + seq![':'] + two(s.hour as nat) + seq![':'] + two(s.minute as nat) + seq![':'] + two(
        s.second as nat,
    )
}

/// `t` reads `DDDD-DD-DD_DD-DD-DD`, each `D` a digit.
pub open spec fn stamp_shaped(t: Seq<char>) -> bool {
    &&& t.len() == 19
    &&& forall|i: int|
        0 <= i < 19 ==> if i == 4 || i == 7 || i == 13 || i == 16 {
            #[trigger] t[i] == '-'
        } else if i == 10 {
            t[i] == '_'
        } else {
            is_digit(t[i])
        }
}

proof fn lemma_two_shape(n: nat)
    requires
        n < 100,
    ensures
        two(n).len() == 2,
        is_digit(two(n)[0]),
        is_digit(two(n)[1]),
{
    lemma_dec_shape(n);
    lemma_pad_digits(dec(n), 2);
}

/// For a well-formed stamp of a year in 0..=9999, the log file's name is
/// `system_info_` then `DDDD-DD-DD_DD-DD-DD` then `.txt`.
pub proof fn lemma_file_name_shape(s: Stamp)
    requires
        s.wf(),
        0 <= s.year <= 9999,
    ensures
        log_file_name(s).len() == 35,
        log_file_name(s).subrange(0, 12) == seq!['s', 'y', 's', 't', 'e', 'm', '_', 'i', 'n', 'f', 'o', '_'],
        stamp_shaped(log_file_name(s).subrange(12, 31)),
        log_file_name(s).subrange(31, 35) == seq!['.', 't', 'x', 't'],
{
    let y = s.year as nat;
    lemma_dec_shape(y);
    lemma_pad_digits(dec(y), 4);
    lemma_two_shape(s.month as nat);
    lemma_two_shape(s.day as nat);
    lemma_two_shape(s.hour as nat);
    lemma_two_shape(s.minute as nat);
    lemma_two_shape(s.second as nat);
    let yt = year_text(s.year as int);
    assert(yt == pad_with('0', dec(y), 4));
    let t = file_stamp(s);
    assert(t.len() == 19);
    assert forall|i: int| 0 <= i < 4 implies is_digit(#[trigger] t[i]) by {
        assert(t[i] == yt[i]);
    }
    assert(t[4] == '-');
    assert(t[5] == two(s.month as nat)[0]);
    assert(t[6] == two(s.month as nat)[1]);
    assert(t[7] == '-');
    assert(t[8] == two(s.day as nat)[0]);
    assert(t[9] == two(s.day as nat)[1]);
    assert(t[10] == '_');
    assert(t[11] == two(s.hour as nat)[0]);
    assert(t[12] == two(s.hour as nat)[1]);
    assert(t[13] == '-');
    assert(t[14] == two(s.minute as nat)[0]);
    assert(t[15] == two(s.minute as nat)[1]);
    assert(t[16] == '-');
    assert(t[17] == two(s.second as nat)[0]);
    assert(t[18] == two(s.second as nat)[1]);
    let f = log_file_name(s);
    assert(f.subrange(12, 31) =~= t);
    assert(f.subrange(0, 12) =~= seq!['s', 'y', 's', 't', 'e', 'm', '_', 'i', 'n', 'f', 'o', '_']);
    assert(f.subrange(31, 35) =~= seq!['.', 't', 'x', 't']);
}

/// Relies on chrono's `Local::now` and the `Datelike`/`Timelike` accessors,
/// whose month is 1..=12, day 1..=31, hour 0..=23, minute and second 0..=59.
#[verifier::external_body]
pub(crate) fn local_now() -> (r: Stamp)
    ensures
        r.wf(),
{
    let t = chrono::Local::now();
    Stamp {
        year: t.year(),
        month: t.month(),
        day: t.day(),
        hour: t.hour(),
        minute: t.minute(),
        second: t.second(),
    }
}

/// The local time now.
pub fn now() -> (r: Stamp)
    ensures
        r.wf(),
{
    local_now()
}

fn year_of(y: i32) -> (r: String)
    ensures
        r@ == year_text(y as int),
{
    proof {
        reveal_strlit("-");
    }
    if y >= 0 {
        zero_padded(y as u64, 4)
    } else {
        let a: u64 = (-(y as i64)) as u64;
        let mut s = String::from_str("-");
        let digits = zero_padded(a, 4);
        s.append(digits.as_str());
        s
    }
}

fn two_digits(n: u32) -> (r: String)
    ensures
        r@ == two(n as nat),
{
    zero_padded(n as u64, 2)
}

/// `a`, then the one-character separator `sep`, then `b`.
fn joined(a: String, sep: &str, b: String) -> (r: String)
    ensures
        r@ == a@ + sep@ + b@,
{
    let mut r = a;
    r.append(sep);
    r.append(b.as_str());
    r
}

/// `x<sep>y<sep>z` of three two-digit fields.
fn triple(x: u32, y: u32, z: u32, sep: &str) -> (r: String)
    requires
        sep@.len() == 1,
    ensures
        r@ == two(x as nat) + seq![sep@[0]] + two(y as nat) + seq![sep@[0]] + two(z as nat),
{
    assert(sep@ =~= seq![sep@[0]]);
    let a = joined(two_digits(x), sep, two_digits(y));
    joined(a, sep, two_digits(z))
}

/// The name of the log file written at shutdown for stamp `s`.
pub fn file_name(s: &Stamp) -> (r: String)
    ensures
        r@ == log_file_name(*s),
{
    proof {
        reveal_strlit("system_info_");
        reveal_strlit("-");
        reveal_strlit("_");
        reveal_strlit(".txt");
        assert("-"@ =~= seq!['-']);
    }
    let y = year_of(s.year);
    let date = joined(y, "-", two_digits(s.month));
    let date = joined(date, "-", two_digits(s.day));
    let time = triple(s.hour, s.minute, s.second, "-");
    let stamp = joined(date, "_", time);
    let mut r = String::from_str("system_info_");
    r.append(stamp.as_str());
    r.append(".txt");
    proof {
        assert("system_info_"@ =~= seq!['s', 'y', 's', 't', 'e', 'm', '_', 'i', 'n', 'f', 'o', '_']);
        assert("_"@ =~= seq!['_']);
        assert(".txt"@ =~= seq!['.', 't', 'x', 't']);
        assert(stamp@ =~= file_stamp(*s));
        assert(r@ =~= log_file_name(*s));
    }
    r
}

fn year_mod_100(y: i32) -> (r: u32)
    ensures
        r as int == y as int % 100,
{
    let w: i64 = y as i64;
    let m: i64 = if w >= 0 {
        w % 100
    } else {
        let p: i64 = (-w) % 100;
        if p == 0 {
            0
        } else {
            100 - p
        }
    };
    assert(m == y as int % 100) by (nonlinear_arith)
        requires
            w == y as int,
            w >= 0 ==> m == w % 100,
            w < 0 ==> ((-w) % 100 == 0 ==> m == 0),
            w < 0 ==> ((-w) % 100 != 0 ==> m == 100 - (-w) % 100),
    ;
    m as u32
}

/// The stamp written at the head of each log line.
pub fn line_stamp_text(s: &Stamp) -> (r: String)
    ensures
        r@ == line_stamp(*s),
{
    proof {
        reveal_strlit("/");
        reveal_strlit(":");
        assert(":"@ =~= seq![':']);
        assert("/"@ =~= seq!['/']);
    }
    let yy = year_mod_100(s.year);
    let date = triple(s.month, s.day, yy, "/");
    let time = triple(s.hour, s.minute, s.second, ":");
    let r = joined(date, ":", time);
    assert(r@ =~= line_stamp(*s));
    r
}

/// Hours, minutes and seconds of an uptime given in seconds.
pub open spec fn uptime_split(total: nat) -> (nat, nat, nat) {
    (total / 3600, (total % 3600) / 60, total % 60)
}

/// `<h>h:<m>m:<s>s`.
pub open spec fn uptime_text(total: nat) -> Seq<char> {
    let (h, m, s) = uptime_split(total);
    dec(h) + seq!['h', ':'] + dec(m) + seq!['m', ':'] + dec(s) + seq!['s']
}

/// Uptime as hours, minutes and seconds, such as `27h:3m:9s`.
pub fn format_uptime(total: u64) -> (r: String)
    ensures
        r@ == uptime_text(total as nat),
{
    proof {
        reveal_strlit("h:");
        reveal_strlit("m:");
        reveal_strlit("s");
    }
    let mut r = decimal(total / 3600);
    r.append("h:");
    r.append(decimal((total % 3600) / 60).as_str());
    r.append("m:");
    r.append(decimal(total % 60).as_str());
    r.append("s");
    assert(r@ =~= uptime_text(total as nat));
    r
}

/// The three parts of an uptime add back up to it, minutes and seconds below 60.
pub proof fn lemma_uptime_parts(total: nat)
    ensures
        uptime_split(total).0 * 3600 + uptime_split(total).1 * 60 + uptime_split(total).2 == total,
        uptime_split(total).1 < 60,
        uptime_split(total).2 < 60,
{
    let h = total / 3600;
    let r = total % 3600;
    assert(total == h * 3600 + r) by (nonlinear_arith)
        requires
            h == total / 3600,
            r == total % 3600,
    ;
    assert(r == (r / 60) * 60 + r % 60) by (nonlinear_arith);
    assert(r % 60 == total % 60) by (nonlinear_arith)
        requires
            total == h * 3600 + r,
    ;
    assert(r / 60 < 60) by (nonlinear_arith)
        requires
            r < 3600,
    ;
}

} // verus!
