use chrono::{Datelike, Timelike};
use vstd::prelude::*;

verus! {

/// How the hour field is shown.
#[derive(PartialEq, Eq, Structural, Clone, Copy, Debug)]
pub enum HourFormat {
    /// 01 to 12; midnight and noon show as 12.
    TwelveHour,
    /// 00 to 23.
    TwentyFourHour,
}

/// A wall-clock instant as calendar fields.
#[derive(PartialEq, Eq, Structural, Clone, Copy, Debug)]
pub struct Instant {
    pub year: i32,
    pub month: u32,
    pub day: u32,
    pub hour: u32,
    pub minute: u32,
    pub second: u32,
}

impl Instant {
    /// Each field lies in its calendar range.
    pub open spec fn wf(&self) -> bool {
        &&& 1 <= self.month <= 12
        &&& 1 <= self.day <= 31
        &&& self.hour < 24
        &&& self.minute < 60
        &&& self.second < 60
    }
}

/// The six displayed digits of one instant, the date text, and the hour
/// format they were computed with.
#[derive(Debug)]
pub struct TimeSample {
    pub h1: usize,
    pub h2: usize,
    pub m1: usize,
    pub m2: usize,
    pub s1: usize,
    pub s2: usize,
    pub date: String,
    pub mode: HourFormat,
}

impl TimeSample {
    /// The digits in display order: hour, minute, second, tens first.
    pub open spec fn digits(&self) -> Seq<int> {
        seq![
            self.h1 as int,
            self.h2 as int,
            self.m1 as int,
            self.m2 as int,
            self.s1 as int,
            self.s2 as int,
        ]
    }
}

/// The hour as shown in `mode`.
pub open spec fn shown_hour(hour: int, mode: HourFormat) -> int {
    match mode {
        HourFormat::TwentyFourHour => hour,
        HourFormat::TwelveHour => if hour % 12 == 0 {
            12
        } else {
            hour % 12
        },
    }
}

/// The six digits that show `t` in `mode`.
pub open spec fn clock_digits(t: Instant, mode: HourFormat) -> Seq<int> {
    let h = shown_hour(t.hour as int, mode);
    let m = t.minute as int;
    let s = t.second as int;
    seq![h / 10, h % 10, m / 10, m % 10, s / 10, s % 10]
}

/// What chrono's strftime-style formatting renders for the given calendar
/// fields and format string, or `None` where it reports an error.
pub uninterp spec fn formatted_date(
    year: int,
    month: int,
    day: int,
    hour: int,
    minute: int,
    second: int,
    format: Seq<char>,
) -> Option<Seq<char>>;

/// The text chrono renders for `t` under `format`.
pub open spec fn date_text(t: Instant, format: Seq<char>) -> Option<Seq<char>> {
    formatted_date(
        t.year as int,
        t.month as int,
        t.day as int,
        t.hour as int,
        t.minute as int,
        t.second as int,
        format,
    )
}

/// What `sample` returns for `now`, `mode` and `format`.
pub open spec fn sample_result(
    now: Instant,
    mode: HourFormat,
    format: Seq<char>,
    r: Option<TimeSample>,
) -> bool {
    match r {
        None => date_text(now, format) is None,
        Some(ts) => {
            &&& date_text(now, format) == Some(ts.date@)
            &&& ts.digits() == clock_digits(now, mode)
            &&& ts.mode == mode
        },
    }
}

/// Relies on std's `SystemTime::now` and chrono's `From<SystemTime>` for
/// `DateTime<Utc>`, `DateTime::with_timezone(&Local)` and
/// `DateTime::naive_local`: the current local wall-clock time, whose fields
/// chrono keeps within calendar range (seconds stay below 60, a leap second
/// reads as 59). The conversion handles clocks before 1970; chrono stops
/// only on a clock beyond its range of about 262,000 years, or on time zone
/// data that it cannot use.
#[verifier::external_body]
fn local_now() -> (t: Instant)
    ensures
        t.wf(),
{
    let utc = chrono::DateTime::<chrono::Utc>::from(std::time::SystemTime::now());
    let now = utc.with_timezone(&chrono::Local).naive_local();
    Instant {
        year: now.year(),
        month: now.month(),
        day: now.day(),
        hour: now.hour(),
        minute: now.minute(),
        second: now.second(),
    }
}

/// Relies on std's `SystemTime::now` and chrono's `From<SystemTime>` for
/// `DateTime<Utc>` and `DateTime::naive_utc`: the current UTC time, with
/// fields within calendar range as for `local_now`. The conversion handles
/// clocks before 1970; chrono stops only on a clock beyond its range of
/// about 262,000 years.
#[verifier::external_body]
fn utc_now() -> (t: Instant)
    ensures
        t.wf(),
{
    let now = chrono::DateTime::<chrono::Utc>::from(std::time::SystemTime::now()).naive_utc();
    Instant {
        year: now.year(),
        month: now.month(),
        day: now.day(),
        hour: now.hour(),
        minute: now.minute(),
        second: now.second(),
    }
}

/// Relies on chrono's `NaiveDate::from_ymd_opt`, `NaiveDate::and_hms_opt`,
/// `NaiveDateTime::format` and `DelayedFormat::write_to`: renders the fields
/// under a strftime-style format; the text depends on the fields and the
/// format alone. `None` where the fields name no date or the format holds an
/// item chrono cannot render.
#[verifier::external_body]
fn format_date(t: &Instant, format: &str) -> (r: Option<String>)
    ensures
        r is Some <==> formatted_date(
            t.year as int,
            t.month as int,
            t.day as int,
            t.hour as int,
            t.minute as int,
            t.second as int,
            format@,
        ) is Some,
        r is Some ==> formatted_date(
            t.year as int,
            t.month as int,
            t.day as int,
            t.hour as int,
            t.minute as int,
            t.second as int,
            format@,
        ) == Some(r->0@),
{
    let date = chrono::NaiveDate::from_ymd_opt(t.year, t.month, t.day)?;
    let stamp = date.and_hms_opt(t.hour, t.minute, t.second)?;
    let mut text = String::new();
    match stamp.format(format).write_to(&mut text) {
        Ok(()) => Some(text),
        Err(_) => None,
    }
}

/// Reads the system clock, in UTC or in local time.
pub fn read_clock(utc: bool) -> (t: Instant)
    ensures
        t.wf(),
{
    if utc {
        utc_now()
    } else {
        local_now()
    }
}

/// The sample of `now` under `mode` that carries `date` as its date text.
pub fn stamp(now: &Instant, mode: HourFormat, date: String) -> (ts: TimeSample)
    requires
        now.wf(),
    ensures
        ts.digits() == clock_digits(*now, mode),
        ts.date@ == date@,
        ts.mode == mode,
{
    let hour: u32 = match mode {
        HourFormat::TwentyFourHour => now.hour,
        HourFormat::TwelveHour => if now.hour % 12 == 0 {
            12
        } else {
            now.hour % 12
        },
    };
    let ts = TimeSample {
        h1: (hour / 10) as usize,
        h2: (hour % 10) as usize,
        m1: (now.minute / 10) as usize,
        m2: (now.minute % 10) as usize,
        s1: (now.second / 10) as usize,
        s2: (now.second % 10) as usize,
        date,
        mode,
    };
    proof {
        assert(ts.digits() =~= clock_digits(*now, mode));
    }
    ts
}

/// Splits `now` into the six displayed digits under `mode` and renders its
/// date under `format`; `None` exactly when the date cannot be rendered.
pub fn sample(now: &Instant, mode: HourFormat, format: &str) -> (r: Option<TimeSample>)
    requires
        now.wf(),
    ensures
        sample_result(*now, mode, format@, r),
{
    match format_date(now, format) {
        Some(date) => Some(stamp(now, mode, date)),
        None => None,
    }
}

/// Sampling is deterministic: two results for the same instant, hour format
/// and date format carry the same digits, date text and mode.
pub proof fn lemma_sample_deterministic(
    now: Instant,
    mode: HourFormat,
    format: Seq<char>,
    a: Option<TimeSample>,
    b: Option<TimeSample>,
)
    requires
        sample_result(now, mode, format, a),
        sample_result(now, mode, format, b),
    ensures
        a is Some <==> b is Some,
        a is Some ==> {
            &&& a->0.digits() == b->0.digits()
            &&& a->0.date@ == b->0.date@
            &&& a->0.mode == b->0.mode
        },
{
}

/// Every sampled digit is a decimal digit, the hour reads 00 to 23 or
/// 01 to 12 by mode, and minutes and seconds read 00 to 59.
pub proof fn lemma_sample_in_range(now: Instant, mode: HourFormat)
    requires
        now.wf(),
    ensures
        forall|i: int| 0 <= i < 6 ==> 0 <= #[trigger] clock_digits(now, mode)[i] < 10,
        mode == HourFormat::TwentyFourHour ==> 0 <= clock_digits(now, mode)[0] * 10
            + clock_digits(now, mode)[1] <= 23,
        mode == HourFormat::TwelveHour ==> 1 <= clock_digits(now, mode)[0] * 10 + clock_digits(
            now,
            mode,
        )[1] <= 12,
        clock_digits(now, mode)[2] * 10 + clock_digits(now, mode)[3] == now.minute,
        clock_digits(now, mode)[4] * 10 + clock_digits(now, mode)[5] == now.second,
{
}

} // verus!
