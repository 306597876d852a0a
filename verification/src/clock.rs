//! The clock widget and its wall-clock-boundary duration functions.
//!
//! A clock fires at the next minute, hour or day boundary, so its
//! period is not constant: the adaptive ticker re-evaluates one of the
//! boundary functions below after every fire. The boundary arithmetic
//! is verified here on a plain model of the local time; only reading
//! the wall clock and rendering the time as text go through chrono.

use vstd::prelude::*;

use crate::text::{Attributes, Text};
use chrono::{Datelike, Offset, Timelike};
use core::fmt::Write;

verus! {

/// One broken-down local wall-clock reading: plain fields, so the
/// boundary arithmetic can be reasoned about directly.
#[derive(Clone, Copy, PartialEq, Eq, Structural, Debug)]
pub struct LocalTime {
    /// Calendar year.
    pub year: i32,
    /// Month, 1 to 12.
    pub month: u8,
    /// Day of month, 1 to 31.
    pub day: u8,
    /// Hour, 0 to 23.
    pub hour: u8,
    /// Minute, 0 to 59.
    pub minute: u8,
    /// Second, 0 to 59.
    pub second: u8,
    /// Nanoseconds since the whole non-leap second; 1_000_000_000 and
    /// above encodes a leap second.
    pub nanosecond: u32,
    /// Local offset from UTC in seconds, within one day.
    pub offset_seconds: i32,
}

impl LocalTime {
    /// Field ranges every wall-clock reading satisfies.
    pub open spec fn wf(self) -> bool {
        &&& 1 <= self.month <= 12
        &&& 1 <= self.day <= 31
        &&& self.hour < 24
        &&& self.minute < 60
        &&& self.second < 60
        &&& self.nanosecond < 2_000_000_000
        &&& -86_400 < self.offset_seconds < 86_400
    }
}

/// What chrono renders for the given local time under the given format
/// string: a fixed function of the broken-down time, the UTC offset and
/// the format string alone.
pub uninterp spec fn formatted_time(
    year: int,
    month: int,
    day: int,
    hour: int,
    minute: int,
    second: int,
    nanosecond: int,
    offset_seconds: int,
    fmt: Seq<char>,
) -> Seq<char>;

/// Reads the local wall clock. Relies on chrono's `Local::now` and its
/// `Datelike`/`Timelike` accessors, whose documented ranges give the
/// well-formedness bounds below.
#[verifier::external_body]
pub fn local_now() -> (r: LocalTime)
    ensures
        r.wf(),
{
    let now = chrono::Local::now();
    LocalTime {
        year: now.year(),
        month: now.month() as u8,
        day: now.day() as u8,
        hour: now.hour() as u8,
        minute: now.minute() as u8,
        second: now.second() as u8,
        nanosecond: now.nanosecond(),
        offset_seconds: now.offset().fix().local_minus_utc(),
    }
}

/// Renders a local time under a strftime-style format string. Relies on
/// chrono's `DateTime::format`: the body rebuilds the chrono datetime
/// from the plain fields and formats it, so the result is a function of
/// those fields and the format string; `None` when chrono rejects the
/// fields (a date it cannot represent) or the format string (an
/// unknown specifier).
#[verifier::external_body]
pub fn format_local(t: &LocalTime, fmt: &str) -> (r: Option<String>)
    ensures
        r matches Some(s) ==> s@ == formatted_time(
            t.year as int,
            t.month as int,
            t.day as int,
            t.hour as int,
            t.minute as int,
            t.second as int,
            t.nanosecond as int,
            t.offset_seconds as int,
            fmt@,
        ),
{
    let date = chrono::NaiveDate::from_ymd_opt(t.year, t.month as u32, t.day as u32)?;
    let naive = date.and_hms_nano_opt(
        t.hour as u32,
        t.minute as u32,
        t.second as u32,
        t.nanosecond,
    )?;
    let offset = chrono::FixedOffset::east_opt(t.offset_seconds)?;
    let moment = chrono::TimeZone::from_local_datetime(&offset, &naive).single()?;
    let mut out = String::new();
    write!(out, "{}", moment.format(fmt)).ok()?;
    Some(out)
}

/// Marker for a clock that fires at the next day boundary.
pub struct Days;

/// Marker for a clock that fires at the next hour boundary.
pub struct Hours;

/// Marker for a clock that fires at the next minute boundary.
pub struct Minutes;

/// Marker for a clock that fires at the next second boundary.
pub struct Seconds;

/// A clock precision: how long to wait, from a given wall-clock
/// reading, until the boundary this clock aligns to. Implemented by the
/// four markers above; the adaptive ticker re-evaluates the chosen
/// boundary function after every fire.
pub trait Precision {
    /// The wait until the next boundary, in nanoseconds.
    spec fn boundary_wait_spec(t: LocalTime) -> int;

    /// The wait until the next boundary, in nanoseconds. Always
    /// positive, so a promptly polled clock never fires twice at one
    /// instant.
    fn boundary_wait(t: &LocalTime) -> (r: u64)
        requires
            t.wf(),
        ensures
            r == Self::boundary_wait_spec(*t),
            0 < r <= 90_000_000_000_000,
    ;
}

impl Precision for Days {
    open spec fn boundary_wait_spec(t: LocalTime) -> int {
        60_000_000_000 * (60 * (24 - t.hour) + (60 - t.minute))
    }

    fn boundary_wait(t: &LocalTime) -> (r: u64)
    {
        60_000_000_000u64 * (60 * (24 - t.hour as u64) + (60 - t.minute as u64))
    }
}

impl Precision for Hours {
    open spec fn boundary_wait_spec(t: LocalTime) -> int {
        60_000_000_000 * (60 - t.minute)
    }

    fn boundary_wait(t: &LocalTime) -> (r: u64)
    {
        60_000_000_000u64 * (60 - t.minute as u64)
    }
}

impl Precision for Minutes {
    open spec fn boundary_wait_spec(t: LocalTime) -> int {
        1_000_000_000 * (60 - t.second)
    }

    fn boundary_wait(t: &LocalTime) -> (r: u64)
    {
        1_000_000_000u64 * (60 - t.second as u64)
    }
}

impl Precision for Seconds {
    open spec fn boundary_wait_spec(t: LocalTime) -> int {
        1_000_000_000 - t.nanosecond % 1_000_000_000
    }

    fn boundary_wait(t: &LocalTime) -> (r: u64)
    {
        1_000_000_000u64 - t.nanosecond as u64 % 1_000_000_000
    }
}

/// Shows the current time and date, by default in the form
/// `%Y-%m-%d %a %I:%M %p`, re-rendered at each boundary of the chosen
/// precision.
pub struct Clock<P: Precision> {
    pub attr: Attributes,
    pub format_str: Option<String>,
    pub phantom: core::marker::PhantomData<P>,
}

/// The format string a clock renders with: the configured one, or the
/// default.
pub open spec fn clock_format_spec(format_str: Option<String>) -> Seq<char> {
    match format_str {
        Some(s) => s@,
        None => "%Y-%m-%d %a %I:%M %p"@,
    }
}

impl<P: Precision> Clock<P> {
    pub fn new(attr: Attributes, format_str: Option<String>) -> (r: Clock<P>)
        ensures
            r.attr == attr,
            r.format_str == format_str,
    {
        Clock::<P> { attr, format_str, phantom: core::marker::PhantomData::<P> }
    }

    /// One frame batch from an already rendered time: a single markup
    /// frame holding the rendered text, or empty text where the
    /// renderer produced nothing.
    pub fn tick_rendered(&self, rendered: Option<String>) -> (r: Vec<Text>)
        ensures
            r@.len() == 1,
            r@[0].attr == self.attr,
            r@[0].stretch == false,
            r@[0].markup == true,
            r@[0].text@ == match rendered {
                Some(s) => s@,
                None => Seq::<char>::empty(),
            },
    {
        let text = match rendered {
            Some(s) => s,
            None => String::new(),
        };
        let mut r: Vec<Text> = Vec::new();
        r.push(Text { attr: self.attr.clone(), text, stretch: false, markup: true });
        r
    }

    /// One frame batch for the given wall-clock reading: a single
    /// markup frame holding the rendered time, or empty text where
    /// chrono rejects the reading or the format string.
    pub fn tick_at(&self, now: &LocalTime) -> (r: Vec<Text>)
        ensures
            r@.len() == 1,
            r@[0].attr == self.attr,
            r@[0].stretch == false,
            r@[0].markup == true,
            ({
                let rendered = formatted_time(
                    now.year as int,
                    now.month as int,
                    now.day as int,
                    now.hour as int,
                    now.minute as int,
                    now.second as int,
                    now.nanosecond as int,
                    now.offset_seconds as int,
                    clock_format_spec(self.format_str),
                );
                r@[0].text@ == rendered || r@[0].text@ == Seq::<char>::empty()
            }),
    {
        let formatted = match &self.format_str {
            Some(f) => format_local(now, f.as_str()),
            None => format_local(now, "%Y-%m-%d %a %I:%M %p"),
        };
        self.tick_rendered(formatted)
    }

    /// One frame batch for the current wall-clock reading.
    pub fn tick(&self) -> (r: Vec<Text>)
        ensures
            r@.len() == 1,
            r@[0].attr == self.attr,
            r@[0].stretch == false,
            r@[0].markup == true,
    {
        let now = local_now();
        self.tick_at(&now)
    }

    /// The wait from `now` until this clock's next boundary: the
    /// duration function handed to the adaptive ticker.
    pub fn wait_for_boundary(now: &LocalTime) -> (r: u64)
        requires
            now.wf(),
        ensures
            r == P::boundary_wait_spec(*now),
            0 < r <= 90_000_000_000_000,
    {
        P::boundary_wait(now)
    }
}

} // verus!
