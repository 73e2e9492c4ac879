//! Moments in time, read from user input and shown in local time.
use vstd::prelude::*;

use chrono::{DateTime, FixedOffset, Local, NaiveDateTime, TimeZone};

use crate::style::{paint, painted, TermColour};
use crate::util::{invalid_input_error, Displayed, InputError};

verus! {

/// Whether `chrono`'s `DateTime::from_timestamp` accepts `secs` seconds and
/// `nanos` nanoseconds after the Unix epoch (it refuses dates out of its range
/// and nanoseconds that make no valid time of day).
pub uninterp spec fn chrono_timestamp(secs: i64, nanos: u32) -> bool;

/// The date and time that `chrono`'s `NaiveDateTime::parse_from_str` reads from
/// `input` with the format `format`, if it reads one: the seconds after the
/// Unix epoch of that date and time taken at UTC, and the nanoseconds after
/// that second (a leap second, typed as second 60, gives 10^9 or more).
pub uninterp spec fn parsed_naive(input: Seq<char>, format: Seq<char>) -> Option<(i64, u32)>;

/// The moment `i`, read in the local time where it was recorded, is the date
/// and time `local` (as [`parsed_naive`] gives it): the same second and
/// nanoseconds, the time zone's offset aside.
pub open spec fn reads_locally_as(i: Instant, local: (i64, u32)) -> bool {
    i.secs() + i.offset() == local.0 && i.subsec_nanos() == local.1
}

/// The text that `chrono` formats for the moment `secs`, `nanos` after the Unix
/// epoch, seen at `utc_offset` seconds east of UTC, with the format `format`.
pub uninterp spec fn local_time_text(secs: i64, nanos: u32, utc_offset: i32, format: Seq<char>) -> Seq<
    char,
>;

/// A moment in time, recorded together with the UTC offset of the place where
/// it was recorded. Moments are ordered by the time they stand for alone.
#[derive(Clone, Copy, Debug)]
pub struct Instant {
    timestamp: i64,
    nanos: u32,
    utc_offset: i32,
}

/// The format that moments are shown with.
pub open spec fn shown_format() -> Seq<char> {
    "%a %b %-d, %Y at %-I:%M:%S %P"@
}

/// The format of a date and time typed by the user.
pub open spec fn input_format() -> Seq<char> {
    "%F %-H:%M:%S"@
}

impl Instant {
    /// The parts stand for a date and time that `chrono` can represent.
    #[verifier::type_invariant]
    spec fn wf(self) -> bool {
        chrono_timestamp(self.timestamp, self.nanos) && -86_400 < self.utc_offset < 86_400
    }

    /// Seconds after the Unix epoch (leap seconds not counted).
    pub closed spec fn secs(self) -> i64 {
        self.timestamp
    }

    /// Nanoseconds after `secs` (a leap second makes them 10^9 or more).
    pub closed spec fn subsec_nanos(self) -> u32 {
        self.nanos
    }

    /// Seconds east of UTC of the place where the moment was recorded.
    pub closed spec fn offset(self) -> i32 {
        self.utc_offset
    }

    /// Seconds after the Unix epoch.
    pub fn timestamp(&self) -> (r: i64)
        ensures
            r == self.secs(),
    {
        self.timestamp
    }

    /// Nanoseconds after the last whole second.
    pub fn timestamp_subsec_nanos(&self) -> (r: u32)
        ensures
            r == self.subsec_nanos(),
    {
        self.nanos
    }

    /// Seconds east of UTC where the moment was recorded.
    pub fn utc_offset(&self) -> (r: i32)
        ensures
            r == self.offset(),
    {
        self.utc_offset
    }

    /// The moment `secs` seconds and `nanos` nanoseconds after the Unix epoch,
    /// recorded at `utc_offset` seconds east of UTC, if `chrono` can represent it.
    pub fn from_parts(secs: i64, nanos: u32, utc_offset: i32) -> (r: Option<Instant>)
        ensures
            r is Some <==> chrono_timestamp(secs, nanos) && -86_400 < utc_offset < 86_400,
            r matches Some(i) ==> i.secs() == secs && i.subsec_nanos() == nanos && i.offset()
                == utc_offset,
    {
        if -86_400 < utc_offset && utc_offset < 86_400 && chrono_accepts(secs, nanos) {
            Some(Instant { timestamp: secs, nanos, utc_offset })
        } else {
            None
        }
    }

    /// The same moment, recorded at UTC.
    pub fn to_utc(&self) -> (r: Instant)
        ensures
            r.secs() == self.secs(),
            r.subsec_nanos() == self.subsec_nanos(),
            r.offset() == 0,
    {
        proof {
            use_type_invariant(self);
        }
        Instant { timestamp: self.timestamp, nanos: self.nanos, utc_offset: 0 }
    }
}

/// `a` is no later than `b`.
pub open spec fn instant_le(a: Instant, b: Instant) -> bool {
    a.secs() < b.secs() || (a.secs() == b.secs() && a.subsec_nanos() <= b.subsec_nanos())
}

impl Instant {
    /// Whether this moment is no later than `other`.
    pub fn is_no_later_than(&self, other: &Instant) -> (r: bool)
        ensures
            r == instant_le(*self, *other),
    {
        self.timestamp < other.timestamp || (self.timestamp == other.timestamp && self.nanos
            <= other.nanos)
    }
}

/// Calls `chrono`'s `DateTime::from_timestamp` and says whether it accepts the
/// parts; the answer stands under the name [`chrono_timestamp`].
#[verifier::external_body]
fn chrono_accepts(secs: i64, nanos: u32) -> (b: bool)
    ensures
        b == chrono_timestamp(secs, nanos),
{
    DateTime::from_timestamp(secs, nanos).is_some()
}

/// Calls `chrono`'s `NaiveDateTime::parse_from_str` and hands back the date and
/// time it reads as plain values (`and_utc`, then `timestamp` and
/// `timestamp_subsec_nanos`); they stand under the name [`parsed_naive`].
/// `chrono` documents a format that gives too few fields as an error, so `%F`,
/// a date with no time of day, reads no input.
#[verifier::external_body]
pub(crate) fn parse_naive(input: &str, format: &str) -> (r: Option<(i64, u32)>)
    ensures
        r == parsed_naive(input@, format@),
        format@ == "%F"@ ==> r is None,
{
    match NaiveDateTime::parse_from_str(input, format) {
        Ok(ndt) => Some((ndt.and_utc().timestamp(), ndt.and_utc().timestamp_subsec_nanos())),
        Err(_) => None,
    }
}

/// Calls `chrono`'s `Local.from_local_datetime` on the local date and time
/// `local_secs`, `nanos` (rebuilt with `DateTime::from_timestamp` and
/// `naive_utc`) and, when it stands for exactly one moment, hands back that
/// moment's parts: its `timestamp`, its `timestamp_subsec_nanos` and its
/// offset's `local_minus_utc`. Whether there is one depends on the machine's
/// time zone and is not stated. `chrono` builds the moment by taking the zone's
/// offset (a `FixedOffset`, always less than a day) from the local date and
/// time and keeps the nanoseconds, so the parts read at their offset are the
/// local date and time given. The nanoseconds of a leap second are kept even
/// where the offset moves the second away from 59, so `from_timestamp` need not
/// accept the parts again; nothing is said of that here.
#[verifier::external_body]
pub(crate) fn local_single(local_secs: i64, nanos: u32) -> (r: Option<(i64, u32, i32)>)
    ensures
        r matches Some((s, n, o)) ==> s + o == local_secs && n == nanos && -86_400 < o < 86_400,
{
    let ndt = DateTime::from_timestamp(local_secs, nanos)?.naive_utc();
    match Local.from_local_datetime(&ndt).single() {
        Some(dt) => Some((dt.timestamp(), dt.timestamp_subsec_nanos(), dt.offset().local_minus_utc())),
        None => None,
    }
}

/// Calls `chrono`'s `Local::now` and hands back the present moment's parts:
/// its `timestamp`, its `timestamp_subsec_nanos` and its offset's
/// `local_minus_utc`. They are read from the clock and the machine's time
/// zone. `chrono` makes the moment with `DateTime::from_timestamp` from the
/// clock's whole seconds and their nanoseconds, so `from_timestamp` accepts
/// the parts, and a `FixedOffset` is always less than a day.
#[verifier::external_body]
fn now_parts() -> (r: (i64, u32, i32))
    ensures
        chrono_timestamp(r.0, r.1),
        -86_400 < r.2 < 86_400,
{
    let dt = Local::now();
    (dt.timestamp(), dt.timestamp_subsec_nanos(), dt.offset().local_minus_utc())
}

/// The present moment, recorded at the machine's UTC offset.
pub(crate) fn now() -> (r: Instant) {
    let (timestamp, nanos, utc_offset) = now_parts();
    Instant { timestamp, nanos, utc_offset }
}

/// Calls `chrono`'s `DateTime::format` on the moment seen at its own UTC offset
/// and writes the result with `to_string`; the text stands under the name
/// [`local_time_text`]. The format is the one moments are shown with, which
/// holds only specifiers that `chrono` knows, so writing it does not fail.
#[verifier::external_body]
fn format_instant(i: &Instant, format: &str) -> (r: String)
    requires
        format@ == shown_format(),
    ensures
        r@ == local_time_text(i.secs(), i.subsec_nanos(), i.offset(), format@),
{
    let offset = FixedOffset::east_opt(i.utc_offset).unwrap();
    let dt = DateTime::from_timestamp(i.timestamp, i.nanos).unwrap().with_timezone(&offset);
    dt.format(format).to_string()
}

impl Instant {
    /// The text of this moment in the local time where it was recorded.
    pub fn local_text(&self) -> (r: String)
        ensures
            r@ == local_time_text(self.secs(), self.subsec_nanos(), self.offset(), shown_format()),
    {
        format_instant(self, "%a %b %-d, %Y at %-I:%M:%S %P")
    }
}

impl Displayed for Instant {
    /// The moment in the local time where it was recorded, in bright yellow.
    open spec fn display_view(&self) -> Seq<char> {
        painted(
            TermColour::BrightYellow,
            false,
            false,
            local_time_text(self.secs(), self.subsec_nanos(), self.offset(), shown_format()),
        )
    }

    fn display_string(&self) -> (s: String) {
        let text = self.local_text();
        paint(TermColour::BrightYellow, false, false, text.as_str())
    }
}

/// The message for input that is no date and time.
pub open spec fn invalid_datetime_message(input: Seq<char>) -> Seq<char> {
    "invalid date & time: "@ + input
}

/// The message for a local date and time that stands for no single moment.
pub open spec fn ambiguous_datetime_message(input: Seq<char>) -> Seq<char> {
    "this date & time is invalid because it falls on a daylight savings time border: "@ + input
}

impl Instant {
    /// The moment that `input` names in local time, given what the time zone
    /// made of it: `local` holds the parts of the one moment it stands for, if
    /// there is one. Parts that make no moment `chrono` can hold again (a leap
    /// second moved away from second 59 by the zone's offset) are refused as an
    /// invalid date and time.
    pub fn from_local(local: Option<(i64, u32, i32)>, input: &str) -> (r: Result<Instant, InputError>)
        ensures
            match local {
                None => r matches Err(e) && e.message@ == ambiguous_datetime_message(input@),
                Some((s, n, o)) => if chrono_timestamp(s, n) && -86_400 < o < 86_400 {
                    r matches Ok(i) && i.secs() == s && i.subsec_nanos() == n && i.offset() == o
                } else {
                    r matches Err(e) && e.message@ == invalid_datetime_message(input@)
                },
            },
    {
        match local {
            None => {
                let msg = String::from_str(
                    "this date & time is invalid because it falls on a daylight savings time border: ",
                ).concat(input);
                Err(invalid_input_error(msg.as_str()))
            },
            Some((s, n, o)) => match Instant::from_parts(s, n, o) {
                Some(i) => Ok(i),
                None => {
                    let msg = String::from_str("invalid date & time: ").concat(input);
                    Err(invalid_input_error(msg.as_str()))
                },
            },
        }
    }

    /// Reads a date and time typed as `YYYY-MM-DD HH:MM:SS` in local time: the
    /// moment whose local reading is the typed date and time, where the time
    /// zone gives exactly one such moment.
    pub fn from_input(input: &str) -> (r: Result<Instant, InputError>)
        ensures
            match parsed_naive(input@, input_format()) {
                None => r matches Err(e) && e.message@ == invalid_datetime_message(input@),
                Some(local) => match r {
                    Ok(i) => reads_locally_as(i, local),
                    Err(e) => e.message@ == ambiguous_datetime_message(input@) || e.message@
                        == invalid_datetime_message(input@),
                },
            },
    {
        match parse_naive(input, "%F %-H:%M:%S") {
            None => {
                let msg = String::from_str("invalid date & time: ").concat(input);
                Err(invalid_input_error(msg.as_str()))
            },
            Some((secs, nanos)) => Instant::from_local(local_single(secs, nanos), input),
        }
    }
}

} // verus!
