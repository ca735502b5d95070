//! Calendar values as plain numbers, rendered to text through chrono.

use vstd::prelude::*;

verus! {

/// Day number of 0001-01-01 in the proleptic Gregorian calendar.
pub const FIRST_DAY: i32 = 1;

/// Day number of 9999-12-31 in the proleptic Gregorian calendar.
pub const LAST_DAY: i32 = 3652059;

/// Seconds in a day.
pub const SECONDS_PER_DAY: u32 = 86400;

/// Nanoseconds in a second.
pub const NANOS_PER_SECOND: u32 = 1000000000;

/// Text of the date with the given day number (day 1 is 0001-01-01), as chrono prints it.
pub uninterp spec fn date_text_of(days: int) -> Seq<char>;

/// Text of the time of day with the given seconds after midnight and nanoseconds,
/// as chrono prints it.
pub uninterp spec fn time_text_of(secs: int, nano: int) -> Seq<char>;

/// Relies on chrono's `NaiveDate::from_num_days_from_ce_opt`, which is `Some` for every
/// day of the years 1 to 9999, and on `NaiveDate`'s `Display` (`YYYY-MM-DD`), which
/// depends on the date alone.
#[verifier::external_body]
fn chrono_date_text(days: i32) -> (r: String)
    requires
        FIRST_DAY <= days <= LAST_DAY,
    ensures
        r@ == date_text_of(days as int),
{
    chrono::NaiveDate::from_num_days_from_ce_opt(days).unwrap().to_string()
}

/// Relies on chrono's `NaiveTime::from_num_seconds_from_midnight_opt`, which is `Some`
/// whenever `secs < 86400` and `nano < 1_000_000_000`, and on `NaiveTime`'s `Display`
/// (`HH:MM:SS` with a fraction when `nano` is not zero), which depends on the time alone.
#[verifier::external_body]
fn chrono_time_text(secs: u32, nano: u32) -> (r: String)
    requires
        secs < SECONDS_PER_DAY,
        nano < NANOS_PER_SECOND,
    ensures
        r@ == time_text_of(secs as int, nano as int),
{
    chrono::NaiveTime::from_num_seconds_from_midnight_opt(secs, nano).unwrap().to_string()
}

/// A calendar day, held as its day number counted from 0001-01-01 (day 1).
#[derive(Clone, Copy, Debug, PartialEq, Eq)]
pub struct Date {
    days: i32,
}

impl View for Date {
    type V = int;

    closed spec fn view(&self) -> int {
        self.days as int
    }
}

impl Date {
    #[verifier::type_invariant]
    spec fn in_range(self) -> bool {
        FIRST_DAY <= self.days <= LAST_DAY
    }

    /// The date with the given day number, if it lies in the years 1 to 9999.
    pub fn from_days(days: i32) -> (r: Option<Date>)
        ensures
            r is Some <==> FIRST_DAY <= days <= LAST_DAY,
            r matches Some(d) ==> d@ == days as int,
    {
        if FIRST_DAY <= days && days <= LAST_DAY {
            Some(Date { days })
        } else {
            None
        }
    }

    /// The day number.
    pub fn days(&self) -> (r: i32)
        ensures
            r as int == self@,
            FIRST_DAY <= r <= LAST_DAY,
    {
        proof {
            use_type_invariant(self);
        }
        self.days
    }

    /// The date `n` days earlier, if that date is still in range.
    pub fn days_before(&self, n: i32) -> (r: Option<Date>)
        requires
            n >= 0,
        ensures
            r is Some <==> self@ - n >= FIRST_DAY,
            r matches Some(d) ==> d@ == self@ - n,
    {
        let days = self.days();
        Date::from_days(days - n)
    }

    /// The date as text (`YYYY-MM-DD`).
    pub fn text(&self) -> (r: String)
        ensures
            r@ == date_text_of(self@),
    {
        let days = self.days();
        chrono_date_text(days)
    }
}

/// A time of day, held as seconds after midnight and nanoseconds.
#[derive(Clone, Copy, Debug, PartialEq, Eq)]
pub struct TimeOfDay {
    secs: u32,
    nano: u32,
}

/// Seconds and nanoseconds of a time of day.
pub struct TimeParts {
    pub secs: int,
    pub nano: int,
}

impl View for TimeOfDay {
    type V = TimeParts;

    closed spec fn view(&self) -> TimeParts {
        TimeParts { secs: self.secs as int, nano: self.nano as int }
    }
}

impl TimeOfDay {
    #[verifier::type_invariant]
    spec fn in_range(self) -> bool {
        self.secs < SECONDS_PER_DAY && self.nano < NANOS_PER_SECOND
    }

    /// The time `secs` seconds and `nano` nanoseconds after midnight, if both are in range.
    pub fn from_parts(secs: u32, nano: u32) -> (r: Option<TimeOfDay>)
        ensures
            r is Some <==> secs < SECONDS_PER_DAY && nano < NANOS_PER_SECOND,
            r matches Some(t) ==> t@.secs == secs && t@.nano == nano,
    {
        if secs < SECONDS_PER_DAY && nano < NANOS_PER_SECOND {
            Some(TimeOfDay { secs, nano })
        } else {
            None
        }
    }

    /// Seconds after midnight.
    pub fn secs(&self) -> (r: u32)
        ensures
            r as int == self@.secs,
            r < SECONDS_PER_DAY,
    {
        proof {
            use_type_invariant(self);
        }
        self.secs
    }

    /// Nanoseconds within the second.
    pub fn nano(&self) -> (r: u32)
        ensures
            r as int == self@.nano,
            r < NANOS_PER_SECOND,
    {
        proof {
            use_type_invariant(self);
        }
        self.nano
    }

    /// The time as text (`HH:MM:SS`, with a fraction when there are nanoseconds).
    pub fn text(&self) -> (r: String)
        ensures
            r@ == time_text_of(self@.secs, self@.nano),
    {
        let secs = self.secs();
        let nano = self.nano();
        chrono_time_text(secs, nano)
    }
}

/// Text of a date and a time of day: the date, a space, the time.
pub open spec fn date_time_text(date: int, time: TimeParts) -> Seq<char> {
    date_text_of(date) + seq![' '] + time_text_of(time.secs, time.nano)
}

/// A date with a time of day.
#[derive(Clone, Copy, Debug, PartialEq, Eq)]
pub struct DateTime {
    pub date: Date,
    pub time: TimeOfDay,
}

impl DateTime {
    /// The moment as text (`YYYY-MM-DD HH:MM:SS`).
    pub fn text(&self) -> (r: String)
        ensures
            r@ == date_time_text(self.date@, self.time@),
    {
        let d = self.date.text();
        let t = self.time.text();
        let r = d.concat(" ").concat(t.as_str());
        proof {
            reveal_strlit(" ");
        }
        r
    }
}

} // verus!
