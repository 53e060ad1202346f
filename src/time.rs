//! Instants in time, as signed seconds since the Unix epoch, and their labels.
use vstd::prelude::*;
use vstd::string::*;
use chrono::TimeZone;
use chrono::Timelike;
use crate::text::{decimal, decimal_of, join, pad_minute, two_digits};

verus! {

/// Seconds in seven days: instants older than this get no clock label.
pub const SECONDS_IN_WEEK: i64 = 604800;

/// The instants that the local calendar places: within this many seconds of the
/// epoch (about 250,000 years), far enough inside the calendar's own range that
/// no time zone offset carries a date past its ends.
pub const CALENDAR_LIMIT: i64 = 8_000_000_000_000;

/// Whether the local calendar can place the instant.
pub open spec fn in_calendar(secs: int) -> bool {
    -CALENDAR_LIMIT <= secs <= CALENDAR_LIMIT
}

/// An instant, in whole seconds since the Unix epoch.
#[derive(Clone, Copy, Debug, PartialEq, Eq, Structural, PartialOrd, Ord)]
pub struct TimeDate {
    pub epoch_time: i64,
}

/// The clock label `H:MM`: the hour without padding, the minute on two digits.
pub open spec fn clock_label(hour: nat, minute: nat) -> Seq<char> {
    decimal_of(hour) + seq![':'] + two_digits(minute)
}

/// The time label of an instant `epoch` seen at `now`, where `clock` is the local
/// hour and minute of the instant (`None` where the calendar cannot place it).
pub open spec fn time_label(epoch: int, now: int, clock: Option<(u32, u32)>) -> Seq<char> {
    if now - epoch > SECONDS_IN_WEEK {
        Seq::empty()
    } else {
        match clock {
            Some(c) => clock_label(c.0 as nat, c.1 as nat),
            None => Seq::empty(),
        }
    }
}

/// A date label followed, where the time label is not empty, by ` @ ` and the time.
pub open spec fn datetime_label(date: Seq<char>, time: Seq<char>) -> Seq<char> {
    if time.len() == 0 {
        date
    } else {
        date + seq![' ', '@', ' '] + time
    }
}

/// A possible result of `format_time`: empty, or a clock label of a real hour.
pub open spec fn is_time_text(t: Seq<char>) -> bool {
    t.len() == 0 || exists|h: nat, m: nat| h < 24 && m < 60 && t == #[trigger] clock_label(h, m)
}

/// Relies on `chrono::Utc::now` and `DateTime::timestamp`: the current instant.
#[verifier::external_body]
fn unix_now() -> (r: i64) {
    chrono::Utc::now().timestamp()
}

/// Relies on `chrono::Local::timestamp_opt` and `Timelike::hour` / `minute`: the
/// local hour (0 to 23) and minute (0 to 59) of an instant. Within the bound,
/// `timestamp_opt` finds the instant (`DateTime::from_timestamp` succeeds) and
/// gives a single result.
#[verifier::external_body]
fn local_clock(secs: i64) -> (r: Option<(u32, u32)>)
    requires
        in_calendar(secs as int),
    ensures
        r.is_some(),
        r matches Some(c) ==> c.0 < 24 && c.1 < 60,
{
    match chrono::Local.timestamp_opt(secs, 0) {
        chrono::LocalResult::Single(t) => Some((t.hour(), t.minute())),
        chrono::LocalResult::Ambiguous(t, _) => Some((t.hour(), t.minute())),
        chrono::LocalResult::None => None,
    }
}

/// Relies on `chrono::Local::timestamp_opt`, `DateTime::date_naive` and the
/// `Display` of `NaiveDate`: the local calendar date of an instant as
/// `YYYY-MM-DD` (a sign and more digits for years beyond 9999 or before 0).
/// Within the bound `timestamp_opt` gives a single result, and the local date
/// stays inside `NaiveDate`'s range, so `date_naive` does not panic.
#[verifier::external_body]
fn local_date(secs: i64) -> (r: Option<String>)
    requires
        in_calendar(secs as int),
    ensures
        r.is_some(),
        r matches Some(s) ==> s@.len() >= 10,
{
    match chrono::Local.timestamp_opt(secs, 0) {
        chrono::LocalResult::Single(t) => Some(t.date_naive().to_string()),
        chrono::LocalResult::Ambiguous(t, _) => Some(t.date_naive().to_string()),
        chrono::LocalResult::None => None,
    }
}

/// The label `H:MM` of a clock reading.
pub fn clock_text(hour: u32, minute: u32) -> (r: String)
    ensures
        r@ == clock_label(hour as nat, minute as nat),
{
    let h = decimal(hour as u64);
    let colon = ":";
    proof {
        reveal_strlit(":");
    }
    let with_colon = join(h, colon);
    let m = pad_minute(minute);
    let r = join(with_colon, m.as_str());
    assert(r@ =~= clock_label(hour as nat, minute as nat));
    r
}

/// Joins a date label and a time label as `format_datetime` does.
pub fn join_datetime(date: String, time: String) -> (r: String)
    ensures
        r@ == datetime_label(date@, time@),
{
    if time.as_str().unicode_len() == 0 {
        date
    } else {
        let sep = " @ ";
        proof {
            reveal_strlit(" @ ");
        }
        let d = join(date, sep);
        let r = join(d, time.as_str());
        assert(r@ =~= datetime_label(date@, time@));
        r
    }
}

impl TimeDate {
    pub fn from_epoch(secs: i64) -> (r: TimeDate)
        ensures
            r.epoch_time == secs,
    {
        TimeDate { epoch_time: secs }
    }

    /// The current instant.
    pub fn now() -> (r: TimeDate) {
        TimeDate { epoch_time: unix_now() }
    }

    pub fn epoch_time(&self) -> (r: i64)
        ensures
            r == self.epoch_time,
    {
        self.epoch_time
    }

    /// The time label of this instant as seen at `now`, given its local clock
    /// reading: empty when the instant lies more than a week before `now`.
    pub fn format_time_at(&self, now: i64, clock: Option<(u32, u32)>) -> (r: String)
        ensures
            r@ == time_label(self.epoch_time as int, now as int, clock),
    {
        if (now as i128) - (self.epoch_time as i128) > SECONDS_IN_WEEK as i128 {
            return String::new();
        }
        match clock {
            Some(c) => clock_text(c.0, c.1),
            None => String::new(),
        }
    }

    /// The local calendar date, or an empty label where the calendar cannot place
    /// the instant.
    pub fn format_date(&self) -> (r: String)
        ensures
            in_calendar(self.epoch_time as int) ==> r@.len() >= 10,
            !in_calendar(self.epoch_time as int) ==> r@.len() == 0,
    {
        if self.epoch_time < -CALENDAR_LIMIT || self.epoch_time > CALENDAR_LIMIT {
            return String::new();
        }
        match local_date(self.epoch_time) {
            Some(s) => s,
            None => String::new(),
        }
    }

    /// The local `H:MM` of this instant, or empty when it is more than a week old
    /// or the calendar cannot place it.
    pub fn format_time(&self) -> (r: String)
        ensures
            is_time_text(r@),
            !in_calendar(self.epoch_time as int) ==> r@.len() == 0,
    {
        let now = unix_now();
        if (now as i128) - (self.epoch_time as i128) > SECONDS_IN_WEEK as i128 {
            return String::new();
        }
        if self.epoch_time < -CALENDAR_LIMIT || self.epoch_time > CALENDAR_LIMIT {
            return String::new();
        }
        let clock = local_clock(self.epoch_time);
        let r = self.format_time_at(now, clock);
        proof {
            if let Some(c) = clock {
                assert(r@ == clock_label(c.0 as nat, c.1 as nat));
            }
        }
        r
    }

    /// The date label, followed by ` @ ` and the time label where that is not empty.
    pub fn format_datetime(&self) -> (r: String)
        ensures
            exists|d: Seq<char>, t: Seq<char>|
                (in_calendar(self.epoch_time as int) ==> d.len() >= 10)
                && (!in_calendar(self.epoch_time as int) ==> d.len() == 0 && t.len() == 0)
                && is_time_text(t) && r@ == #[trigger] datetime_label(d, t),
    {
        let time = self.format_time();
        let date = self.format_date();
        let ghost (d, t) = (date@, time@);
        let r = join_datetime(date, time);
        assert(r@ == datetime_label(d, t));
        r
    }
}

/// The week boundary of the time label: an instant 604801 seconds before `now`
/// gets an empty label, one 604800 or 604799 seconds before `now` gets its
/// non-empty `H:MM` label.
pub proof fn lemma_week_boundary(epoch: int, clock: Option<(u32, u32)>, hour: u32, minute: u32)
    requires
        hour < 24,
        minute < 60,
    ensures
        time_label(epoch, epoch + 604801, clock) == Seq::<char>::empty(),
        time_label(epoch, epoch + 604800, Some((hour, minute))) == clock_label(hour as nat, minute as nat),
        time_label(epoch, epoch + 604799, Some((hour, minute))) == clock_label(hour as nat, minute as nat),
        clock_label(hour as nat, minute as nat).len() > 0,
{
    let l = clock_label(hour as nat, minute as nat);
    assert(l[decimal_of(hour as nat).len() as int] == ':');
}

} // verus!
