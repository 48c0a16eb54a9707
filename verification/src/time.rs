//! Instants of time, as the engine compares and records them.

use vstd::prelude::*;

verus! {

/// The first second that the calendar can represent, counted from the Unix epoch.
pub const EARLIEST_SECOND: i64 = -8_334_601_228_800;

/// The last second that the calendar can represent, counted from the Unix epoch.
pub const LATEST_SECOND: i64 = 8_210_266_876_799;

/// One more than the largest count of nanoseconds within a second. Counts from
/// one thousand million on stand for a leap second.
pub const NANOS_LIMIT: u32 = 2_000_000_000;

/// The count of nanoseconds from which on a second is a leap second.
pub const LEAP_NANOS: u32 = 1_000_000_000;

/// Whether the calendar can represent the instant `nanos` nanoseconds after
/// second `secs` of the Unix epoch. A leap second only follows the 59th second
/// of a minute.
pub open spec fn representable(secs: int, nanos: int) -> bool {
    &&& EARLIEST_SECOND <= secs <= LATEST_SECOND
    &&& 0 <= nanos < NANOS_LIMIT
    &&& (nanos >= LEAP_NANOS ==> secs % 60 == 59)
}

/// An instant of time: seconds since the Unix epoch and nanoseconds within
/// the second. Instants are ordered by the second, then by the nanoseconds.
/// Every value is an instant that the calendar can represent.
#[derive(Clone, Copy, Debug, PartialEq, Eq, Structural)]
pub struct Timestamp {
    secs: i64,
    nanos: u32,
}

impl View for Timestamp {
    type V = (int, int);

    /// The seconds since the Unix epoch, and the nanoseconds within the second.
    closed spec fn view(&self) -> (int, int) {
        (self.secs as int, self.nanos as int)
    }
}

/// The texts in which an instant is shown in local time.
#[derive(Clone, Copy, Debug, PartialEq, Eq, Structural)]
pub enum DatePattern {
    /// As in "March 05, 2024 at 4:07 PM".
    Since,
    /// As in "March 5, 2024 at 4:07 PM".
    Release,
    /// As in "16:07:09 03/05/24".
    Stamp,
}

impl DatePattern {
    /// The pattern, in the calendar's notation.
    pub open spec fn notation(self) -> Seq<char> {
        match self {
            DatePattern::Since => "%B %d, %Y at %-l:%M %p"@,
            DatePattern::Release => "%B %-e, %Y at %-l:%M %p"@,
            DatePattern::Stamp => "%T %D"@,
        }
    }

    /// The pattern, in the calendar's notation.
    pub fn as_str(&self) -> (text: &'static str)
        ensures
            text@ == self.notation(),
    {
        match self {
            DatePattern::Since => "%B %d, %Y at %-l:%M %p",
            DatePattern::Release => "%B %-e, %Y at %-l:%M %p",
            DatePattern::Stamp => "%T %D",
        }
    }
}

/// Whether `pattern` is the notation of one of the date patterns.
pub open spec fn known_pattern(pattern: Seq<char>) -> bool {
    pattern == DatePattern::Since.notation() || pattern == DatePattern::Release.notation()
        || pattern == DatePattern::Stamp.notation()
}

/// The instant that a text in the format of RFC 3339 denotes, as seconds
/// since the Unix epoch and nanoseconds, where the text is in that format.
pub uninterp spec fn rfc3339_instant(text: Seq<char>) -> Option<(i64, u32)>;

/// The instant that a text in the format of RFC 2822 denotes, as seconds
/// since the Unix epoch and nanoseconds, where the text is in that format.
pub uninterp spec fn rfc2822_instant(text: Seq<char>) -> Option<(i64, u32)>;

/// `chrono::DateTime::parse_from_rfc3339`: the result is the instant of the
/// date and time that was parsed, whatever offset the text gave, and nothing
/// where parsing failed.
#[verifier::external_body]
fn read_rfc3339(text: &str) -> (parts: Option<(i64, u32)>)
    ensures
        parts == rfc3339_instant(text@),
{
    match chrono::DateTime::parse_from_rfc3339(text) {
        Ok(parsed) => Some((parsed.timestamp(), parsed.timestamp_subsec_nanos())),
        Err(_) => None,
    }
}

/// `chrono::DateTime::parse_from_rfc2822`: the result is the instant of the
/// date and time that was parsed, whatever offset the text gave, and nothing
/// where parsing failed.
#[verifier::external_body]
fn read_rfc2822(text: &str) -> (parts: Option<(i64, u32)>)
    ensures
        parts == rfc2822_instant(text@),
{
    match chrono::DateTime::parse_from_rfc2822(text) {
        Ok(parsed) => Some((parsed.timestamp(), parsed.timestamp_subsec_nanos())),
        Err(_) => None,
    }
}

/// `chrono::Local::now`: the current instant. It is read off the system's
/// clock as the time that has passed since the start of 1970, in whole
/// seconds and a fraction of a second, so it neither lies before that start
/// nor within a leap second; the calendar can represent it, as it can every
/// instant it hands out.
#[verifier::external_body]
fn read_clock() -> (parts: (i64, u32))
    ensures
        representable(parts.0 as int, parts.1 as int),
        0 <= parts.0,
        parts.1 < LEAP_NANOS,
{
    let now = chrono::Local::now();
    (now.timestamp(), now.timestamp_subsec_nanos())
}

/// Whether a time zone can lie so many seconds ahead of Greenwich: less than
/// a day, either way.
pub open spec fn zone_offset(offset: int) -> bool {
    -DAY_SECONDS < offset < DAY_SECONDS
}

/// How the calendar writes an instant after a pattern, for a time zone that
/// lies `offset` seconds ahead of Greenwich.
pub uninterp spec fn written(secs: int, nanos: int, offset: int, pattern: Seq<char>) -> Seq<char>;

/// How the calendar writes an instant in the format of RFC 3339, for a time
/// zone that lies `offset` seconds ahead of Greenwich.
pub uninterp spec fn written_rfc3339(secs: int, nanos: int, offset: int) -> Seq<char>;

/// `chrono::TimeZone::offset_from_utc_datetime` on `chrono::Local`: how many
/// seconds the machine's time zone lies ahead of Greenwich at the instant.
/// That depends on the zone, so the contract claims only what holds of every
/// zone: it is less than a day, either way.
#[verifier::external_body]
fn read_offset(secs: i64, nanos: u32) -> (offset: i32)
    requires
        representable(secs as int, nanos as int),
    ensures
        zone_offset(offset as int),
{
    let instant = chrono::DateTime::from_timestamp(secs, nanos).unwrap().naive_utc();
    let zone = chrono::TimeZone::offset_from_utc_datetime(&chrono::Local, &instant);
    chrono::Offset::fix(&zone).local_minus_utc()
}

/// `chrono::DateTime::format`, on the instant in the time zone that lies
/// `offset` seconds ahead of Greenwich: the text that the calendar writes.
/// The instant must be one that the calendar represents, the zone one that
/// there can be, and the pattern one that the calendar can follow.
#[verifier::external_body]
fn write_at(secs: i64, nanos: u32, offset: i32, pattern: &str) -> (text: String)
    requires
        representable(secs as int, nanos as int),
        zone_offset(offset as int),
        known_pattern(pattern@),
    ensures
        text@ == written(secs as int, nanos as int, offset as int, pattern@),
{
    let zone = chrono::FixedOffset::east_opt(offset).unwrap();
    let instant = chrono::DateTime::from_timestamp(secs, nanos).unwrap().with_timezone(&zone);
    instant.format(pattern).to_string()
}

/// `chrono::DateTime::to_rfc3339`, on the instant in the time zone that lies
/// `offset` seconds ahead of Greenwich: the text that the calendar writes.
#[verifier::external_body]
fn write_rfc3339_at(secs: i64, nanos: u32, offset: i32) -> (text: String)
    requires
        representable(secs as int, nanos as int),
        zone_offset(offset as int),
    ensures
        text@ == written_rfc3339(secs as int, nanos as int, offset as int),
{
    let zone = chrono::FixedOffset::east_opt(offset).unwrap();
    let instant = chrono::DateTime::from_timestamp(secs, nanos).unwrap().with_timezone(&zone);
    instant.to_rfc3339()
}

/// The day that a text names after a pattern, as the number of days since
/// the last day of the year before year 1, where the text names a day.
pub uninterp spec fn date_day(text: Seq<char>, pattern: Seq<char>) -> Option<i32>;

/// The date and time that a text names after a pattern, as the seconds that
/// it lies after the start of 1970 and nanoseconds, where the text names one.
pub uninterp spec fn naive_instant(text: Seq<char>, pattern: Seq<char>) -> Option<(i64, u32)>;

/// `chrono::NaiveDate::parse_from_str`, and `chrono::Datelike::num_days_from_ce`
/// on what it gives: the day that was parsed, and nothing where parsing failed.
#[verifier::external_body]
fn read_date(text: &str, pattern: &str) -> (day: Option<i32>)
    ensures
        day == date_day(text@, pattern@),
{
    match chrono::NaiveDate::parse_from_str(text, pattern) {
        Ok(date) => Some(chrono::Datelike::num_days_from_ce(&date)),
        Err(_) => None,
    }
}

/// `chrono::NaiveDateTime::parse_from_str`: the date and time that was
/// parsed, and nothing where parsing failed.
#[verifier::external_body]
pub(crate) fn read_naive(text: &str, pattern: &str) -> (parts: Option<(i64, u32)>)
    ensures
        parts == naive_instant(text@, pattern@),
{
    match chrono::NaiveDateTime::parse_from_str(text, pattern) {
        Ok(parsed) => Some(
            (parsed.and_utc().timestamp(), parsed.and_utc().timestamp_subsec_nanos()),
        ),
        Err(_) => None,
    }
}

/// The instants at which the clocks of a time zone show one date and time:
/// none where the clocks are put forward past it, one as a rule, and two
/// where the clocks are put back to it. Each instant is given as seconds
/// since the Unix epoch and nanoseconds.
#[derive(Clone, Copy, Debug, PartialEq, Eq, Structural)]
pub enum Shown {
    Never,
    Once(i64, u32),
    Twice(i64, u32, i64, u32),
}

/// Whether `instant` can be an instant at which the clocks of a time zone
/// show the date and time that lies `secs` seconds and `nanos` nanoseconds
/// after the start of 1970: it has the same fraction of a second, and lies
/// less than a day from where Greenwich has that date and time.
pub open spec fn shown_at(secs: int, nanos: int, instant: (int, int)) -> bool {
    instant.1 == nanos && zone_offset(secs - instant.0)
}

/// Whether the instants of `shown` can be those at which the clocks of a time
/// zone show the date and time that lies `secs` seconds and `nanos`
/// nanoseconds after the start of 1970.
pub open spec fn shown_in_zone(secs: int, nanos: int, shown: Shown) -> bool {
    match shown {
        Shown::Never => true,
        Shown::Once(s, n) => shown_at(secs, nanos, (s as int, n as int)),
        Shown::Twice(s, n, t, m) => shown_at(secs, nanos, (s as int, n as int)) && shown_at(
            secs,
            nanos,
            (t as int, m as int),
        ),
    }
}

/// The start of the day that holds the instant `now` seconds after the Unix
/// epoch, on clocks that are `offset` seconds ahead of Greenwich: the seconds
/// that lie between the start of 1970 and the start of that day, both as
/// those clocks show them.
pub open spec fn local_day(now: int, offset: int) -> int {
    (now + offset) - (now + offset) % (DAY_SECONDS as int)
}

/// `chrono::TimeZone::from_local_datetime` on `chrono::Local`: the instants at
/// which the clocks of the machine's time zone show the given date and time.
/// Which they are depends on that zone, so the contract claims only what
/// holds of every zone: each is the date and time less what the zone lies
/// ahead of Greenwich, which is less than a day, either way.
#[verifier::external_body]
fn read_wall_clock(secs: i64, nanos: u32) -> (shown: Shown)
    requires
        representable(secs as int, nanos as int),
    ensures
        shown_in_zone(secs as int, nanos as int, shown),
{
    let local = chrono::DateTime::from_timestamp(secs, nanos).unwrap().naive_utc();
    match chrono::TimeZone::from_local_datetime(&chrono::Local, &local) {
        chrono::MappedLocalTime::None => Shown::Never,
        chrono::MappedLocalTime::Single(only) => Shown::Once(
            only.timestamp(),
            only.timestamp_subsec_nanos(),
        ),
        chrono::MappedLocalTime::Ambiguous(first, second) => Shown::Twice(
            first.timestamp(),
            first.timestamp_subsec_nanos(),
            second.timestamp(),
            second.timestamp_subsec_nanos(),
        ),
    }
}

/// The number that the calendar gives the first day of 1970, counting days
/// from the last day of the year before year 1.
pub const EPOCH_DAY: i64 = 719_163;

/// The seconds of a day.
pub const DAY_SECONDS: i64 = 86_400;

impl Timestamp {
    #[verifier::type_invariant]
    spec fn inv(self) -> bool {
        representable(self.secs as int, self.nanos as int)
    }

    /// The instant `nanos` nanoseconds after second `secs`.
    pub closed spec fn at(secs: int, nanos: int) -> Timestamp {
        Timestamp { secs: secs as i64, nanos: nanos as u32 }
    }

    /// The instant that `parts` gives as seconds and nanoseconds, where the
    /// calendar can represent it.
    pub open spec fn of_parts(parts: Option<(i64, u32)>) -> Option<Timestamp> {
        match parts {
            Some((secs, nanos)) => if representable(secs as int, nanos as int) {
                Some(Timestamp::at(secs as int, nanos as int))
            } else {
                None
            },
            None => None,
        }
    }

    /// Whether this instant lies strictly before `other`.
    pub open spec fn before(self, other: Timestamp) -> bool {
        self@.0 < other@.0 || (self@.0 == other@.0 && self@.1 < other@.1)
    }

    /// Whether this instant lies before `other` or is the same instant.
    pub open spec fn at_or_before(self, other: Timestamp) -> bool {
        !other.before(self)
    }

    /// An instant is known by its seconds and nanoseconds.
    pub proof fn lemma_view_of_at(secs: int, nanos: int)
        requires
            representable(secs, nanos),
        ensures
            Timestamp::at(secs, nanos)@ == (secs, nanos),
    {
    }

    /// Two instants with the same seconds and nanoseconds are the same.
    pub proof fn lemma_same_view_same_instant(a: Timestamp, b: Timestamp)
        requires
            a@ == b@,
        ensures
            a == b,
    {
    }

    /// The instant `nanos` nanoseconds after second `secs`, where the calendar
    /// can represent it.
    pub fn new(secs: i64, nanos: u32) -> (made: Option<Timestamp>)
        ensures
            made == Timestamp::of_parts(Some((secs, nanos))),
            made matches Some(t) ==> t@ == (secs as int, nanos as int),
    {
        if secs < EARLIEST_SECOND || secs > LATEST_SECOND || nanos >= NANOS_LIMIT {
            return None;
        }
        if nanos >= LEAP_NANOS {
            match secs.checked_rem_euclid(60) {
                Some(59) => {},
                _ => {
                    return None;
                },
            }
        }
        Some(Timestamp { secs, nanos })
    }

    /// The instant that `parts` gives, where it gives one that the calendar
    /// can represent.
    pub fn from_parts(parts: Option<(i64, u32)>) -> (made: Option<Timestamp>)
        ensures
            made == Timestamp::of_parts(parts),
    {
        match parts {
            Some((secs, nanos)) => Timestamp::new(secs, nanos),
            None => None,
        }
    }

    /// The current instant, as the system's clock has it: the clock counts
    /// from the start of 1970, and knows no leap second.
    pub fn now() -> (now: Timestamp)
        ensures
            0 <= now@.0,
            now@.1 < LEAP_NANOS,
    {
        let (secs, nanos) = read_clock();
        Timestamp { secs, nanos }
    }

    /// The instant that `text` denotes in the format of RFC 3339.
    pub fn parse_rfc3339(text: &str) -> (parsed: Option<Timestamp>)
        ensures
            parsed == Timestamp::of_parts(rfc3339_instant(text@)),
    {
        Timestamp::from_parts(read_rfc3339(text))
    }

    /// The instant that `text` denotes in the format of RFC 2822.
    pub fn parse_rfc2822(text: &str) -> (parsed: Option<Timestamp>)
        ensures
            parsed == Timestamp::of_parts(rfc2822_instant(text@)),
    {
        Timestamp::from_parts(read_rfc2822(text))
    }

    /// The instant that is the only one of `shown`, where there is one, and
    /// only one, that the calendar can represent.
    pub open spec fn only_of(shown: Shown) -> Option<Timestamp> {
        match shown {
            Shown::Once(secs, nanos) => Timestamp::of_parts(Some((secs, nanos))),
            _ => None,
        }
    }

    /// The instant that is the first of `shown`, where there is one that the
    /// calendar can represent.
    pub open spec fn first_of(shown: Shown) -> Option<Timestamp> {
        match shown {
            Shown::Never => None,
            Shown::Once(secs, nanos) => Timestamp::of_parts(Some((secs, nanos))),
            Shown::Twice(secs, nanos, _, _) => Timestamp::of_parts(Some((secs, nanos))),
        }
    }

    /// The instant that is the only one of `shown`.
    pub fn only(shown: Shown) -> (instant: Option<Timestamp>)
        ensures
            instant == Timestamp::only_of(shown),
    {
        match shown {
            Shown::Once(secs, nanos) => Timestamp::new(secs, nanos),
            _ => None,
        }
    }

    /// The instant that is the first of `shown`.
    pub fn first(shown: Shown) -> (instant: Option<Timestamp>)
        ensures
            instant == Timestamp::first_of(shown),
    {
        match shown {
            Shown::Never => None,
            Shown::Once(secs, nanos) => Timestamp::new(secs, nanos),
            Shown::Twice(secs, nanos, _, _) => Timestamp::new(secs, nanos),
        }
    }

    /// The instant at which the clocks of the machine's time zone show the
    /// date and time that `text` gives after `pattern`. There is one only
    /// where the text gives a date and time that the calendar can represent,
    /// and where the clocks show it once, and not twice. Which instant it is
    /// depends on the zone; in every zone it has the fraction of a second
    /// that the text gives, and lies less than a day from where Greenwich has
    /// that date and time.
    pub(crate) fn parse_local(text: &str, pattern: &str) -> (parsed: Option<Timestamp>)
        ensures
            parsed matches Some(instant) ==> naive_instant(text@, pattern@) matches Some(given)
                && representable(given.0 as int, given.1 as int) && shown_at(
                given.0 as int,
                given.1 as int,
                instant@,
            ),
    {
        match read_naive(text, pattern) {
            Some((secs, nanos)) => match Timestamp::new(secs, nanos) {
                Some(_) => Timestamp::only(read_wall_clock(secs, nanos)),
                None => None,
            },
            None => None,
        }
    }

    /// The seconds that separate the start of the day with the number `day`
    /// from the start of 1970.
    pub open spec fn day_start(day: i32) -> int {
        (day - EPOCH_DAY) * DAY_SECONDS
    }

    /// The instant a day before this one, where the calendar can represent it.
    pub open spec fn spec_day_before(self) -> Option<Timestamp> {
        if representable(self@.0 - DAY_SECONDS, self@.1) {
            Some(Timestamp::at(self@.0 - DAY_SECONDS, self@.1))
        } else {
            None
        }
    }

    /// The instant a day before this one, where the calendar can represent it.
    pub fn day_before(&self) -> (earlier: Option<Timestamp>)
        ensures
            earlier == self.spec_day_before(),
    {
        proof {
            use_type_invariant(self);
        }
        Timestamp::new(self.secs - DAY_SECONDS, self.nanos)
    }

    /// The day that `text` names after `pattern`, as the seconds that separate
    /// its start from the start of 1970.
    pub fn parse_day(text: &str, pattern: &str) -> (start: Option<i64>)
        ensures
            start is Some <==> date_day(text@, pattern@) is Some,
            start matches Some(secs) ==> secs == Timestamp::day_start(date_day(text@, pattern@)->0),
    {
        match read_date(text, pattern) {
            Some(day) => {
                let day: i64 = day as i64;
                Some((day - EPOCH_DAY) * DAY_SECONDS)
            },
            None => None,
        }
    }

    /// The instant at which the clocks of the machine's time zone show the
    /// date and time that lies `secs` seconds and `nanos` nanoseconds after
    /// the start of 1970, and the first that the calendar names where they
    /// show it twice. There is none where the calendar cannot represent that
    /// date and time. Which instant it is depends on the zone; in every zone
    /// it has the same fraction of a second, and lies less than a day from
    /// where Greenwich has that date and time.
    pub(crate) fn first_local(secs: i64, nanos: u32) -> (instant: Option<Timestamp>)
        ensures
            !representable(secs as int, nanos as int) ==> instant is None,
            instant matches Some(first) ==> shown_at(secs as int, nanos as int, first@),
    {
        match Timestamp::new(secs, nanos) {
            Some(_) => Timestamp::first(read_wall_clock(secs, nanos)),
            None => None,
        }
    }

    /// The start of the day that holds this instant, on clocks that are
    /// `offset` seconds ahead of Greenwich.
    pub fn day_start_at(&self, offset: i32) -> (start: i64)
        ensures
            start == local_day(self@.0, offset as int),
    {
        proof {
            use_type_invariant(self);
        }
        let offset: i64 = offset as i64;
        let local: i64 = self.secs + offset;
        match local.checked_rem_euclid(DAY_SECONDS) {
            Some(passed) => local - passed,
            None => local,
        }
    }

    /// The instant at which the current day began in the machine's time
    /// zone: the instant at which the clocks of that zone showed, once, the
    /// start of the day that they show now. There is none where they did not
    /// show it, or showed it twice. The current instant and the zone depend
    /// on the machine, so the contract leaves both open.
    pub(crate) fn local_midnight() -> (midnight: Option<Timestamp>)
        ensures
            midnight matches Some(instant) ==> exists|now: int, offset: int|
                0 <= now && zone_offset(offset) && #[trigger] shown_at(
                    local_day(now, offset),
                    0,
                    instant@,
                ),
    {
        let now = Timestamp::now();
        proof {
            use_type_invariant(&now);
        }
        let offset = read_offset(now.secs, now.nanos);
        let start = now.day_start_at(offset);
        match Timestamp::new(start, 0) {
            Some(_) => {
                let midnight = Timestamp::only(read_wall_clock(start, 0));
                proof {
                    if midnight is Some {
                        assert(shown_at(local_day(now@.0, offset as int), 0, midnight->0@));
                    }
                }
                midnight
            },
            None => None,
        }
    }

    /// The seconds since the Unix epoch.
    pub fn secs(&self) -> (secs: i64)
        ensures
            secs == self@.0,
    {
        self.secs
    }

    /// The nanoseconds within the second.
    pub fn nanos(&self) -> (nanos: u32)
        ensures
            nanos == self@.1,
    {
        self.nanos
    }

    /// Whether this instant lies strictly before `other`.
    pub fn is_before(&self, other: &Timestamp) -> (earlier: bool)
        ensures
            earlier == self.before(*other),
    {
        self.secs < other.secs || (self.secs == other.secs && self.nanos < other.nanos)
    }

    /// This instant in the machine's local time, written after `pattern`:
    /// what the calendar writes for the time zone of the machine. How far
    /// that zone lies ahead of Greenwich depends on the machine, so the
    /// contract leaves that open.
    pub fn local_text(&self, pattern: DatePattern) -> (text: String)
        ensures
            exists|offset: int|
                zone_offset(offset) && text@ == #[trigger] written(
                    self@.0,
                    self@.1,
                    offset,
                    pattern.notation(),
                ),
    {
        proof {
            use_type_invariant(self);
        }
        let offset = read_offset(self.secs, self.nanos);
        let text = write_at(self.secs, self.nanos, offset, pattern.as_str());
        proof {
            assert(text@ == written(self@.0, self@.1, offset as int, pattern.notation()));
        }
        text
    }

    /// This instant in the machine's local time, in the format of RFC 3339:
    /// what the calendar writes for the time zone of the machine. How far
    /// that zone lies ahead of Greenwich depends on the machine, so the
    /// contract leaves that open.
    pub(crate) fn local_rfc3339(&self) -> (text: String)
        ensures
            exists|offset: int|
                zone_offset(offset) && text@ == #[trigger] written_rfc3339(
                    self@.0,
                    self@.1,
                    offset,
                ),
    {
        proof {
            use_type_invariant(self);
        }
        let offset = read_offset(self.secs, self.nanos);
        let text = write_rfc3339_at(self.secs, self.nanos, offset);
        proof {
            assert(text@ == written_rfc3339(self@.0, self@.1, offset as int));
        }
        text
    }
}

} // verus!
