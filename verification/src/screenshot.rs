//! Naming a saved frame: a fixed prefix, the local time to the millisecond,
//! and the extension.

use vstd::prelude::*;
use vstd::string::*;

verus! {

/// A calendar date and wall-clock time, to the millisecond.
#[derive(Clone, Copy, Debug, PartialEq, Eq, Structural)]
pub struct Timestamp {
    pub year: i32,
    pub month: u8,
    pub day: u8,
    pub hour: u8,
    pub minute: u8,
    pub second: u8,
    pub millisecond: u16,
}

impl Timestamp {
    /// Whether every field lies in the range of its unit.
    pub open spec fn in_range(self) -> bool {
        &&& 1 <= self.month <= 12
        &&& 1 <= self.day <= 31
        &&& self.hour < 24
        &&& self.minute < 60
        &&& self.second < 60
        &&& self.millisecond < 1000
    }

    /// Whether every field lies in the range of its unit.
    pub fn is_in_range(&self) -> (b: bool)
        ensures
            b == self.in_range(),
    {
        1 <= self.month && self.month <= 12 && 1 <= self.day && self.day <= 31 && self.hour < 24
            && self.minute < 60 && self.second < 60 && self.millisecond < 1000
    }
}

/// Reads the clock with `time::OffsetDateTime::now_utc` and takes the
/// calendar fields of the moment, in UTC, through its methods `year`,
/// `month`, `day`, `hour`, `minute`, `second` and `millisecond`. Nothing is
/// claimed of the moment; the claim is that each field lies in the range
/// that its method documents: the month from 1 to 12, the day from 1 to 31,
/// the hour below 24, minute and second below 60, the millisecond below
/// 1000.
#[verifier::external_body]
fn clock_utc() -> (utc: Timestamp)
    ensures
        utc.in_range(),
{
    let m = time::OffsetDateTime::now_utc();
    Timestamp {
        year: m.year(), month: u8::from(m.month()), day: m.day(),
        hour: m.hour(), minute: m.minute(), second: m.second(),
        millisecond: m.millisecond(),
    }
}

/// Asks the system, with `time::UtcOffset::local_offset_at`, for its offset
/// from UTC at the moment `utc`, in whole seconds
/// (`time::UtcOffset::whole_seconds`); the moment is put together with
/// `time::Date::from_calendar_date`, `time::Time::from_hms_milli` and
/// `time::OffsetDateTime::new_utc`. `None` where the system does not tell,
/// or where `utc` is no date and time. Nothing is claimed of the outcome:
/// it depends on the machine.
#[verifier::external_body]
fn system_offset_at(utc: &Timestamp) -> (seconds: Option<i32>) {
    let month = time::Month::try_from(utc.month).ok()?;
    let date = time::Date::from_calendar_date(utc.year, month, utc.day).ok()?;
    let clock =
        time::Time::from_hms_milli(utc.hour, utc.minute, utc.second, utc.millisecond).ok()?;
    let moment = time::OffsetDateTime::new_utc(date, clock);
    let offset = time::UtcOffset::local_offset_at(moment).ok()?;
    Some(offset.whole_seconds())
}

/// The date and time that `time` gives for a moment in UTC seen from an
/// offset of so many seconds, if it gives one. The arguments are the year,
/// month, day, hour, minute, second and millisecond of the moment in UTC,
/// and the offset in seconds.
pub uninterp spec fn time_shifted(
    year: int,
    month: int,
    day: int,
    hour: int,
    minute: int,
    second: int,
    millisecond: int,
    offset_seconds: int,
) -> Option<Timestamp>;

/// Moves the moment `utc` to an offset of `offset_seconds` from UTC with
/// `time::OffsetDateTime::checked_to_offset`; the offset is made with
/// `time::UtcOffset::from_whole_seconds`, the moment with
/// `time::Date::from_calendar_date`, `time::Time::from_hms_milli` and
/// `time::OffsetDateTime::new_utc`. `None` where one of these refuses: no
/// such date, time or offset, or a date out of range. The claims are that
/// the outcome depends on nothing but the fields and the offset, and that
/// the fields of a moved moment lie in the ranges that their methods
/// document.
#[verifier::external_body]
fn shift(utc: &Timestamp, offset_seconds: i32) -> (moved: Option<Timestamp>)
    ensures
        moved == time_shifted(
            utc.year as int,
            utc.month as int,
            utc.day as int,
            utc.hour as int,
            utc.minute as int,
            utc.second as int,
            utc.millisecond as int,
            offset_seconds as int,
        ),
        moved matches Some(m) ==> m.in_range(),
{
    let month = time::Month::try_from(utc.month).ok()?;
    let date = time::Date::from_calendar_date(utc.year, month, utc.day).ok()?;
    let clock =
        time::Time::from_hms_milli(utc.hour, utc.minute, utc.second, utc.millisecond).ok()?;
    let offset = time::UtcOffset::from_whole_seconds(offset_seconds).ok()?;
    let m = time::OffsetDateTime::new_utc(date, clock).checked_to_offset(offset)?;
    Some(Timestamp {
        year: m.year(), month: u8::from(m.month()), day: m.day(),
        hour: m.hour(), minute: m.minute(), second: m.second(),
        millisecond: m.millisecond(),
    })
}

/// The text that `time` writes for a date and time under a format
/// description, if it writes one. The arguments are the year, month, day,
/// hour, minute, second and millisecond, and the description in its
/// textual form.
pub uninterp spec fn time_formatted(
    year: int,
    month: int,
    day: int,
    hour: int,
    minute: int,
    second: int,
    millisecond: int,
    pattern: Seq<char>,
) -> Option<Seq<char>>;

/// Formats `stamp` with `time::PlainDateTime::format` under the format
/// description that `time::format_description::parse_borrowed` reads from
/// `pattern`; the date and time are put together with
/// `time::Date::from_calendar_date` and `time::Time::from_hms_milli`. `None`
/// where one of these refuses: no such date or time, a malformed pattern,
/// or a failure to format. The claim is that the outcome depends on nothing
/// but the fields and the pattern.
#[verifier::external_body]
fn format_stamp(stamp: &Timestamp, pattern: &str) -> (text: Option<String>)
    ensures
        match text {
            Some(t) => time_formatted(
                stamp.year as int,
                stamp.month as int,
                stamp.day as int,
                stamp.hour as int,
                stamp.minute as int,
                stamp.second as int,
                stamp.millisecond as int,
                pattern@,
            ) == Some(t@),
            None => time_formatted(
                stamp.year as int,
                stamp.month as int,
                stamp.day as int,
                stamp.hour as int,
                stamp.minute as int,
                stamp.second as int,
                stamp.millisecond as int,
                pattern@,
            ) is None,
        },
{
    let month = time::Month::try_from(stamp.month).ok()?;
    let date = time::Date::from_calendar_date(stamp.year, month, stamp.day).ok()?;
    let clock =
        time::Time::from_hms_milli(stamp.hour, stamp.minute, stamp.second, stamp.millisecond)
            .ok()?;
    let items = time::format_description::parse_borrowed::<1>(pattern).ok()?;
    time::PlainDateTime::new(date, clock).format(&items).ok()
}

/// The moment `utc` seen from an offset of `offset_seconds`, if `time`
/// gives it.
pub open spec fn shifted(utc: Timestamp, offset_seconds: i32) -> Option<Timestamp> {
    time_shifted(
        utc.year as int,
        utc.month as int,
        utc.day as int,
        utc.hour as int,
        utc.minute as int,
        utc.second as int,
        utc.millisecond as int,
        offset_seconds as int,
    )
}

/// What the local clock shows at the moment `utc`, where `offset` is the
/// system's offset from UTC in seconds, if the system tells it: the moment
/// seen from that offset where there is one and the moment can be moved
/// there, else the moment as it is.
pub open spec fn local_time(utc: Timestamp, offset: Option<i32>) -> Timestamp {
    match offset {
        Some(seconds) => match shifted(utc, seconds) {
            Some(moved) => moved,
            None => utc,
        },
        None => utc,
    }
}

/// The text that `time` writes for `stamp` under `pattern`, if it writes
/// one.
pub open spec fn formatted(stamp: Timestamp, pattern: Seq<char>) -> Option<Seq<char>> {
    time_formatted(
        stamp.year as int,
        stamp.month as int,
        stamp.day as int,
        stamp.hour as int,
        stamp.minute as int,
        stamp.second as int,
        stamp.millisecond as int,
        pattern,
    )
}

/// The layout of the time in a file name: date, time of day and
/// milliseconds, with nothing in it that a file name cannot hold.
pub open spec fn stamp_pattern() -> Seq<char> {
    "[year]-[month]-[day]_[hour]_[minute]_[second]_[subsecond digits:3]"@
}

/// The file name that goes with the time text `stamp`.
pub open spec fn file_name(stamp: Seq<char>) -> Seq<char> {
    "scrimshady_"@ + stamp + ".png"@
}

/// The file name of a frame saved at `stamp`, if the time can be written.
pub open spec fn file_name_at(stamp: Timestamp) -> Option<Seq<char>> {
    match formatted(stamp, stamp_pattern()) {
        Some(text) => Some(file_name(text)),
        None => None,
    }
}

/// Whether `name` is the file name `expected`, or none where none is
/// expected.
pub open spec fn names(name: Option<String>, expected: Option<Seq<char>>) -> bool {
    match name {
        Some(n) => expected == Some(n@),
        None => expected is None,
    }
}

/// What the local clock shows at the moment `utc`, given the system's
/// offset from UTC in seconds, or `None` where the system does not tell
/// it: the moment seen from that offset, or the moment as it is where
/// there is no offset or the moment cannot be moved there.
pub fn local_at(utc: Timestamp, offset: Option<i32>) -> (local: Timestamp)
    ensures
        local == local_time(utc, offset),
        utc.in_range() ==> local.in_range(),
{
    match offset {
        Some(seconds) => match shift(&utc, seconds) {
            Some(moved) => moved,
            None => utc,
        },
        None => utc,
    }
}

/// The moment `utc` as the local clock shows it: seen from the system's
/// offset where the system tells it and the date stays in range, else as
/// it is.
fn to_local(utc: Timestamp) -> (local: Timestamp)
    ensures
        exists|offset: Option<i32>| local == #[trigger] local_time(utc, offset),
        utc.in_range() ==> local.in_range(),
{
    let offset = system_offset_at(&utc);
    local_at(utc, offset)
}

/// The current local date and time; the time in UTC where the system does
/// not tell its offset.
pub fn local_now() -> (stamp: Timestamp)
    ensures
        stamp.in_range(),
        exists|utc: Timestamp, offset: Option<i32>|
            utc.in_range() && stamp == #[trigger] local_time(utc, offset),
{
    let utc = clock_utc();
    to_local(utc)
}

/// Puts a file name together from the time text `stamp`: the prefix, the
/// text, the extension.
pub fn screenshot_filename(stamp: &str) -> (name: String)
    ensures
        name@ == file_name(stamp@),
{
    let prefix = "scrimshady_".to_owned();
    prefix.concat(stamp).concat(".png")
}

/// The file name for a frame saved at `stamp`: the prefix, the time as
/// `time` writes it in the layout of [`stamp_pattern`], and the extension.
/// `None` exactly where `time` does not write `stamp`, which is then no
/// date and time.
pub fn filename_at(stamp: &Timestamp) -> (name: Option<String>)
    ensures
        names(name, file_name_at(*stamp)),
        name is Some <==> formatted(*stamp, stamp_pattern()) is Some,
        name matches Some(n) ==> formatted(*stamp, stamp_pattern()) matches Some(text) && n@
            == file_name(text),
{
    match format_stamp(
        stamp,
        "[year]-[month]-[day]_[hour]_[minute]_[second]_[subsecond digits:3]",
    ) {
        Some(text) => Some(screenshot_filename(text.as_str())),
        None => None,
    }
}

/// The file name for a frame saved now: that of [`filename_at`] for what
/// the local clock shows.
pub fn filename_now() -> (name: Option<String>)
    ensures
        exists|utc: Timestamp, offset: Option<i32>|
            utc.in_range() && names(name, file_name_at(#[trigger] local_time(utc, offset))),
{
    let stamp = local_now();
    filename_at(&stamp)
}

} // verus!
