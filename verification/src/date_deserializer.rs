//! Timestamps: read from the two textual forms that log lines carry, held
//! as seconds and nanoseconds since the epoch, and printed again by
//! `chrono`.
use vstd::prelude::*;

verus! {

/// An instant in UTC: whole seconds since 1970-01-01T00:00:00Z and the
/// nanoseconds into that second.
#[derive(Debug, Clone, Copy, PartialEq, Eq, Structural)]
pub struct Timestamp {
    pub seconds: i64,
    pub nanos: u32,
}

/// A text that is a timestamp in neither form.
#[derive(Debug, Clone)]
pub struct TimeStampParseError {
    pub timestamp_input: String,
}

impl TimeStampParseError {
    /// The failure as it is shown: that the timestamp cannot be read, and
    /// the timestamp in brackets.
    pub fn message(&self) -> (text: String)
        ensures
            text@ == "Unable to parse timestamp ["@ + self.timestamp_input@ + "]"@,
    {
        let mut text = String::from_str("Unable to parse timestamp [");
        text.append(self.timestamp_input.as_str());
        text.append("]");
        text
    }
}

/// The instant that `chrono` reads from an RFC 3339 text, if it is one.
pub uninterp spec fn rfc3339_instant(text: Seq<char>) -> Option<Timestamp>;

/// The instant that `chrono` reads from an RFC 2822 text, if it is one.
pub uninterp spec fn rfc2822_instant(text: Seq<char>) -> Option<Timestamp>;

/// The instant in UTC as `chrono` prints it in RFC 3339 with milliseconds
/// and `Z`, if `chrono` can hold the instant.
pub uninterp spec fn utc_text(seconds: i64, nanos: u32) -> Option<Seq<char>>;

/// The instant at `offset` seconds ahead of UTC, as `chrono` prints it in
/// RFC 3339 with milliseconds, if `chrono` can hold the instant.
pub uninterp spec fn offset_text(seconds: i64, nanos: u32, offset: i32) -> Option<Seq<char>>;

/// The first second of the year 1, in seconds since the epoch.
pub const FIRST_PLAIN_SECOND: i64 = -62_135_596_800;

/// The last second of the year 9999, in seconds since the epoch.
pub const LAST_PLAIN_SECOND: i64 = 253_402_300_799;

/// Whether the second lies in the years 1 to 9999, the years that RFC 3339
/// can write.
pub open spec fn in_plain_years(seconds: i64) -> bool {
    FIRST_PLAIN_SECOND <= seconds <= LAST_PLAIN_SECOND
}

/// Whether `offset` is the offset of a time zone: less than a day, to
/// either side.
pub open spec fn is_offset(offset: i32) -> bool {
    -86_400 < offset < 86_400
}

/// The text of an instant in a time zone that is `offset` seconds ahead of
/// UTC: what `chrono` prints, for an instant in the years 1 to 9999 and an
/// offset of less than a day, and nothing otherwise.
pub open spec fn zoned_text(stamp: Timestamp, offset: i32) -> Option<Seq<char>> {
    if in_plain_years(stamp.seconds) && is_offset(offset) {
        offset_text(stamp.seconds, stamp.nanos, offset)
    } else {
        None
    }
}

/// The instant that `text` gives: read as RFC 3339, and where that fails
/// as RFC 2822.
pub open spec fn instant_of(text: Seq<char>) -> Option<Timestamp> {
    match rfc3339_instant(text) {
        Some(stamp) => Some(stamp),
        None => rfc2822_instant(text),
    }
}

/// `chrono::DateTime::parse_from_rfc3339`, the result taken by
/// `DateTime::timestamp` and `DateTime::timestamp_subsec_nanos`. A function
/// of the text alone.
#[verifier::external_body]
fn read_rfc3339(text: &str) -> (stamp: Option<Timestamp>)
    ensures
        stamp == rfc3339_instant(text@),
{
    match chrono::DateTime::parse_from_rfc3339(text) {
        Ok(t) => Some(Timestamp { seconds: t.timestamp(), nanos: t.timestamp_subsec_nanos() }),
        Err(_) => None,
    }
}

/// `chrono::DateTime::parse_from_rfc2822`, the result taken by
/// `DateTime::timestamp` and `DateTime::timestamp_subsec_nanos`. A function
/// of the text alone.
#[verifier::external_body]
fn read_rfc2822(text: &str) -> (stamp: Option<Timestamp>)
    ensures
        stamp == rfc2822_instant(text@),
{
    match chrono::DateTime::parse_from_rfc2822(text) {
        Ok(t) => Some(Timestamp { seconds: t.timestamp(), nanos: t.timestamp_subsec_nanos() }),
        Err(_) => None,
    }
}

/// `chrono::DateTime::from_timestamp`, then `DateTime::to_rfc3339_opts`
/// with milliseconds and `Z`. `None` where `from_timestamp` gives none. A
/// function of the two numbers alone.
#[verifier::external_body]
fn print_utc(stamp: &Timestamp) -> (text: Option<String>)
    ensures
        match text {
            Some(t) => utc_text(stamp.seconds, stamp.nanos) == Some(t@),
            None => utc_text(stamp.seconds, stamp.nanos) is None,
        },
{
    chrono::DateTime::from_timestamp(stamp.seconds, stamp.nanos).map(
        |t| t.to_rfc3339_opts(chrono::SecondsFormat::Millis, true),
    )
}

/// `chrono::DateTime::from_timestamp`, `DateTime::with_timezone` to
/// `chrono::Local`, then `DateTime::offset` and
/// `FixedOffset::local_minus_utc`: the seconds by which the time zone of
/// the machine is ahead of UTC at the instant. Which offset that is depends
/// on the machine; every `FixedOffset` is of less than a day. For an
/// instant in the years 1 to 9999 the conversion stays within what
/// `chrono` computes with.
#[verifier::external_body]
fn local_offset(stamp: &Timestamp) -> (offset: Option<i32>)
    requires
        in_plain_years(stamp.seconds),
    ensures
        offset is Some ==> is_offset(offset->0),
{
    chrono::DateTime::from_timestamp(stamp.seconds, stamp.nanos).map(
        |t| t.with_timezone(&chrono::Local).offset().local_minus_utc(),
    )
}

/// `chrono::FixedOffset::east_opt`, `DateTime::from_timestamp`,
/// `DateTime::with_timezone` to that offset, then
/// `DateTime::to_rfc3339_opts` with milliseconds and `Z`. `None` where
/// `from_timestamp` gives none. A function of the three numbers alone; in
/// the years 1 to 9999 no offset of less than a day leaves the range of
/// `chrono`.
#[verifier::external_body]
fn print_at_offset(stamp: &Timestamp, offset: i32) -> (text: Option<String>)
    requires
        in_plain_years(stamp.seconds),
        is_offset(offset),
    ensures
        match text {
            Some(t) => offset_text(stamp.seconds, stamp.nanos, offset) == Some(t@),
            None => offset_text(stamp.seconds, stamp.nanos, offset) is None,
        },
{
    let zone = chrono::FixedOffset::east_opt(offset)?;
    let utc = chrono::DateTime::from_timestamp(stamp.seconds, stamp.nanos)?;
    Some(utc.with_timezone(&zone).to_rfc3339_opts(chrono::SecondsFormat::Millis, true))
}

impl Timestamp {
    /// Nanoseconds since the epoch.
    pub open spec fn nanos_since_epoch(&self) -> int {
        self.seconds * 1_000_000_000 + self.nanos
    }

    /// Nanoseconds since the epoch, for an instant near enough to it.
    pub fn timestamp_nanos(&self) -> (total: i64)
        requires
            i64::MIN <= self.nanos_since_epoch() <= i64::MAX,
        ensures
            total == self.nanos_since_epoch(),
    {
        let whole: i128 = self.seconds as i128 * 1_000_000_000;
        (whole + self.nanos as i128) as i64
    }

    /// The instant in UTC, in RFC 3339 with milliseconds and `Z`.
    pub fn to_utc_text(&self) -> (text: Option<String>)
        ensures
            match text {
                Some(t) => utc_text(self.seconds, self.nanos) == Some(t@),
                None => utc_text(self.seconds, self.nanos) is None,
            },
    {
        print_utc(self)
    }

    /// The instant in the time zone of the machine, in RFC 3339 with
    /// milliseconds: the text of the instant at the offset that the
    /// machine's time zone has then, which is some offset of less than a
    /// day. An instant outside the years 1 to 9999 has no such text.
    pub fn to_local_text(&self) -> (text: Option<String>)
        ensures
            text is Some ==> exists|offset: i32|
                is_offset(offset) && #[trigger] zoned_text(*self, offset) == Some(text->0@),
            !in_plain_years(self.seconds) ==> text is None,
    {
        if self.seconds < FIRST_PLAIN_SECOND || self.seconds > LAST_PLAIN_SECOND {
            return None;
        }
        match local_offset(self) {
            Some(offset) => self.to_offset_text(offset),
            None => None,
        }
    }

    /// The instant in a time zone that is `offset` seconds ahead of UTC, in
    /// RFC 3339 with milliseconds; at the offset zero the zone is written
    /// as `Z`.
    pub fn to_offset_text(&self, offset: i32) -> (text: Option<String>)
        ensures
            match text {
                Some(t) => zoned_text(*self, offset) == Some(t@),
                None => zoned_text(*self, offset) is None,
            },
    {
        if self.seconds < FIRST_PLAIN_SECOND || self.seconds > LAST_PLAIN_SECOND {
            return None;
        }
        if offset <= -86_400 || offset >= 86_400 {
            return None;
        }
        print_at_offset(self, offset)
    }
}

/// Reads a timestamp: first as RFC 3339, then as RFC 2822.
pub fn parse_timestamp(time: &str) -> (parsed: Result<Timestamp, TimeStampParseError>)
    ensures
        match parsed {
            Ok(stamp) => instant_of(time@) == Some(stamp),
            Err(e) => instant_of(time@) is None && e.timestamp_input@ == time@,
        },
{
    match read_rfc3339(time) {
        Some(stamp) => Ok(stamp),
        None => match read_rfc2822(time) {
            Some(stamp) => Ok(stamp),
            None => Err(TimeStampParseError { timestamp_input: time.to_owned() }),
        },
    }
}

/// Reads the timestamp of a record. Where the text is no timestamp, the
/// failure is told with the text in brackets.
pub fn deserialize(time: &str) -> (parsed: Result<Timestamp, String>)
    ensures
        match parsed {
            Ok(stamp) => instant_of(time@) == Some(stamp),
            Err(message) => instant_of(time@) is None && message@
                == "Unable to parse timestamp ["@ + time@ + "]"@,
        },
{
    match parse_timestamp(time) {
        Ok(stamp) => Ok(stamp),
        Err(failure) => Err(failure.message()),
    }
}

/// Writes a timestamp as a record carries it: in UTC, in RFC 3339 with
/// milliseconds and `Z`.
pub fn serialize(date: &Timestamp) -> (written: Option<String>)
    ensures
        match written {
            Some(text) => utc_text(date.seconds, date.nanos) == Some(text@),
            None => utc_text(date.seconds, date.nanos) is None,
        },
{
    date.to_utc_text()
}

} // verus!
