//! Moments of local time and the two texts a report carries for one.
//!
//! A [`Moment`] holds an instant as plain integers: seconds and nanoseconds since the Unix
//! epoch, and the offset of the zone it is shown in. The calendar arithmetic that turns these
//! into text is chrono's; the two texts are named here and never spelled out.

use vstd::prelude::*;

verus! {

/// The local second `0000-01-01T00:00:00`, counted from the Unix epoch.
pub const FIRST_LOCAL_SECOND: i64 = -62_167_219_200;

/// The local second `9999-12-31T23:59:59`, counted from the Unix epoch.
pub const LAST_LOCAL_SECOND: i64 = 253_402_300_799;

/// Nanoseconds in one second.
pub const NANOS_PER_SECOND: u32 = 1_000_000_000;

/// Seconds in one day; a zone's offset from UTC stays strictly below this in size.
pub const SECONDS_PER_DAY: i32 = 86_400;

/// What `chrono::DateTime::to_rfc3339` returns for the instant `unix_seconds` and
/// `nanoseconds` past the Unix epoch, shown `offset_seconds` east of UTC.
pub uninterp spec fn rfc3339_text(unix_seconds: int, nanoseconds: int, offset_seconds: int) -> Seq<
    char,
>;

/// What `to_string` returns for a `chrono::DateTime` at the instant `unix_seconds` and
/// `nanoseconds` past the Unix epoch, shown `offset_seconds` east of UTC.
pub uninterp spec fn display_text(unix_seconds: int, nanoseconds: int, offset_seconds: int) -> Seq<
    char,
>;

/// The mathematical value of a [`Moment`].
pub struct Instant {
    /// Whole seconds since `1970-01-01T00:00:00Z`, leap seconds not counted.
    pub unix_seconds: int,
    /// Nanoseconds past that second.
    pub nanoseconds: int,
    /// Seconds to add to UTC to get the local time.
    pub offset_seconds: int,
}

impl Instant {
    /// The second on the local clock, counted from the Unix epoch.
    pub open spec fn local_second(self) -> int {
        self.unix_seconds + self.offset_seconds
    }

    /// Whether RFC 3339 can express the instant: a local year of four digits, a fraction
    /// below one second and an offset below one day.
    pub open spec fn representable(self) -> bool {
        &&& 0 <= self.nanoseconds < NANOS_PER_SECOND
        &&& -SECONDS_PER_DAY < self.offset_seconds < SECONDS_PER_DAY
        &&& FIRST_LOCAL_SECOND <= self.local_second() <= LAST_LOCAL_SECOND
    }

    /// The instant in RFC 3339 form, such as `2024-01-01T00:00:00+00:00`.
    pub open spec fn rfc3339(self) -> Seq<char> {
        rfc3339_text(self.unix_seconds, self.nanoseconds, self.offset_seconds)
    }

    /// The instant in the human-readable form, such as `2024-01-01 00:00:00 +00:00`.
    pub open spec fn local_text(self) -> Seq<char> {
        display_text(self.unix_seconds, self.nanoseconds, self.offset_seconds)
    }
}

/// An instant on the local clock that RFC 3339 can express.
#[derive(Clone, Copy, Debug, PartialEq, Eq)]
pub struct Moment {
    unix_seconds: i64,
    nanoseconds: u32,
    offset_seconds: i32,
}

impl View for Moment {
    type V = Instant;

    closed spec fn view(&self) -> Instant {
        Instant {
            unix_seconds: self.unix_seconds as int,
            nanoseconds: self.nanoseconds as int,
            offset_seconds: self.offset_seconds as int,
        }
    }
}

/// Reads `chrono::Local::now` and takes the reading apart: its Unix timestamp, the nanoseconds
/// past that second and the local zone's offset at that instant, in seconds east of UTC.
///
/// Nothing is claimed of the three numbers: they are whatever the system clock and the zone
/// database say. One thing lies outside any contract: `Local::now` panics where the system
/// clock stands before 1970.
#[verifier::external_body]
fn read_local_clock() -> (reading: (i64, u32, i32)) {
    let now = chrono::Local::now();
    (now.timestamp(), now.timestamp_subsec_nanos(), now.offset().local_minus_utc())
}

/// Builds the `chrono::DateTime` for the three numbers and calls its `to_rfc3339`.
///
/// Claimed: the text is the one named [`rfc3339_text`] for these numbers. Within the required
/// range chrono accepts both the timestamp and the offset, so the call returns.
#[verifier::external_body]
fn format_rfc3339(unix_seconds: i64, nanoseconds: u32, offset_seconds: i32) -> (text: String)
    requires
        (Instant {
            unix_seconds: unix_seconds as int,
            nanoseconds: nanoseconds as int,
            offset_seconds: offset_seconds as int,
        }).representable(),
    ensures
        text@ == rfc3339_text(unix_seconds as int, nanoseconds as int, offset_seconds as int),
{
    let zone = chrono::FixedOffset::east_opt(offset_seconds).unwrap();
    let utc = chrono::DateTime::from_timestamp(unix_seconds, nanoseconds).unwrap();
    utc.with_timezone(&zone).to_rfc3339()
}

/// Builds the `chrono::DateTime` for the three numbers and calls its `to_string`.
///
/// Claimed: the text is the one named [`display_text`] for these numbers. Within the required
/// range chrono accepts both the timestamp and the offset, so the call returns.
#[verifier::external_body]
fn format_display(unix_seconds: i64, nanoseconds: u32, offset_seconds: i32) -> (text: String)
    requires
        (Instant {
            unix_seconds: unix_seconds as int,
            nanoseconds: nanoseconds as int,
            offset_seconds: offset_seconds as int,
        }).representable(),
    ensures
        text@ == display_text(unix_seconds as int, nanoseconds as int, offset_seconds as int),
{
    let zone = chrono::FixedOffset::east_opt(offset_seconds).unwrap();
    let utc = chrono::DateTime::from_timestamp(unix_seconds, nanoseconds).unwrap();
    utc.with_timezone(&zone).to_string()
}

impl Moment {
    #[verifier::type_invariant]
    spec fn well_formed(self) -> bool {
        self@.representable()
    }

    /// The moment `unix_seconds` and `nanoseconds` past the Unix epoch, shown in a zone
    /// `offset_seconds` east of UTC; `None` where RFC 3339 cannot express it.
    pub fn new(unix_seconds: i64, nanoseconds: u32, offset_seconds: i32) -> (made: Option<Moment>)
        ensures
            made is Some <==> (Instant {
                unix_seconds: unix_seconds as int,
                nanoseconds: nanoseconds as int,
                offset_seconds: offset_seconds as int,
            }).representable(),
            made matches Some(moment) ==> moment@ == (Instant {
                unix_seconds: unix_seconds as int,
                nanoseconds: nanoseconds as int,
                offset_seconds: offset_seconds as int,
            }),
    {
        if nanoseconds >= NANOS_PER_SECOND {
            return None;
        }
        if offset_seconds <= -SECONDS_PER_DAY || offset_seconds >= SECONDS_PER_DAY {
            return None;
        }
        let offset: i64 = offset_seconds as i64;
        if unix_seconds < FIRST_LOCAL_SECOND - offset || unix_seconds > LAST_LOCAL_SECOND - offset {
            return None;
        }
        Some(Moment { unix_seconds, nanoseconds, offset_seconds })
    }

    /// The present moment on the local clock; `None` where the clock reads a time that
    /// RFC 3339 cannot express.
    pub fn now() -> (read: Option<Moment>)
        ensures
            read matches Some(moment) ==> moment@.representable(),
    {
        let (unix_seconds, nanoseconds, offset_seconds) = read_local_clock();
        Moment::new(unix_seconds, nanoseconds, offset_seconds)
    }

    /// Whole seconds since the Unix epoch.
    pub fn unix_seconds(&self) -> (seconds: i64)
        ensures
            seconds == self@.unix_seconds,
    {
        self.unix_seconds
    }

    /// Nanoseconds past the whole second.
    pub fn nanoseconds(&self) -> (nanoseconds: u32)
        ensures
            nanoseconds == self@.nanoseconds,
    {
        self.nanoseconds
    }

    /// Seconds to add to UTC to get the local time.
    pub fn offset_seconds(&self) -> (seconds: i32)
        ensures
            seconds == self@.offset_seconds,
    {
        self.offset_seconds
    }

    /// The moment in RFC 3339 form.
    pub fn to_rfc3339(&self) -> (text: String)
        ensures
            text@ == self@.rfc3339(),
    {
        proof {
            use_type_invariant(self);
        }
        format_rfc3339(self.unix_seconds, self.nanoseconds, self.offset_seconds)
    }

    /// The moment in the human-readable form that a presence payload carries.
    pub fn to_local_string(&self) -> (text: String)
        ensures
            text@ == self@.local_text(),
    {
        proof {
            use_type_invariant(self);
        }
        format_display(self.unix_seconds, self.nanoseconds, self.offset_seconds)
    }
}

} // verus!
