//! Instants of time as the blog host writes them.

use vstd::prelude::*;

verus! {

/// An instant, held as seconds and nanoseconds since the Unix epoch, with the
/// offset from UTC, in seconds, that it was written with. Two values are
/// equal with `==` when they are the same instant, whatever their offsets.
#[derive(Clone, Copy, Debug, Eq)]
pub struct FixedDateTime {
    pub timestamp: i64,
    pub nanos: u32,
    pub offset: i32,
}

impl PartialEq for FixedDateTime {
    fn eq(&self, other: &Self) -> (r: bool) {
        self.timestamp == other.timestamp && self.nanos == other.nanos
    }
}

impl vstd::std_specs::cmp::PartialEqSpecImpl for FixedDateTime {
    open spec fn obeys_eq_spec() -> bool {
        true
    }

    open spec fn eq_spec(&self, other: &Self) -> bool {
        self.timestamp == other.timestamp && self.nanos == other.nanos
    }
}

/// The error of parsing a text that is no date-time with an offset.
#[derive(Clone, Copy, Debug, PartialEq, Eq, Structural)]
pub struct ParseFixedDateTimeError;

/// What chrono reads a text as when it parses it as a date-time with a
/// fixed offset; `None` where it rejects the text.
pub uninterp spec fn parsed_date_time(s: Seq<char>) -> Option<FixedDateTime>;

/// Calls `str::parse` for chrono's `DateTime<FixedOffset>`, that is its
/// `FromStr::from_str`, and keeps the instant's seconds, its nanoseconds and
/// its offset. That parser reads RFC 3339 and some looser forms, such as a
/// space in place of `T`. Nothing is proved of it: its result is only given
/// the name `parsed_date_time`.
#[verifier::external_body]
pub(crate) fn parse_date_time(s: &str) -> (r: Option<FixedDateTime>)
    ensures
        r == parsed_date_time(s@),
{
    s.parse::<atom_syndication::FixedDateTime>().ok().map(
        |t| FixedDateTime {
            timestamp: t.timestamp(),
            nanos: t.timestamp_subsec_nanos(),
            offset: t.offset().local_minus_utc(),
        },
    )
}

impl FixedDateTime {
    /// Reads a date-time with its offset, such as `2013-09-02T11:28:25+09:00`.
    pub fn parse(s: &str) -> (r: Result<FixedDateTime, ParseFixedDateTimeError>)
        ensures
            match parsed_date_time(s@) {
                Some(t) => r == Ok::<FixedDateTime, ParseFixedDateTimeError>(t),
                None => r is Err,
            },
    {
        match parse_date_time(s) {
            Some(t) => Ok(t),
            None => Err(ParseFixedDateTimeError),
        }
    }
}

impl std::str::FromStr for FixedDateTime {
    type Err = ParseFixedDateTimeError;

    fn from_str(s: &str) -> (r: Result<Self, Self::Err>)
        ensures
            match parsed_date_time(s@) {
                Some(t) => r == Ok::<FixedDateTime, ParseFixedDateTimeError>(t),
                None => r is Err,
            },
    {
        FixedDateTime::parse(s)
    }
}

} // verus!
