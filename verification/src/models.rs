//! The values a concert calendar is read into.

use vstd::prelude::*;

verus! {

/// Whether a concert is streamed, held in a venue, or both.
#[derive(Debug, Clone, Copy, PartialEq, Eq, Structural)]
pub enum LiveFormat {
    Online,
    Irl,
    Both,
}

/// Where a concert is streamed or sold.
#[derive(Debug, Clone, Copy, PartialEq, Eq, Structural)]
pub enum Platform {
    Niconico,
    Spwn,
    Tba,
    Youtube,
    Zan,
    Zaiko,
    Other,
}

/// A ticket price in yen.
#[derive(Debug, Clone, Copy, PartialEq, Eq, Structural)]
pub enum JpyPrice {
    Tbd,
    Free,
    Fixed(i32),
    MultiTier(i32),
}

/// A reading of the clock in seconds since 1970-01-01T00:00:00 and nanoseconds
/// within that second (from one billion on, a leap second).
///
/// It stands for an instant in UTC, or for a wall-clock date and time that no
/// time zone has been given to yet, read as if it were UTC.
#[derive(Debug, Clone, Copy, PartialEq, Eq, Structural)]
pub struct Timestamp {
    pub secs: i64,
    pub nanos: u32,
}

impl Timestamp {
    /// The nanoseconds stay below two seconds' worth.
    pub open spec fn wf(self) -> bool {
        self.nanos < 2_000_000_000
    }

    /// A reading the system clock can give: not before 1970 and not inside a
    /// leap second.
    pub open spec fn is_clock_reading(self) -> bool {
        self.secs >= 0 && self.nanos < 1_000_000_000
    }
}

/// `a` comes strictly after `b`.
pub open spec fn is_later(a: Timestamp, b: Timestamp) -> bool {
    a.secs > b.secs || (a.secs == b.secs && a.nanos > b.nanos)
}

/// Whether `a` comes strictly after `b`.
pub fn later_than(a: Timestamp, b: Timestamp) -> (r: bool)
    ensures
        r == is_later(a, b),
{
    a.secs > b.secs || (a.secs == b.secs && a.nanos > b.nanos)
}

/// The start of a calendar event as the calendar writes it.
#[derive(Debug, Clone, PartialEq, Eq)]
pub enum EventStart {
    /// A whole day, counted from 0001-01-01 as day 1.
    Date { days_from_ce: i32 },
    /// A date and time in UTC.
    Utc(Timestamp),
    /// A date and time with no time zone.
    Floating(Timestamp),
    /// A date and time on the wall clock of the time zone `tzid`.
    WithTimezone { local: Timestamp, tzid: String },
}

/// `EventStart` with its zone name as a sequence of characters.
pub enum StartView {
    Date { days_from_ce: i32 },
    Utc(Timestamp),
    Floating(Timestamp),
    WithTimezone { local: Timestamp, tzid: Seq<char> },
}

impl View for EventStart {
    type V = StartView;

    open spec fn view(&self) -> StartView {
        match self {
            EventStart::Date { days_from_ce } => StartView::Date { days_from_ce: *days_from_ce },
            EventStart::Utc(t) => StartView::Utc(*t),
            EventStart::Floating(t) => StartView::Floating(*t),
            EventStart::WithTimezone { local, tzid } => StartView::WithTimezone {
                local: *local,
                tzid: tzid@,
            },
        }
    }
}

/// What a wall-clock reading in a named time zone is in UTC.
#[derive(Debug, Clone, Copy, PartialEq, Eq, Structural)]
pub enum ZoneResolution {
    /// The zone name is not one the time zone database knows.
    UnknownZone,
    /// The reading names exactly one instant.
    Single(Timestamp),
    /// The reading occurs twice (the clock was set back).
    Ambiguous,
    /// The reading never occurs (the clock jumped over it), or lies outside
    /// the range of dates the clock library represents.
    Nonexistent,
}

/// A concert read from a calendar event.
#[derive(Debug, Clone)]
pub struct LiveConcert {
    pub id: u128,
    pub title: String,
    pub format: LiveFormat,
    pub jpy_price: JpyPrice,
    pub platform: Platform,
    pub description: String,
    pub start_time: Timestamp,
    pub image_url: Option<String>,
    pub twitter_url: Option<String>,
    pub youtube_link: Option<String>,
    pub ticket_link: Option<String>,
    pub official_link: Option<String>,
}

/// The content of a `LiveConcert` apart from its identifier.
pub struct ConcertView {
    pub title: Seq<char>,
    pub format: LiveFormat,
    pub jpy_price: JpyPrice,
    pub platform: Platform,
    pub description: Seq<char>,
    pub start_time: Timestamp,
    pub image_url: Option<Seq<char>>,
    pub twitter_url: Option<Seq<char>>,
    pub youtube_link: Option<Seq<char>>,
    pub ticket_link: Option<Seq<char>>,
    pub official_link: Option<Seq<char>>,
}

impl View for LiveConcert {
    type V = ConcertView;

    open spec fn view(&self) -> ConcertView {
        ConcertView {
            title: self.title@,
            format: self.format,
            jpy_price: self.jpy_price,
            platform: self.platform,
            description: self.description@,
            start_time: self.start_time,
            image_url: opt_view(self.image_url),
            twitter_url: opt_view(self.twitter_url),
            youtube_link: opt_view(self.youtube_link),
            ticket_link: opt_view(self.ticket_link),
            official_link: opt_view(self.official_link),
        }
    }
}

/// An optional string as an optional sequence of characters.
pub open spec fn opt_view(o: Option<String>) -> Option<Seq<char>> {
    match o {
        Some(s) => Some(s@),
        None => None,
    }
}

/// A result whose error is a string, with the error as a sequence of characters.
pub open spec fn err_view<T>(r: Result<T, String>) -> Result<T, Seq<char>> {
    match r {
        Ok(v) => Ok(v),
        Err(e) => Err(e@),
    }
}

/// A result of two strings as a result of two sequences of characters.
pub open spec fn text_result_view(r: Result<String, String>) -> Result<Seq<char>, Seq<char>> {
    match r {
        Ok(v) => Ok(v@),
        Err(e) => Err(e@),
    }
}

} // verus!
