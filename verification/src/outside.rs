//! The calls this library makes into `std`'s Unicode tables and into the
//! `regex`, `url`, `chrono`, `chrono-tz`, `icalendar` and `uuid` crates.
//!
//! Each function here is trusted: Verus believes its contract without reading
//! its body. Where a result takes pages to state, the contract gives it a name
//! (a spec function without a body) applied to the call's arguments.

use vstd::prelude::*;
use crate::models::{opt_view, text_result_view, EventStart, StartView, Timestamp, ZoneResolution};
use chrono::{DateTime, Datelike, TimeZone, Utc};
use chrono::offset::LocalResult;
use chrono_tz::Tz;
use icalendar::{CalendarDateTime, Component, DatePerhapsTime};
use regex::Regex;
use url::Url;
use uuid::Uuid;

verus! {

// ---------------------------------------------------------------------------
// Lowercase (std)
// ---------------------------------------------------------------------------

/// What `str::to_lowercase` gives for a string: its lowercase form by the
/// Unicode mappings in the standard library's tables (a character may map to
/// several, and a final capital sigma maps by its context).
pub uninterp spec fn lowercase(s: Seq<char>) -> Seq<char>;

/// Calls `str::to_lowercase`; the result is `lowercase` of the argument.
#[verifier::external_body]
pub(crate) fn to_lowercase(s: &str) -> (r: String)
    ensures
        r@ == lowercase(s@),
{
    s.to_lowercase()
}

// ---------------------------------------------------------------------------
// Regular expressions (regex)
// ---------------------------------------------------------------------------

/// What the `regex` crate gives for `pattern` and `haystack`: `Err` with the
/// error's text where `Regex::new(pattern)` refuses the pattern; otherwise
/// `Ok(None)` where `captures(haystack)` finds no match, and `Ok(Some(groups))`
/// with one entry per group of the pattern (the whole match first), each the
/// text the group matched or `None` where it took no part in the match.
pub uninterp spec fn regex_captures(pattern: Seq<char>, haystack: Seq<char>) -> Result<
    Option<Seq<Option<Seq<char>>>>,
    Seq<char>,
>;

/// Capture groups as sequences of characters.
pub open spec fn groups_view(g: Vec<Option<String>>) -> Seq<Option<Seq<char>>> {
    g@.map_values(|o: Option<String>| opt_view(o))
}

/// The outcome of a search as `regex_captures` states it.
pub open spec fn captures_view(r: Result<Option<Vec<Option<String>>>, String>) -> Result<
    Option<Seq<Option<Seq<char>>>>,
    Seq<char>,
> {
    match r {
        Err(e) => Err(e@),
        Ok(None) => Ok(None),
        Ok(Some(g)) => Ok(Some(groups_view(g))),
    }
}

/// Calls `Regex::new(pattern)` and then `captures(haystack)` on the compiled
/// expression, converting the groups to owned strings; the outcome is
/// `regex_captures` of the two arguments.
#[verifier::external_body]
pub(crate) fn captures(pattern: &str, haystack: &str) -> (r: Result<
    Option<Vec<Option<String>>>,
    String,
>)
    ensures
        captures_view(r) == regex_captures(pattern@, haystack@),
{
    match Regex::new(pattern) {
        Err(e) => Err(e.to_string()),
        Ok(re) => Ok(
            re.captures(haystack).map(
                |c| c.iter().map(|g| g.map(|m| m.as_str().to_string())).collect(),
            ),
        ),
    }
}

// ---------------------------------------------------------------------------
// URLs (url)
// ---------------------------------------------------------------------------

/// What `Url::parse` gives for a string: `Ok` with the serialization of the
/// parsed URL, or `Err` with the text of the `ParseError`.
pub uninterp spec fn url_parse(s: Seq<char>) -> Result<Seq<char>, Seq<char>>;

/// Calls `Url::parse(s)`; the outcome is `url_parse(s)`.
#[verifier::external_body]
pub(crate) fn parse_url(s: &str) -> (r: Result<String, String>)
    ensures
        text_result_view(r) == url_parse(s@),
{
    match Url::parse(s) {
        Ok(u) => Ok(u.to_string()),
        Err(e) => Err(e.to_string()),
    }
}

// ---------------------------------------------------------------------------
// Time zones (chrono, chrono-tz)
// ---------------------------------------------------------------------------

/// What the time zone database gives for the wall-clock reading `local` in the
/// zone named `tzid`: `UnknownZone` where `tzid.parse::<Tz>()` fails; otherwise
/// the `LocalResult` of `Tz::from_local_datetime`, with a single result as its
/// UTC timestamp. A reading that `DateTime::from_timestamp` cannot represent
/// gives `Nonexistent`.
pub uninterp spec fn zone_resolution(tzid: Seq<char>, local: Timestamp) -> ZoneResolution;

/// Calls `tzid.parse::<chrono_tz::Tz>()` and `from_local_datetime` on the wall-clock
/// reading `local`; the outcome is `zone_resolution(tzid, local)`.
#[verifier::external_body]
pub(crate) fn resolve_local_time(tzid: &str, local: Timestamp) -> (r: ZoneResolution)
    ensures
        r == zone_resolution(tzid@, local),
{
    let tz = match tzid.parse::<Tz>() {
        Ok(tz) => tz,
        Err(_) => return ZoneResolution::UnknownZone,
    };
    let naive = match DateTime::from_timestamp(local.secs, local.nanos) {
        Some(d) => d.naive_utc(),
        None => return ZoneResolution::Nonexistent,
    };
    match tz.from_local_datetime(&naive) {
        LocalResult::Single(t) => ZoneResolution::Single(
            Timestamp { secs: t.timestamp(), nanos: t.timestamp_subsec_nanos() },
        ),
        LocalResult::Ambiguous(_, _) => ZoneResolution::Ambiguous,
        LocalResult::None => ZoneResolution::Nonexistent,
    }
}

/// Calls `Utc::now()`. Of the time read nothing is stated but that it is a
/// clock reading: `Utc::now` takes the system time as a duration since 1970,
/// so its seconds are not negative and its nanoseconds stay below one second.
/// (`Utc::now` panics where the system clock is set before 1970, which no
/// condition on the arguments can rule out.)
#[verifier::external_body]
pub(crate) fn utc_now() -> (r: Timestamp)
    ensures
        r.wf(),
        r.is_clock_reading(),
{
    let now = Utc::now();
    Timestamp { secs: now.timestamp(), nanos: now.timestamp_subsec_nanos() }
}

// ---------------------------------------------------------------------------
// Identifiers (uuid)
// ---------------------------------------------------------------------------

/// Calls `Uuid::new_v4()` and returns its 128 bits. The value is random:
/// nothing is stated of it. `new_v4` panics where the operating system gives
/// no random bytes, which no condition on the arguments can rule out.
#[verifier::external_body]
pub(crate) fn new_concert_id() -> u128 {
    Uuid::new_v4().as_u128()
}

// ---------------------------------------------------------------------------
// Calendars (icalendar)
// ---------------------------------------------------------------------------

/// Makes `icalendar::Event` known to Verus as an opaque type; what an event
/// holds is stated through `event_properties`.
#[verifier::external_type_specification]
#[verifier::external_body]
pub struct ExEvent(icalendar::Event);

/// Makes `icalendar::CalendarComponent` known to Verus as an opaque type.
#[verifier::external_type_specification]
#[verifier::external_body]
pub struct ExCalendarComponent(icalendar::CalendarComponent);

/// A property of a calendar component: its name, its value, and its
/// parameters by name.
pub struct PropertyView {
    pub key: Seq<char>,
    pub value: Seq<char>,
    pub params: Map<Seq<char>, Seq<char>>,
}

/// The properties an `Event` holds, by the name under which it stores them.
pub uninterp spec fn event_properties(e: icalendar::Event) -> Map<Seq<char>, PropertyView>;

/// What `DatePerhapsTime::from_property` makes of a property: a `DATE` when the
/// `VALUE` parameter says so, a UTC, floating or zoned (`TZID` parameter)
/// `DATE-TIME` otherwise, and `None` where the value does not parse as the
/// form chosen; a date given by its day number from the common era, a date-time
/// by its timestamp.
pub uninterp spec fn start_from_property(p: PropertyView) -> Option<StartView>;

/// An optional start as `start_from_property` states it.
pub open spec fn start_view(s: Option<EventStart>) -> Option<StartView> {
    match s {
        Some(v) => Some(v@),
        None => None,
    }
}

/// The start that an event holding the properties `props` has, as
/// `Component::get_start` reads it: the `DTSTART` property, if there is one,
/// made into a date or date-time.
pub open spec fn props_start(props: Map<Seq<char>, PropertyView>) -> Option<StartView> {
    if props.dom().contains("DTSTART"@) {
        start_from_property(props["DTSTART"@])
    } else {
        None
    }
}

/// The start of an event as `Component::get_start` reads it.
pub open spec fn event_start_of(e: icalendar::Event) -> Option<StartView> {
    props_start(event_properties(e))
}

/// The events a calendar component holds, each by its properties: one for an
/// event component, none for any other kind.
pub uninterp spec fn component_events(c: icalendar::CalendarComponent) -> Seq<
    Map<Seq<char>, PropertyView>,
>;

/// Calls `Component::property_value(e, key)`: the value of the property stored
/// under `key`, if there is one.
#[verifier::external_body]
pub(crate) fn property_value(e: &icalendar::Event, key: &str) -> (r: Option<String>)
    ensures
        match r {
            Some(v) => event_properties(*e).dom().contains(key@) && v@ == event_properties(
                *e,
            )[key@].value,
            None => !event_properties(*e).dom().contains(key@),
        },
{
    e.property_value(key).map(|v| v.to_string())
}

/// Calls `Component::get_start(e)` and converts the date or date-time it gives:
/// a date to its day number from the common era, a date-time to its timestamp.
#[verifier::external_body]
pub(crate) fn event_start(e: &icalendar::Event) -> (r: Option<EventStart>)
    ensures
        start_view(r) == (if event_properties(*e).dom().contains("DTSTART"@) {
            start_from_property(event_properties(*e)["DTSTART"@])
        } else {
            None
        }),
{
    let stamp = |n: chrono::NaiveDateTime| Timestamp {
        secs: n.and_utc().timestamp(),
        nanos: n.and_utc().timestamp_subsec_nanos(),
    };
    match e.get_start()? {
        DatePerhapsTime::Date(d) => Some(EventStart::Date { days_from_ce: d.num_days_from_ce() }),
        DatePerhapsTime::DateTime(CalendarDateTime::Utc(u)) => Some(EventStart::Utc(stamp(u.naive_utc()))),
        DatePerhapsTime::DateTime(CalendarDateTime::Floating(n)) => Some(EventStart::Floating(stamp(n))),
        DatePerhapsTime::DateTime(CalendarDateTime::WithTimezone { date_time, tzid }) => Some(
            EventStart::WithTimezone { local: stamp(date_time), tzid },
        ),
    }
}

/// Calls `CalendarComponent::as_event` and clones the event it gives: `None`
/// for a component that holds no event, otherwise an event with the
/// properties of the one it holds.
#[verifier::external_body]
pub(crate) fn component_event(c: &icalendar::CalendarComponent) -> (r: Option<icalendar::Event>)
    ensures
        match r {
            None => component_events(*c).len() == 0,
            Some(e) => component_events(*c) == seq![event_properties(e)],
        },
{
    c.as_event().cloned()
}

} // verus!
