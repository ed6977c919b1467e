//! Reading the parts of a calendar event: the price, format and title written in
//! its summary, the platform named by its category, the links and the form
//! notice in its description, and its start time.

use vstd::prelude::*;
use vstd::string::*;
use crate::models::{
    err_view, opt_view, text_result_view, ConcertView, EventStart, JpyPrice, LiveConcert, LiveFormat,
    Platform, StartView, Timestamp, ZoneResolution,
};
use crate::outside::{
    captures, captures_view, event_properties, groups_view, event_start, event_start_of, lowercase,
    new_concert_id, parse_url, property_value, regex_captures, resolve_local_time, start_view,
    props_start, to_lowercase, url_parse, zone_resolution, PropertyView,
};
use crate::text::{
    concat, contains, parse_i32, parse_i32_spec, replace_all, replaced, same_text, seq_contains,
    trim, trimmed,
};

verus! {

/// `(price)(format)title`, as a calendar event's summary writes a concert.
pub const SUMMARY_PATTERN: &'static str = r"^\((.*)\)\((.*)\)(.+)$";

/// A single price: `¥` and digits.
pub const SINGLE_TIER_PATTERN: &'static str = r"^¥(\d+)$";

/// The lowest of several prices: `¥`, digits and `+`.
pub const MULTI_TIER_PATTERN: &'static str = r"^¥(\d+)\+$";

/// An image link written as `!Image: <url>`.
pub const IMAGE_PATTERN: &'static str = r"!Image: (https?://(www\.)?[-a-zA-Z0-9@:%._\+~#=]{1,256}\.[a-zA-Z0-9()]{1,6}\b([-a-zA-Z0-9()@:%_\+.~#?&//=]*))";

/// An image link written as `!<name ending like an image file>: <url>`.
pub const IMAGE_FALLBACK_PATTERN: &'static str = r"!.+[(\.jpg)|(\.png)]: (https?://(www\.)?[-a-zA-Z0-9@:%._\+~#=]{1,256}\.[a-zA-Z0-9()]{1,6}\b([-a-zA-Z0-9()@:%_\+.~#?&//=]*))";

/// A link to twitter.com.
pub const TWITTER_PATTERN: &'static str = r"(https?://(www\.)?twitter\.com\b([-a-zA-Z0-9()@:%_\+.~#?&//=]*))";

/// The outcome of one regular expression search, as `outside::captures` returns it.
pub type Search = Result<Option<Vec<Option<String>>>, String>;

/// The outcome of one search as sequences of characters.
pub type SearchView = Result<Option<Seq<Option<Seq<char>>>>, Seq<char>>;

// ---------------------------------------------------------------------------
// Capture groups
// ---------------------------------------------------------------------------

/// Group `i` of a match, where it took part in the match.
pub open spec fn group(caps: Seq<Option<Seq<char>>>, i: int) -> Option<Seq<char>> {
    if 0 <= i < caps.len() {
        caps[i]
    } else {
        None
    }
}

/// Group 1 of a search that found a match (a match where group 1 took no part
/// counts as none).
pub open spec fn first_group(found: Option<Seq<Option<Seq<char>>>>) -> Option<Seq<char>> {
    match found {
        Some(caps) => group(caps, 1),
        None => None,
    }
}

pub open spec fn opt_str_view(o: Option<&str>) -> Option<Seq<char>> {
    match o {
        Some(s) => Some(s@),
        None => None,
    }
}

fn group_text(caps: &Vec<Option<String>>, i: usize) -> (r: Option<&str>)
    ensures
        opt_str_view(r) == group(groups_view(*caps), i as int),
{
    if i < caps.len() {
        match &caps[i] {
            Some(s) => Some(s.as_str()),
            None => None,
        }
    } else {
        None
    }
}

fn first_group_text(found: &Option<Vec<Option<String>>>) -> (r: Option<&str>)
    ensures
        opt_str_view(r) == first_group(
            match found {
                Some(g) => Some(groups_view(*g)),
                None => None,
            },
        ),
{
    match found {
        Some(caps) => group_text(caps, 1),
        None => None,
    }
}

// ---------------------------------------------------------------------------
// Format
// ---------------------------------------------------------------------------

/// The format a summary's format text names: both when it holds the globe and
/// the chair together, online for the globe, in a venue for the chair.
pub open spec fn format_spec(t: Seq<char>) -> Result<LiveFormat, Seq<char>> {
    if seq_contains(t, "🌐🪑"@) {
        Ok(LiveFormat::Both)
    } else if seq_contains(t, "🌐"@) {
        Ok(LiveFormat::Online)
    } else if seq_contains(t, "🪑"@) {
        Ok(LiveFormat::Irl)
    } else {
        Err("Live format conversion failed, the text is "@ + t)
    }
}

/// The format that `platform` names.
pub fn get_format_from_string(platform: &str) -> (r: Result<LiveFormat, String>)
    ensures
        err_view(r) == format_spec(platform@),
{
    if contains(platform, "🌐🪑") {
        Ok(LiveFormat::Both)
    } else if contains(platform, "🌐") {
        Ok(LiveFormat::Online)
    } else if contains(platform, "🪑") {
        Ok(LiveFormat::Irl)
    } else {
        Err(concat("Live format conversion failed, the text is ", platform))
    }
}

// ---------------------------------------------------------------------------
// Platform
// ---------------------------------------------------------------------------

/// The platform a lowercased category names.
pub open spec fn platform_of_lowercase(lowered: Seq<char>) -> Option<Platform> {
    if lowered == "spwn"@ {
        Some(Platform::Spwn)
    } else if lowered == "youtube"@ {
        Some(Platform::Youtube)
    } else if lowered == "z-an"@ {
        Some(Platform::Zan)
    } else if lowered == "zaiko"@ {
        Some(Platform::Zaiko)
    } else if lowered == "tba"@ {
        Some(Platform::Tba)
    } else if lowered == "nico nico douga"@ {
        Some(Platform::Niconico)
    } else if lowered == "other"@ {
        Some(Platform::Other)
    } else {
        None
    }
}

/// The platform of a category given with its lowercase form.
pub open spec fn platform_from_lowercase_spec(tag: Seq<char>, lowered: Seq<char>) -> Result<
    Platform,
    Seq<char>,
> {
    match platform_of_lowercase(lowered) {
        Some(p) => Ok(p),
        None => Err("Calendar category parsing failed, the text is "@ + tag),
    }
}

/// The platform a category names, whatever its case.
pub open spec fn platform_spec(tag: Seq<char>) -> Result<Platform, Seq<char>> {
    platform_from_lowercase_spec(tag, lowercase(tag))
}

/// The platform that `tag` names, given `lowered`, its lowercase form.
pub fn platform_from_lowercase(tag: &str, lowered: &str) -> (r: Result<Platform, String>)
    ensures
        err_view(r) == platform_from_lowercase_spec(tag@, lowered@),
{
    if same_text(lowered, "spwn") {
        Ok(Platform::Spwn)
    } else if same_text(lowered, "youtube") {
        Ok(Platform::Youtube)
    } else if same_text(lowered, "z-an") {
        Ok(Platform::Zan)
    } else if same_text(lowered, "zaiko") {
        Ok(Platform::Zaiko)
    } else if same_text(lowered, "tba") {
        Ok(Platform::Tba)
    } else if same_text(lowered, "nico nico douga") {
        Ok(Platform::Niconico)
    } else if same_text(lowered, "other") {
        Ok(Platform::Other)
    } else {
        Err(concat("Calendar category parsing failed, the text is ", tag))
    }
}

/// The platform that the category `tag_string` names.
pub fn get_platform_from_tag(tag_string: &str) -> (r: Result<Platform, String>)
    ensures
        err_view(r) == platform_spec(tag_string@),
{
    let lowered = to_lowercase(tag_string);
    platform_from_lowercase(tag_string, lowered.as_str())
}

// ---------------------------------------------------------------------------
// Price
// ---------------------------------------------------------------------------

/// A price from its digits: fixed, or the lowest of several tiers.
pub open spec fn tier_price(digits: Seq<char>, multi: bool) -> Result<JpyPrice, Seq<char>> {
    match parse_i32_spec(digits) {
        Some(v) => Ok(
            if multi {
                JpyPrice::MultiTier(v)
            } else {
                JpyPrice::Fixed(v)
            },
        ),
        None => Err("Price conversion failed, the string is "@ + digits),
    }
}

/// The price that `price` writes, given its lowercase form and the searches for
/// a single and for a multi-tier price in it.
pub open spec fn price_from_searches_spec(
    price: Seq<char>,
    lowered: Seq<char>,
    single: SearchView,
    multi: SearchView,
) -> Result<JpyPrice, Seq<char>> {
    if seq_contains(lowered, "tba"@) || seq_contains(lowered, "tbd"@) {
        Ok(JpyPrice::Tbd)
    } else if seq_contains(lowered, "free"@) {
        Ok(JpyPrice::Free)
    } else {
        match single {
            Err(e) => Err(e),
            Ok(s) => match first_group(s) {
                Some(d) => tier_price(d, false),
                None => match multi {
                    Err(e) => Err(e),
                    Ok(m) => match first_group(m) {
                        Some(d) => tier_price(d, true),
                        None => Err("Price conversion failed, the string is "@ + price),
                    },
                },
            },
        }
    }
}

/// The price that `price` writes.
pub open spec fn price_spec(price: Seq<char>) -> Result<JpyPrice, Seq<char>> {
    price_from_searches_spec(
        price,
        lowercase(price),
        regex_captures(SINGLE_TIER_PATTERN@, price),
        regex_captures(MULTI_TIER_PATTERN@, price),
    )
}

fn tier_price_exec(digits: &str, multi: bool) -> (r: Result<JpyPrice, String>)
    ensures
        err_view(r) == tier_price(digits@, multi),
{
    match parse_i32(digits) {
        Some(v) => {
            if multi {
                Ok(JpyPrice::MultiTier(v))
            } else {
                Ok(JpyPrice::Fixed(v))
            }
        },
        None => Err(concat("Price conversion failed, the string is ", digits)),
    }
}

/// The price that `price` writes, given `lowered`, its lowercase form, and the
/// searches `single` and `multi` for a single and a multi-tier price in it.
pub fn price_from_searches(price: &str, lowered: &str, single: &Search, multi: &Search) -> (r:
    Result<JpyPrice, String>)
    ensures
        err_view(r) == price_from_searches_spec(
            price@,
            lowered@,
            captures_view(*single),
            captures_view(*multi),
        ),
{
    if contains(lowered, "tba") || contains(lowered, "tbd") {
        return Ok(JpyPrice::Tbd);
    }
    if contains(lowered, "free") {
        return Ok(JpyPrice::Free);
    }
    match single {
        Err(e) => Err(e.clone()),
        Ok(s) => match first_group_text(s) {
            Some(d) => tier_price_exec(d, false),
            None => match multi {
                Err(e) => Err(e.clone()),
                Ok(m) => match first_group_text(m) {
                    Some(d) => tier_price_exec(d, true),
                    None => Err(concat("Price conversion failed, the string is ", price)),
                },
            },
        },
    }
}

/// The price that `price` writes.
pub fn get_price_from_string(price: &str) -> (r: Result<JpyPrice, String>)
    ensures
        err_view(r) == price_spec(price@),
{
    let lowered = to_lowercase(price);
    let single = captures(SINGLE_TIER_PATTERN, price);
    let multi = captures(MULTI_TIER_PATTERN, price);
    price_from_searches(price, lowered.as_str(), &single, &multi)
}


// ---------------------------------------------------------------------------
// Summary
// ---------------------------------------------------------------------------

/// The error for a summary that is not written `(price)(format)title`.
pub open spec fn summary_error(summary: Seq<char>) -> Seq<char> {
    "Calendar event summary parsing failed, the text is \""@ + summary + "\""@
}

/// The title, price and format of a summary, given the search for
/// `SUMMARY_PATTERN` in it.
pub open spec fn summary_from_search_spec(summary: Seq<char>, search: SearchView) -> Result<
    (Seq<char>, JpyPrice, LiveFormat),
    Seq<char>,
> {
    match search {
        Err(e) => Err(e),
        Ok(None) => Err(summary_error(summary)),
        Ok(Some(caps)) => match (group(caps, 1), group(caps, 2), group(caps, 3)) {
            (Some(p), Some(f), Some(t)) => match price_spec(p) {
                Err(e) => Err(e),
                Ok(price) => match format_spec(f) {
                    Err(e) => Err(e),
                    Ok(format) => Ok((t, price, format)),
                },
            },
            _ => Err(summary_error(summary)),
        },
    }
}

/// The title, price and format that a summary writes.
pub open spec fn summary_spec(summary: Seq<char>) -> Result<
    (Seq<char>, JpyPrice, LiveFormat),
    Seq<char>,
> {
    summary_from_search_spec(summary, regex_captures(SUMMARY_PATTERN@, summary))
}

/// A parsed summary with its title as a sequence of characters.
pub open spec fn summary_view(r: Result<(String, JpyPrice, LiveFormat), String>) -> Result<
    (Seq<char>, JpyPrice, LiveFormat),
    Seq<char>,
> {
    match r {
        Ok((t, p, f)) => Ok((t@, p, f)),
        Err(e) => Err(e@),
    }
}

/// The title, price and format that `summary` writes, given `search`, the
/// search for `SUMMARY_PATTERN` in it.
pub fn summary_from_search(summary: &str, search: &Search) -> (r: Result<
    (String, JpyPrice, LiveFormat),
    String,
>)
    ensures
        summary_view(r) == summary_from_search_spec(summary@, captures_view(*search)),
{
    let not_written = concat(&concat("Calendar event summary parsing failed, the text is \"", summary), "\"");
    let caps = match search {
        Err(e) => return Err(e.clone()),
        Ok(None) => return Err(not_written),
        Ok(Some(caps)) => caps,
    };
    let price_text = match group_text(caps, 1) {
        Some(t) => t,
        None => return Err(not_written),
    };
    let format_text = match group_text(caps, 2) {
        Some(t) => t,
        None => return Err(not_written),
    };
    let title = match group_text(caps, 3) {
        Some(t) => t,
        None => return Err(not_written),
    };
    let price = match get_price_from_string(price_text) {
        Ok(p) => p,
        Err(e) => return Err(e),
    };
    let format = match get_format_from_string(format_text) {
        Ok(f) => f,
        Err(e) => return Err(e),
    };
    Ok((String::from_str(title), price, format))
}

/// The title, price and format that `summary` writes as `(price)(format)title`.
pub fn get_title_price_and_platform_from_summary(summary: &str) -> (r: Result<
    (String, JpyPrice, LiveFormat),
    String,
>)
    ensures
        summary_view(r) == summary_spec(summary@),
{
    let search = captures(SUMMARY_PATTERN, summary);
    summary_from_search(summary, &search)
}

// ---------------------------------------------------------------------------
// Links in the description
// ---------------------------------------------------------------------------

/// Group 1 of the first search that found a match.
pub open spec fn url_candidate(
    first: Option<Seq<Option<Seq<char>>>>,
    second: Option<Seq<Option<Seq<char>>>>,
) -> Option<Seq<char>> {
    match first_group(first) {
        Some(u) => Some(u),
        None => first_group(second),
    }
}

/// The image link of a description, given its searches for `IMAGE_PATTERN`
/// and `IMAGE_FALLBACK_PATTERN`.
pub open spec fn image_url_from_searches_spec(
    description: Seq<char>,
    first: SearchView,
    second: SearchView,
) -> Result<Seq<char>, Seq<char>> {
    match (first, second) {
        (Err(e), _) => Err(e),
        (Ok(_), Err(e)) => Err(e),
        (Ok(f), Ok(s)) => match url_candidate(f, s) {
            Some(u) => url_parse(u),
            None => Err("image url parse failed, the description is "@ + description),
        },
    }
}

/// The image link of a description.
pub open spec fn image_url_spec(description: Seq<char>) -> Result<Seq<char>, Seq<char>> {
    image_url_from_searches_spec(
        description,
        regex_captures(IMAGE_PATTERN@, description),
        regex_captures(IMAGE_FALLBACK_PATTERN@, description),
    )
}

/// The image link of `description`, given its searches `first` for
/// `IMAGE_PATTERN` and `second` for `IMAGE_FALLBACK_PATTERN`.
pub fn image_url_from_searches(description: &str, first: &Search, second: &Search) -> (r: Result<
    String,
    String,
>)
    ensures
        text_result_view(r) == image_url_from_searches_spec(
            description@,
            captures_view(*first),
            captures_view(*second),
        ),
{
    let f = match first {
        Err(e) => return Err(e.clone()),
        Ok(f) => f,
    };
    let s = match second {
        Err(e) => return Err(e.clone()),
        Ok(s) => s,
    };
    match first_group_text(f) {
        Some(u) => parse_url(u),
        None => match first_group_text(s) {
            Some(u) => parse_url(u),
            None => Err(concat("image url parse failed, the description is ", description)),
        },
    }
}

/// The image link written in `description`.
pub fn get_image_url_from_description(description: &str) -> (r: Result<String, String>)
    ensures
        text_result_view(r) == image_url_spec(description@),
{
    let first = captures(IMAGE_PATTERN, description);
    let second = captures(IMAGE_FALLBACK_PATTERN, description);
    image_url_from_searches(description, &first, &second)
}

/// The twitter link of a description, given its search for `TWITTER_PATTERN`.
pub open spec fn twitter_url_from_search_spec(description: Seq<char>, search: SearchView) -> Result<
    Seq<char>,
    Seq<char>,
> {
    match search {
        Err(e) => Err(e),
        Ok(found) => match first_group(found) {
            Some(u) => url_parse(u),
            None => Err("twitter url parse failed, the description is "@ + description),
        },
    }
}

/// The twitter link of a description.
pub open spec fn twitter_url_spec(description: Seq<char>) -> Result<Seq<char>, Seq<char>> {
    twitter_url_from_search_spec(description, regex_captures(TWITTER_PATTERN@, description))
}

/// The twitter link of `description`, given `search`, its search for
/// `TWITTER_PATTERN`.
pub fn twitter_url_from_search(description: &str, search: &Search) -> (r: Result<String, String>)
    ensures
        text_result_view(r) == twitter_url_from_search_spec(description@, captures_view(*search)),
{
    match search {
        Err(e) => Err(e.clone()),
        Ok(found) => match first_group_text(found) {
            Some(u) => parse_url(u),
            None => Err(concat("twitter url parse failed, the description is ", description)),
        },
    }
}

/// The twitter link written in `description`.
pub fn get_twitter_url_from_description(description: &str) -> (r: Result<String, String>)
    ensures
        text_result_view(r) == twitter_url_spec(description@),
{
    let search = captures(TWITTER_PATTERN, description);
    twitter_url_from_search(description, &search)
}

// ---------------------------------------------------------------------------
// The form notice
// ---------------------------------------------------------------------------

/// The notice that the calendar appends to event descriptions.
pub open spec fn form_link() -> Seq<char> {
    "Event Suggestion Submission form: https://forms.gle/tZwY1M19YUgUhn9i6"@
}

/// A description without the form notice and without surrounding whitespace.
pub open spec fn cleaned_description(description: Seq<char>) -> Seq<char> {
    trimmed(replaced(description, form_link(), Seq::empty()))
}

/// `description` with every form notice removed and surrounding whitespace trimmed.
pub fn remove_form_link_from_description_and_trim(description: &str) -> (r: String)
    ensures
        r@ == cleaned_description(description@),
{
    let link = "Event Suggestion Submission form: https://forms.gle/tZwY1M19YUgUhn9i6";
    let nothing = "";
    proof {
        reveal_strlit("Event Suggestion Submission form: https://forms.gle/tZwY1M19YUgUhn9i6");
        reveal_strlit("");
        assert(nothing@ =~= Seq::<char>::empty());
    }
    let without = replace_all(description, link, nothing);
    String::from_str(trim(without.as_str()))
}


// ---------------------------------------------------------------------------
// Start time
// ---------------------------------------------------------------------------

/// Midnight UTC at the start of day `days_from_ce` (1970-01-01 is day 719163).
pub open spec fn midnight_of(days_from_ce: i32) -> Timestamp {
    Timestamp { secs: ((days_from_ce - 719_163) * 86_400) as i64, nanos: 0 }
}

pub open spec fn start_unavailable() -> Seq<char> {
    "start time unavailable"@
}

/// The start time of an event with start `start`, in UTC: a date starts at its
/// midnight UTC, a floating date-time is read as UTC, and a zoned one is
/// resolved in its zone. `None` where the zone is unknown, on which reading the
/// start has no defined outcome.
pub open spec fn start_time_spec(start: Option<StartView>) -> Option<Result<Timestamp, Seq<char>>> {
    start_time_given(start, start_zone(start))
}

/// What the time zone database gives for a zoned start (a start of any
/// other kind needs no zone; `UnknownZone` stands in for it).
pub open spec fn start_zone(start: Option<StartView>) -> ZoneResolution {
    match start {
        Some(StartView::WithTimezone { local, tzid }) => zone_resolution(tzid, local),
        _ => ZoneResolution::UnknownZone,
    }
}

/// The start time of an event with start `start` in UTC, where a zoned start's
/// wall-clock reading resolves in its zone to `zone`.
pub open spec fn start_time_given(start: Option<StartView>, zone: ZoneResolution) -> Option<
    Result<Timestamp, Seq<char>>,
> {
    match start {
        None => Some(Err(start_unavailable())),
        Some(StartView::Date { days_from_ce }) => Some(Ok(midnight_of(days_from_ce))),
        Some(StartView::Utc(t)) => Some(Ok(t)),
        Some(StartView::Floating(t)) => Some(Ok(t)),
        Some(StartView::WithTimezone { local, tzid }) => match zone {
            ZoneResolution::UnknownZone => None,
            ZoneResolution::Single(t) => Some(Ok(t)),
            _ => Some(Err(start_unavailable())),
        },
    }
}

pub open spec fn opt_time_view(r: Option<Result<Timestamp, String>>) -> Option<
    Result<Timestamp, Seq<char>>,
> {
    match r {
        Some(x) => Some(err_view(x)),
        None => None,
    }
}

/// The start time of an event with start `start`, given `zone`, what its
/// wall-clock reading resolves to where the start is zoned; `None` where that
/// zone is unknown.
pub fn start_time_given_zone(start: &Option<EventStart>, zone: ZoneResolution) -> (r: Option<
    Result<Timestamp, String>,
>)
    ensures
        opt_time_view(r) == start_time_given(start_view(*start), zone),
{
    match start {
        None => Some(Err(String::from_str("start time unavailable"))),
        Some(EventStart::Date { days_from_ce }) => {
            let secs: i64 = (*days_from_ce as i64 - 719_163) * 86_400;
            Some(Ok(Timestamp { secs, nanos: 0 }))
        },
        Some(EventStart::Utc(t)) => Some(Ok(*t)),
        Some(EventStart::Floating(t)) => Some(Ok(*t)),
        Some(EventStart::WithTimezone { .. }) => match zone {
            ZoneResolution::UnknownZone => None,
            ZoneResolution::Single(t) => Some(Ok(t)),
            _ => Some(Err(String::from_str("start time unavailable"))),
        },
    }
}

/// The start time of an event with start `start`, or `None` where its time
/// zone is unknown.
pub fn start_time_checked(start: &Option<EventStart>) -> (r: Option<Result<Timestamp, String>>)
    ensures
        opt_time_view(r) == start_time_spec(start_view(*start)),
{
    let zone = match start {
        Some(EventStart::WithTimezone { local, tzid }) => resolve_local_time(tzid.as_str(), *local),
        _ => ZoneResolution::UnknownZone,
    };
    start_time_given_zone(start, zone)
}

/// The start time of an event with start `start`.
pub fn start_time_of(start: &Option<EventStart>) -> (r: Result<Timestamp, String>)
    requires
        start_time_spec(start_view(*start)) is Some,
    ensures
        Some(err_view(r)) == start_time_spec(start_view(*start)),
{
    match start_time_checked(start) {
        Some(r) => r,
        None => {
            proof {
                assert(false);
            }
            Err(String::from_str("start time unavailable"))
        },
    }
}

/// The start time of `event` in UTC.
pub fn get_start_time_from_event(event: &icalendar::Event) -> (r: Result<Timestamp, String>)
    requires
        start_time_spec(event_start_of(*event)) is Some,
    ensures
        Some(err_view(r)) == start_time_spec(event_start_of(*event)),
{
    let start = event_start(event);
    start_time_of(&start)
}

/// The start time of `event` in UTC, or `None` where its time zone is unknown.
pub fn get_start_time_from_event_checked(event: &icalendar::Event) -> (r: Option<
    Result<Timestamp, String>,
>)
    ensures
        opt_time_view(r) == start_time_spec(event_start_of(*event)),
{
    let start = event_start(event);
    start_time_checked(&start)
}

// ---------------------------------------------------------------------------
// Concert
// ---------------------------------------------------------------------------

/// The value stored under `key` among the properties `props`.
pub open spec fn props_text(props: Map<Seq<char>, PropertyView>, key: Seq<char>) -> Option<
    Seq<char>,
> {
    if props.dom().contains(key) {
        Some(props[key].value)
    } else {
        None
    }
}

/// The value stored under `key` in `event`.
pub open spec fn property_text(event: icalendar::Event, key: Seq<char>) -> Option<Seq<char>> {
    props_text(event_properties(event), key)
}

pub open spec fn ok_of(r: Result<Seq<char>, Seq<char>>) -> Option<Seq<char>> {
    match r {
        Ok(v) => Some(v),
        Err(_) => None,
    }
}

/// The concert an event describes, given its summary, category, description
/// and start: `None` where reading the start has no defined outcome, an error
/// at the first part that is missing or unreadable.
pub open spec fn concert_from_fields_spec(
    summary: Option<Seq<char>>,
    categories: Option<Seq<char>>,
    description: Option<Seq<char>>,
    start: Option<StartView>,
) -> Option<Result<ConcertView, Seq<char>>> {
    match summary {
        None => Some(Err("failed to get summary"@)),
        Some(s) => match categories {
            None => Some(Err("failed to get category"@)),
            Some(c) => match summary_spec(trimmed(s)) {
                Err(e) => Some(Err(e)),
                Ok((title, price, format)) => match platform_spec(trimmed(c)) {
                    Err(e) => Some(Err(e)),
                    Ok(platform) => match description {
                        None => Some(Err("failed to get description"@)),
                        Some(d) => match start_time_spec(start) {
                            None => None,
                            Some(Err(e)) => Some(Err(e)),
                            Some(Ok(t)) => Some(
                                Ok(
                                    ConcertView {
                                        title,
                                        format,
                                        jpy_price: price,
                                        platform,
                                        description: cleaned_description(d),
                                        start_time: t,
                                        image_url: ok_of(image_url_spec(cleaned_description(d))),
                                        twitter_url: ok_of(
                                            twitter_url_spec(cleaned_description(d)),
                                        ),
                                        youtube_link: None,
                                        ticket_link: None,
                                        official_link: None,
                                    },
                                ),
                            ),
                        },
                    },
                },
            },
        },
    }
}

/// The concert that an event holding the properties `props` describes.
pub open spec fn props_concert(props: Map<Seq<char>, PropertyView>) -> Option<
    Result<ConcertView, Seq<char>>,
> {
    concert_from_fields_spec(
        props_text(props, "SUMMARY"@),
        props_text(props, "CATEGORIES"@),
        props_text(props, "DESCRIPTION"@),
        props_start(props),
    )
}

/// The concert that `event` describes.
pub open spec fn concert_spec(event: icalendar::Event) -> Option<Result<ConcertView, Seq<char>>> {
    props_concert(event_properties(event))
}

pub open spec fn concert_view(r: Result<LiveConcert, String>) -> Result<ConcertView, Seq<char>> {
    match r {
        Ok(c) => Ok(c@),
        Err(e) => Err(e@),
    }
}

pub open spec fn opt_concert_view(r: Option<Result<LiveConcert, String>>) -> Option<
    Result<ConcertView, Seq<char>>,
> {
    match r {
        Some(x) => Some(concert_view(x)),
        None => None,
    }
}

fn ok_text(r: Result<String, String>) -> (o: Option<String>)
    ensures
        opt_view(o) == ok_of(text_result_view(r)),
{
    match r {
        Ok(v) => Some(v),
        Err(_) => None,
    }
}

/// The concert described by an event's `summary`, `categories`,
/// `description` and `start`, with identifier `id`; `None` where the start's
/// time zone is unknown.
pub fn concert_from_fields_checked(
    summary: Option<String>,
    categories: Option<String>,
    description: Option<String>,
    start: &Option<EventStart>,
    id: u128,
) -> (r: Option<Result<LiveConcert, String>>)
    ensures
        opt_concert_view(r) == concert_from_fields_spec(
            opt_view(summary),
            opt_view(categories),
            opt_view(description),
            start_view(*start),
        ),
        r matches Some(Ok(c)) ==> c.id == id,
{
    let summary = match summary {
        Some(s) => s,
        None => return Some(Err(String::from_str("failed to get summary"))),
    };
    let categories = match categories {
        Some(c) => c,
        None => return Some(Err(String::from_str("failed to get category"))),
    };
    let summary_str = trim(summary.as_str());
    let category_str = trim(categories.as_str());
    let (title, jpy_price, format) = match get_title_price_and_platform_from_summary(summary_str) {
        Ok(parts) => parts,
        Err(e) => return Some(Err(e)),
    };
    let platform = match get_platform_from_tag(category_str) {
        Ok(p) => p,
        Err(e) => return Some(Err(e)),
    };
    let description = match description {
        Some(d) => d,
        None => return Some(Err(String::from_str("failed to get description"))),
    };
    let trimmed_description = remove_form_link_from_description_and_trim(description.as_str());
    let start_time = match start_time_checked(start) {
        None => return None,
        Some(Err(e)) => return Some(Err(e)),
        Some(Ok(t)) => t,
    };
    let image_url = ok_text(get_image_url_from_description(trimmed_description.as_str()));
    let twitter_url = ok_text(get_twitter_url_from_description(trimmed_description.as_str()));
    Some(
        Ok(
            LiveConcert {
                id,
                title,
                format,
                jpy_price,
                platform,
                description: trimmed_description,
                start_time,
                image_url,
                twitter_url,
                youtube_link: None,
                ticket_link: None,
                official_link: None,
            },
        ),
    )
}

/// The concert described by an event's `summary`, `categories`,
/// `description` and `start`, with identifier `id`.
pub fn concert_from_fields(
    summary: Option<String>,
    categories: Option<String>,
    description: Option<String>,
    start: &Option<EventStart>,
    id: u128,
) -> (r: Result<LiveConcert, String>)
    requires
        concert_from_fields_spec(
            opt_view(summary),
            opt_view(categories),
            opt_view(description),
            start_view(*start),
        ) is Some,
    ensures
        Some(concert_view(r)) == concert_from_fields_spec(
            opt_view(summary),
            opt_view(categories),
            opt_view(description),
            start_view(*start),
        ),
        r matches Ok(c) ==> c.id == id,
{
    match concert_from_fields_checked(summary, categories, description, start, id) {
        Some(r) => r,
        None => {
            proof {
                assert(false);
            }
            Err(String::from_str("start time unavailable"))
        },
    }
}

/// The concert that `event` describes, under a fresh random identifier.
pub fn get_concert_from_event(e: &icalendar::Event) -> (r: Result<LiveConcert, String>)
    requires
        concert_spec(*e) is Some,
    ensures
        Some(concert_view(r)) == concert_spec(*e),
{
    let summary = property_value(e, "SUMMARY");
    let categories = property_value(e, "CATEGORIES");
    let description = property_value(e, "DESCRIPTION");
    let start = event_start(e);
    let id = new_concert_id();
    concert_from_fields(summary, categories, description, &start, id)
}

/// The concert that `event` describes, under a fresh random identifier, or
/// `None` where the time zone of its start is unknown and the reading gets
/// that far.
pub fn get_concert_from_event_checked(e: &icalendar::Event) -> (r: Option<
    Result<LiveConcert, String>,
>)
    ensures
        opt_concert_view(r) == concert_spec(*e),
{
    let summary = property_value(e, "SUMMARY");
    let categories = property_value(e, "CATEGORIES");
    let description = property_value(e, "DESCRIPTION");
    let start = event_start(e);
    let id = new_concert_id();
    concert_from_fields_checked(summary, categories, description, &start, id)
}

} // verus!
