//! Properties that hold across the calendar reading functions.

use vstd::prelude::*;
use crate::calendar_parser::{
    cleaned_description, concert_spec, form_link, format_spec, group, image_url_spec,
    platform_spec, price_spec, property_text, start_time_spec, summary_from_search_spec,
    summary_spec, twitter_url_spec,
};
use crate::models::{is_later, ConcertView, JpyPrice, LiveFormat, Platform, StartView, Timestamp};
use crate::outside::{event_start_of, lowercase, regex_captures, url_parse};
use crate::schedule::{future_spec, lemma_day_after, utc_date_of};
use crate::text::{
    lemma_replace_absent, lemma_trim_idempotent, occurs_at, seq_contains, trimmed,
};

verus! {

/// A format text is recognized exactly when it holds the globe or the chair,
/// and holding both together makes it both.
pub proof fn lemma_format_recognized(t: Seq<char>)
    ensures
        format_spec(t) is Ok <==> (seq_contains(t, "🌐"@) || seq_contains(t, "🪑"@)),
        seq_contains(t, "🌐🪑"@) ==> format_spec(t) == Ok::<LiveFormat, Seq<char>>(LiveFormat::Both),
        format_spec(t) is Err ==> format_spec(t) == Err::<LiveFormat, Seq<char>>(
            "Live format conversion failed, the text is "@ + t,
        ),
{
    reveal_strlit("🌐🪑");
    reveal_strlit("🌐");
    if seq_contains(t, "🌐🪑"@) {
        let i = choose|i: int| occurs_at(t, "🌐🪑"@, i);
        assert(t.subrange(i, i + 1) =~= "🌐"@);
        assert(occurs_at(t, "🌐"@, i));
    }
}

/// A category names a platform exactly when its lowercase form is one of the
/// seven platform names, written as they stand, spaces and hyphens included;
/// any other category is refused with an error that quotes it.
pub proof fn lemma_platform_names(tag: Seq<char>)
    ensures
        lowercase(tag) == "spwn"@ ==> platform_spec(tag) == Ok::<Platform, Seq<char>>(Platform::Spwn),
        lowercase(tag) == "youtube"@ ==> platform_spec(tag) == Ok::<Platform, Seq<char>>(
            Platform::Youtube,
        ),
        lowercase(tag) == "z-an"@ ==> platform_spec(tag) == Ok::<Platform, Seq<char>>(Platform::Zan),
        lowercase(tag) == "zaiko"@ ==> platform_spec(tag) == Ok::<Platform, Seq<char>>(
            Platform::Zaiko,
        ),
        lowercase(tag) == "tba"@ ==> platform_spec(tag) == Ok::<Platform, Seq<char>>(Platform::Tba),
        lowercase(tag) == "nico nico douga"@ ==> platform_spec(tag) == Ok::<Platform, Seq<char>>(
            Platform::Niconico,
        ),
        lowercase(tag) == "other"@ ==> platform_spec(tag) == Ok::<Platform, Seq<char>>(
            Platform::Other,
        ),
        lowercase(tag) != "spwn"@ && lowercase(tag) != "youtube"@ && lowercase(tag) != "z-an"@
            && lowercase(tag) != "zaiko"@ && lowercase(tag) != "tba"@ && lowercase(tag)
            != "nico nico douga"@ && lowercase(tag) != "other"@ ==> platform_spec(tag) == Err::<
            Platform,
            Seq<char>,
        >("Calendar category parsing failed, the text is "@ + tag),
{
    reveal_strlit("spwn");
    reveal_strlit("youtube");
    reveal_strlit("z-an");
    reveal_strlit("zaiko");
    reveal_strlit("tba");
    reveal_strlit("nico nico douga");
    reveal_strlit("other");
    let l = lowercase(tag);
    assert("spwn"@.len() == 4 && "spwn"@[0] == 's');
    assert("youtube"@.len() == 7);
    assert("z-an"@.len() == 4 && "z-an"@[0] == 'z');
    assert("zaiko"@.len() == 5 && "zaiko"@[0] == 'z');
    assert("tba"@.len() == 3);
    assert("nico nico douga"@.len() == 15);
    assert("other"@.len() == 5 && "other"@[0] == 'o');
    if l == "z-an"@ {
        assert(l[0] != "spwn"@[0]);
    }
    if l == "other"@ {
        assert(l[0] != "zaiko"@[0]);
    }
}

/// A summary is read by searching it for `^\((.*)\)\((.*)\)(.+)$`: where that
/// search finds the summary with the groups `p`, `f` and `t`, the reading is
/// the title `t` as written, the price `p` names and the format `f` shows (the
/// price's error first, then the format's); where it finds no match, the
/// summary is refused with an error that quotes it.
pub proof fn lemma_summary_reading(summary: Seq<char>, p: Seq<char>, f: Seq<char>, t: Seq<char>)
    ensures
        regex_captures(r"^\((.*)\)\((.*)\)(.+)$"@, summary) == Ok::<
            Option<Seq<Option<Seq<char>>>>,
            Seq<char>,
        >(Some(seq![Some(summary), Some(p), Some(f), Some(t)])) ==> summary_spec(summary)
            == match price_spec(p) {
            Err(e) => Err(e),
            Ok(price) => match format_spec(f) {
                Err(e) => Err(e),
                Ok(format) => Ok::<(Seq<char>, JpyPrice, LiveFormat), Seq<char>>((t, price, format)),
            },
        },
        regex_captures(r"^\((.*)\)\((.*)\)(.+)$"@, summary) == Ok::<
            Option<Seq<Option<Seq<char>>>>,
            Seq<char>,
        >(None) ==> summary_spec(summary) == Err::<(Seq<char>, JpyPrice, LiveFormat), Seq<char>>(
            "Calendar event summary parsing failed, the text is \""@ + summary + "\""@,
        ),
{
}

/// The twitter link of a description is found by searching it for
/// `(https?://(www\.)?twitter\.com\b([-a-zA-Z0-9()@:%_\+.~#?&//=]*))`: where the
/// search finds a match whose first group is `u`, the link is what `Url::parse`
/// gives for the whole of `u`; where it finds no match, the description is
/// refused with an error that quotes it.
pub proof fn lemma_twitter_reading(description: Seq<char>, caps: Seq<Option<Seq<char>>>, u: Seq<char>)
    ensures
        regex_captures(
            r"(https?://(www\.)?twitter\.com\b([-a-zA-Z0-9()@:%_\+.~#?&//=]*))"@,
            description,
        ) == Ok::<Option<Seq<Option<Seq<char>>>>, Seq<char>>(Some(caps)) && group(caps, 1) == Some(
            u,
        ) ==> twitter_url_spec(description) == url_parse(u),
        regex_captures(
            r"(https?://(www\.)?twitter\.com\b([-a-zA-Z0-9()@:%_\+.~#?&//=]*))"@,
            description,
        ) == Ok::<Option<Seq<Option<Seq<char>>>>, Seq<char>>(None) ==> twitter_url_spec(description)
            == Err::<Seq<char>, Seq<char>>(
            "twitter url parse failed, the description is "@ + description,
        ),
{
}

/// The image link of a description is found by searching it first for
/// `!Image: <url>` and then for `!<name>.jpg: <url>` or `.png`: where the first
/// search finds a match whose first group is `u`, the link is what `Url::parse`
/// gives for the whole of `u`; where it finds none and the second finds one
/// whose first group is `u`, the link is `Url::parse` of that `u`; where
/// neither finds a match, the description is refused with an error that
/// quotes it.
pub proof fn lemma_image_reading(
    description: Seq<char>,
    first: Option<Seq<Option<Seq<char>>>>,
    second: Option<Seq<Option<Seq<char>>>>,
    u: Seq<char>,
)
    ensures
        ({
            let found_first = regex_captures(
                r"!Image: (https?://(www\.)?[-a-zA-Z0-9@:%._\+~#=]{1,256}\.[a-zA-Z0-9()]{1,6}\b([-a-zA-Z0-9()@:%_\+.~#?&//=]*))"@,
                description,
            );
            let found_second = regex_captures(
                r"!.+[(\.jpg)|(\.png)]: (https?://(www\.)?[-a-zA-Z0-9@:%._\+~#=]{1,256}\.[a-zA-Z0-9()]{1,6}\b([-a-zA-Z0-9()@:%_\+.~#?&//=]*))"@,
                description,
            );
            &&& found_first == Ok::<Option<Seq<Option<Seq<char>>>>, Seq<char>>(first)
                && found_second == Ok::<Option<Seq<Option<Seq<char>>>>, Seq<char>>(second) && (
            first matches Some(caps) && group(caps, 1) == Some(u)) ==> image_url_spec(description)
                == url_parse(u)
            &&& found_first == Ok::<Option<Seq<Option<Seq<char>>>>, Seq<char>>(None) && found_second
                == Ok::<Option<Seq<Option<Seq<char>>>>, Seq<char>>(second) && (second matches Some(
                caps) && group(caps, 1) == Some(u)) ==> image_url_spec(description) == url_parse(u)
            &&& found_first == Ok::<Option<Seq<Option<Seq<char>>>>, Seq<char>>(None) && found_second
                == Ok::<Option<Seq<Option<Seq<char>>>>, Seq<char>>(None) ==> image_url_spec(
                description,
            ) == Err::<Seq<char>, Seq<char>>(
                "image url parse failed, the description is "@ + description,
            )
        }),
{
}

/// The platform of a category depends on its letters, not on their case.
pub proof fn lemma_platform_ignores_case(a: Seq<char>, b: Seq<char>)
    requires
        lowercase(a) == lowercase(b),
    ensures
        platform_spec(a) is Ok <==> platform_spec(b) is Ok,
        platform_spec(a) is Ok ==> platform_spec(a) == platform_spec(b),
{
}

/// A price that says TBA or TBD, in any case, is to be decided, whatever else it
/// says; one that says free (and neither of those) is free.
pub proof fn lemma_price_keywords(p: Seq<char>)
    ensures
        seq_contains(lowercase(p), "tba"@) || seq_contains(lowercase(p), "tbd"@) ==> price_spec(p)
            == Ok::<JpyPrice, Seq<char>>(JpyPrice::Tbd),
        !seq_contains(lowercase(p), "tba"@) && !seq_contains(lowercase(p), "tbd"@)
            && seq_contains(lowercase(p), "free"@) ==> price_spec(p) == Ok::<JpyPrice, Seq<char>>(
            JpyPrice::Free,
        ),
{
}

/// A summary in which the search for the summary pattern finds the price
/// part `p`, the format part `f` and the title `t` gives the title exactly as
/// written, with the price that `p` names and the format that `f` shows; where
/// the price cannot be read its error is given, also when the format cannot be
/// read either, and otherwise the format's error where it cannot be read.
pub proof fn lemma_summary_parts(summary: Seq<char>, p: Seq<char>, f: Seq<char>, t: Seq<char>)
    ensures
        summary_from_search_spec(summary, Ok(Some(seq![Some(summary), Some(p), Some(f), Some(t)])))
            == match price_spec(p) {
            Err(e) => Err(e),
            Ok(price) => match format_spec(f) {
                Err(e) => Err(e),
                Ok(format) => Ok::<(Seq<char>, JpyPrice, LiveFormat), Seq<char>>((t, price, format)),
            },
        },
{
}

/// A description without the form notice is only trimmed, and a cleaned
/// description has no whitespace at either end and is unchanged by cleaning
/// its whitespace again.
pub proof fn lemma_cleaned_description(d: Seq<char>)
    ensures
        !seq_contains(d, form_link()) ==> cleaned_description(d) == trimmed(d),
        trimmed(cleaned_description(d)) == cleaned_description(d),
{
    reveal_strlit("Event Suggestion Submission form: https://forms.gle/tZwY1M19YUgUhn9i6");
    if !seq_contains(d, form_link()) {
        lemma_replace_absent(d, form_link(), Seq::empty());
    }
    lemma_trim_idempotent(crate::text::replaced(d, form_link(), Seq::empty()));
}

/// For a start that is a date, a UTC date-time or a zoned date-time, the event
/// lies ahead of `now` exactly when its start time comes after `now`, never
/// when its start time is unavailable, and the two readings have a defined
/// outcome on the same starts.
pub proof fn lemma_future_agrees_with_start_time(start: Option<StartView>, now: Timestamp)
    requires
        !(start matches Some(StartView::Floating(_))),
    ensures
        start_time_spec(start) matches Some(Ok(t)) ==> future_spec(start, now) == Some(
            is_later(t, now),
        ),
        start_time_spec(start) matches Some(Err(_)) ==> future_spec(start, now) == Some(false),
        start_time_spec(start) is None <==> future_spec(start, now) is None,
{
    if let Some(StartView::Date { days_from_ce }) = start {
        lemma_day_after(days_from_ce as int, now.secs as int);
    }
}

/// An event that lies ahead of some time also lies ahead of every earlier time.
pub proof fn lemma_future_monotone(start: Option<StartView>, earlier: Timestamp, later: Timestamp)
    requires
        !is_later(earlier, later),
        future_spec(start, later) == Some(true),
    ensures
        future_spec(start, earlier) == Some(true),
{
    if let Some(StartView::Date { days_from_ce }) = start {
        vstd::arithmetic::div_mod::lemma_div_is_ordered(
            earlier.secs as int,
            later.secs as int,
            86_400,
        );
        assert(utc_date_of(earlier) <= utc_date_of(later));
    }
}

/// A concert read from an event has the title, price and format its trimmed
/// summary writes, the platform its trimmed category names, the start time of
/// the event, and a description that the form notice and surrounding whitespace
/// have been removed from.
pub proof fn lemma_concert_parts(e: icalendar::Event, c: ConcertView)
    requires
        concert_spec(e) == Some(Ok::<ConcertView, Seq<char>>(c)),
    ensures
        property_text(e, "SUMMARY"@) matches Some(s) && summary_spec(trimmed(s)) == Ok::<
            (Seq<char>, JpyPrice, LiveFormat),
            Seq<char>,
        >((c.title, c.jpy_price, c.format)),
        property_text(e, "CATEGORIES"@) matches Some(k) && platform_spec(trimmed(k)) == Ok::<
            crate::models::Platform,
            Seq<char>,
        >(c.platform),
        property_text(e, "DESCRIPTION"@) matches Some(d) && c.description == cleaned_description(
            d,
        ),
        start_time_spec(event_start_of(e)) == Some(Ok::<Timestamp, Seq<char>>(c.start_time)),
        trimmed(c.description) == c.description,
        c.youtube_link is None && c.ticket_link is None && c.official_link is None,
{
    let d = property_text(e, "DESCRIPTION"@).unwrap();
    lemma_cleaned_description(d);
}

} // verus!
