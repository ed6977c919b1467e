use chrono::{NaiveDate, TimeZone, Utc};
use concert_calendar::calendar_parser::{
    get_concert_from_event, get_concert_from_event_checked, get_format_from_string, get_image_url_from_description,
    get_price_from_string, get_start_time_from_event, get_start_time_from_event_checked,
    get_twitter_url_from_description, get_title_price_and_platform_from_summary,
    platform_from_lowercase, price_from_searches, remove_form_link_from_description_and_trim,
    start_time_checked, start_time_given_zone, summary_from_search,
};
use concert_calendar::models::{EventStart, JpyPrice, LiveFormat, Platform, Timestamp, ZoneResolution};
use icalendar::{CalendarDateTime, Component, Event, EventLike};

const NOTICE: &str = "Event Suggestion Submission form: https://forms.gle/tZwY1M19YUgUhn9i6";

fn stamp(y: i32, mo: u32, d: u32, h: u32, mi: u32, s: u32) -> Timestamp {
    let t = Utc.with_ymd_and_hms(y, mo, d, h, mi, s).unwrap();
    Timestamp { secs: t.timestamp(), nanos: 0 }
}

fn concert_event(start: CalendarDateTime) -> Event {
    Event::new()
        .summary("  (¥3500+)(🌐🪑)Gaoh Omi 1st Live ")
        .add_property("CATEGORIES", " SPWN ")
        .description(&format!(
            "  Big show !Image: https://example.com/poster.png see https://twitter.com/gaoh_omi {}  ",
            NOTICE
        ))
        .starts(start)
        .done()
}

#[test]
fn concert_read_from_event() {
    let event = concert_event(Utc.with_ymd_and_hms(2030, 5, 1, 10, 0, 0).unwrap().into());
    let concert = get_concert_from_event(&event).unwrap();
    assert_eq!(concert.title, "Gaoh Omi 1st Live");
    assert_eq!(concert.jpy_price, JpyPrice::MultiTier(3500));
    assert_eq!(concert.format, LiveFormat::Both);
    assert_eq!(concert.platform, Platform::Spwn);
    assert_eq!(
        concert.description,
        "Big show !Image: https://example.com/poster.png see https://twitter.com/gaoh_omi"
    );
    assert_eq!(concert.start_time, stamp(2030, 5, 1, 10, 0, 0));
    assert_eq!(concert.image_url.as_deref(), Some("https://example.com/poster.png"));
    assert_eq!(concert.twitter_url.as_deref(), Some("https://twitter.com/gaoh_omi"));
    assert_eq!(concert.youtube_link, None);
    assert_eq!(concert.ticket_link, None);
    assert_eq!(concert.official_link, None);
}

#[test]
fn concert_parts_law_on_values() {
    let event = concert_event(Utc.with_ymd_and_hms(2030, 5, 1, 10, 0, 0).unwrap().into());
    let concert = get_concert_from_event(&event).unwrap();
    let (title, price, format) =
        get_title_price_and_platform_from_summary("(¥3500+)(🌐🪑)Gaoh Omi 1st Live").unwrap();
    assert_eq!((concert.title.clone(), concert.jpy_price, concert.format), (title, price, format));
    assert_eq!(concert.description.trim(), concert.description);
    assert_eq!(Ok(concert.start_time), get_start_time_from_event(&event));
}

#[test]
fn concert_errors_name_the_missing_part() {
    let no_summary = Event::new().description("d").done();
    assert_eq!(get_concert_from_event(&no_summary).unwrap_err(), "failed to get summary");
    let no_category = Event::new().summary("(¥1)(🌐)T").description("d").done();
    assert_eq!(get_concert_from_event(&no_category).unwrap_err(), "failed to get category");
    let no_description =
        Event::new().summary("(¥1)(🌐)T").add_property("CATEGORIES", "zaiko").done();
    assert_eq!(get_concert_from_event(&no_description).unwrap_err(), "failed to get description");
    let no_start = Event::new()
        .summary("(¥1)(🌐)T")
        .add_property("CATEGORIES", "zaiko")
        .description("d")
        .done();
    assert_eq!(get_concert_from_event(&no_start).unwrap_err(), "start time unavailable");
    let bad_summary = Event::new()
        .summary("Title only")
        .add_property("CATEGORIES", "zaiko")
        .description("d")
        .done();
    assert_eq!(
        get_concert_from_event(&bad_summary).unwrap_err(),
        "Calendar event summary parsing failed, the text is \"Title only\""
    );
    let bad_category = Event::new()
        .summary("(¥1)(🌐)T")
        .add_property("CATEGORIES", "Twitch")
        .description("d")
        .done();
    assert_eq!(
        get_concert_from_event(&bad_category).unwrap_err(),
        "Calendar category parsing failed, the text is Twitch"
    );
}

#[test]
fn concert_without_links_has_none() {
    let event = Event::new()
        .summary("(Free)(🪑)Meet")
        .add_property("CATEGORIES", "Other")
        .description("no links")
        .starts(NaiveDate::from_ymd_opt(2031, 2, 3).unwrap())
        .done();
    let concert = get_concert_from_event(&event).unwrap();
    assert_eq!(concert.jpy_price, JpyPrice::Free);
    assert_eq!(concert.format, LiveFormat::Irl);
    assert_eq!(concert.platform, Platform::Other);
    assert_eq!(concert.image_url, None);
    assert_eq!(concert.twitter_url, None);
    assert_eq!(concert.start_time, stamp(2031, 2, 3, 0, 0, 0));
}

#[test]
fn start_time_of_each_kind() {
    let utc = Event::new().starts(Utc.with_ymd_and_hms(2024, 1, 2, 3, 4, 5).unwrap()).done();
    assert_eq!(get_start_time_from_event(&utc), Ok(stamp(2024, 1, 2, 3, 4, 5)));
    let date = Event::new().starts(NaiveDate::from_ymd_opt(1969, 12, 31).unwrap()).done();
    assert_eq!(get_start_time_from_event(&date), Ok(stamp(1969, 12, 31, 0, 0, 0)));
    let floating = Event::new()
        .starts(NaiveDate::from_ymd_opt(2024, 6, 1).unwrap().and_hms_opt(18, 30, 0).unwrap())
        .done();
    assert_eq!(get_start_time_from_event(&floating), Ok(stamp(2024, 6, 1, 18, 30, 0)));
    let zoned = Event::new()
        .starts(CalendarDateTime::WithTimezone {
            date_time: NaiveDate::from_ymd_opt(2024, 1, 1).unwrap().and_hms_opt(9, 0, 0).unwrap(),
            tzid: "Asia/Tokyo".to_string(),
        })
        .done();
    assert_eq!(get_start_time_from_event(&zoned), Ok(stamp(2024, 1, 1, 0, 0, 0)));
    let none = Event::new().done();
    assert_eq!(get_start_time_from_event(&none), Err(String::from("start time unavailable")));
}

#[test]
fn start_time_in_a_gap_or_overlap_is_unavailable() {
    let ambiguous = Event::new()
        .starts(CalendarDateTime::WithTimezone {
            date_time: NaiveDate::from_ymd_opt(2023, 11, 5).unwrap().and_hms_opt(1, 30, 0).unwrap(),
            tzid: "America/New_York".to_string(),
        })
        .done();
    assert_eq!(get_start_time_from_event(&ambiguous), Err(String::from("start time unavailable")));
    let skipped = Event::new()
        .starts(CalendarDateTime::WithTimezone {
            date_time: NaiveDate::from_ymd_opt(2023, 3, 12).unwrap().and_hms_opt(2, 30, 0).unwrap(),
            tzid: "America/New_York".to_string(),
        })
        .done();
    assert_eq!(get_start_time_from_event(&skipped), Err(String::from("start time unavailable")));
}

#[test]
fn unknown_zone_has_no_defined_start() {
    let event = concert_event(CalendarDateTime::WithTimezone {
        date_time: NaiveDate::from_ymd_opt(2030, 1, 1).unwrap().and_hms_opt(9, 0, 0).unwrap(),
        tzid: "Tokyo Standard Time".to_string(),
    });
    assert_eq!(get_start_time_from_event_checked(&event), None);
    assert!(get_concert_from_event_checked(&event).is_none());
    let unreadable = Event::new()
        .summary("broken")
        .add_property("CATEGORIES", "SPWN")
        .description("d")
        .starts(CalendarDateTime::WithTimezone {
            date_time: NaiveDate::from_ymd_opt(2030, 1, 1).unwrap().and_hms_opt(9, 0, 0).unwrap(),
            tzid: "Nowhere/Else".to_string(),
        })
        .done();
    assert!(matches!(get_concert_from_event_checked(&unreadable), Some(Err(_))));
}

#[test]
fn start_time_of_pure_values() {
    assert_eq!(
        start_time_checked(&Some(EventStart::Date { days_from_ce: 719_163 })),
        Some(Ok(Timestamp { secs: 0, nanos: 0 }))
    );
    let t = Timestamp { secs: 42, nanos: 7 };
    assert_eq!(start_time_checked(&Some(EventStart::Floating(t))), Some(Ok(t)));
    assert_eq!(start_time_checked(&None), Some(Err(String::from("start time unavailable"))));
    assert_eq!(
        start_time_checked(&Some(EventStart::WithTimezone { local: t, tzid: "Mars/Olympus".to_string() })),
        None
    );
}

#[test]
fn price_errors_and_precedence() {
    assert_eq!(
        get_price_from_string("¥abc"),
        Err(String::from("Price conversion failed, the string is ¥abc"))
    );
    assert_eq!(
        get_price_from_string("¥99999999999"),
        Err(String::from("Price conversion failed, the string is 99999999999"))
    );
    assert_eq!(
        get_price_from_string("¥99999999999+"),
        Err(String::from("Price conversion failed, the string is 99999999999"))
    );
    assert_eq!(get_price_from_string("¥3000 TBD"), Ok(JpyPrice::Tbd));
    assert_eq!(get_price_from_string("tba / free"), Ok(JpyPrice::Tbd));
    assert_eq!(get_price_from_string("FREE entry"), Ok(JpyPrice::Free));
    assert_eq!(get_price_from_string("¥0042"), Ok(JpyPrice::Fixed(42)));
}

#[test]
fn price_from_given_searches() {
    let single = Ok(Some(vec![Some(String::from("¥12")), Some(String::from("12"))]));
    let multi = Ok(None);
    assert_eq!(price_from_searches("¥12", "¥12", &single, &multi), Ok(JpyPrice::Fixed(12)));
    let no_single = Ok(None);
    let multi_hit = Ok(Some(vec![Some(String::from("¥7+")), Some(String::from("7"))]));
    assert_eq!(price_from_searches("¥7+", "¥7+", &no_single, &multi_hit), Ok(JpyPrice::MultiTier(7)));
    let refused: Result<Option<Vec<Option<String>>>, String> = Err(String::from("bad pattern"));
    assert_eq!(price_from_searches("x", "x", &refused, &multi), Err(String::from("bad pattern")));
    assert_eq!(
        price_from_searches("x", "x", &no_single, &Ok(None)),
        Err(String::from("Price conversion failed, the string is x"))
    );
}

#[test]
fn summary_from_given_search() {
    let found = Ok(Some(vec![
        Some(String::from("(Free)(🌐)T")),
        Some(String::from("Free")),
        Some(String::from("🌐")),
        Some(String::from("T")),
    ]));
    assert_eq!(
        summary_from_search("(Free)(🌐)T", &found),
        Ok((String::from("T"), JpyPrice::Free, LiveFormat::Online))
    );
    assert_eq!(
        summary_from_search("plain", &Ok(None)),
        Err(String::from("Calendar event summary parsing failed, the text is \"plain\""))
    );
}

#[test]
fn summary_parts_law_on_values() {
    let groups = |p: &str, f: &str, t: &str| {
        Ok(Some(vec![
            Some(format!("({})({}){}", p, f, t)),
            Some(String::from(p)),
            Some(String::from(f)),
            Some(String::from(t)),
        ]))
    };
    assert_eq!(
        summary_from_search("(x)(y) Title ", &groups("x", "y", " Title ")),
        Err(String::from("Price conversion failed, the string is x"))
    );
    assert_eq!(
        summary_from_search("(TBD)(y)T", &groups("TBD", "y", "T")),
        Err(String::from("Live format conversion failed, the text is y"))
    );
    assert_eq!(
        summary_from_search("(¥7)(🪑) Title ", &groups("¥7", "🪑", " Title ")),
        Ok((String::from(" Title "), JpyPrice::Fixed(7), LiveFormat::Irl))
    );
}

#[test]
fn summary_errors_come_from_parts() {
    assert_eq!(
        get_title_price_and_platform_from_summary("(¥x)(🌐)T"),
        Err(String::from("Price conversion failed, the string is ¥x"))
    );
    assert_eq!(
        get_title_price_and_platform_from_summary("(¥1)(x)T"),
        Err(String::from("Live format conversion failed, the text is x"))
    );
    assert_eq!(
        get_title_price_and_platform_from_summary("(¥1)(🌐)"),
        Err(String::from("Calendar event summary parsing failed, the text is \"(¥1)(🌐)\""))
    );
}

#[test]
fn platform_names() {
    assert_eq!(platform_from_lowercase("Nico Nico Douga", "nico nico douga"), Ok(Platform::Niconico));
    assert_eq!(get_platform_from_tag_value("YouTube"), Ok(Platform::Youtube));
    assert_eq!(get_platform_from_tag_value("tba"), Ok(Platform::Tba));
}

fn get_platform_from_tag_value(s: &str) -> Result<Platform, String> {
    concert_calendar::calendar_parser::get_platform_from_tag(s)
}

#[test]
fn platform_case_law_on_values() {
    assert_eq!(get_platform_from_tag_value("zAiKo"), get_platform_from_tag_value("ZAIKO"));
}

#[test]
fn price_keyword_law_on_values() {
    assert_eq!(get_price_from_string("¥5000 (TbA)"), Ok(JpyPrice::Tbd));
    assert_eq!(get_price_from_string("Free ¥5000"), Ok(JpyPrice::Free));
}

#[test]
fn format_law_on_values() {
    assert_eq!(get_format_from_string("x🪑🌐x"), Ok(LiveFormat::Online));
    assert_eq!(get_format_from_string("a🌐🪑b"), Ok(LiveFormat::Both));
    assert!(get_format_from_string("none").is_err());
}

#[test]
fn links_in_descriptions() {
    assert_eq!(
        get_image_url_from_description("!Image: https://www.example.org/a.jpg"),
        Ok(String::from("https://www.example.org/a.jpg"))
    );
    assert_eq!(
        get_image_url_from_description("!poster.png: https://example.org/p"),
        Ok(String::from("https://example.org/p"))
    );
    assert_eq!(
        get_image_url_from_description("nothing"),
        Err(String::from("image url parse failed, the description is nothing"))
    );
    assert_eq!(
        get_twitter_url_from_description("at https://twitter.com"),
        Ok(String::from("https://twitter.com/"))
    );
    assert_eq!(
        get_twitter_url_from_description("none"),
        Err(String::from("twitter url parse failed, the description is none"))
    );
}

#[test]
fn form_notice_removed() {
    assert_eq!(
        remove_form_link_from_description_and_trim(&format!("  Show {} more {}\n", NOTICE, NOTICE)),
        "Show  more"
    );
    assert_eq!(remove_form_link_from_description_and_trim(" plain "), "plain");
    let cleaned = remove_form_link_from_description_and_trim(&format!("\t{}\t", NOTICE));
    assert_eq!(cleaned, "");
    assert_eq!(remove_form_link_from_description_and_trim(&cleaned), cleaned);
}

#[test]
fn start_time_given_zone_values() {
    let local = Timestamp { secs: 100, nanos: 0 };
    let zoned = Some(EventStart::WithTimezone { local, tzid: "Anywhere".to_string() });
    let t = Timestamp { secs: 7, nanos: 3 };
    assert_eq!(start_time_given_zone(&zoned, ZoneResolution::Single(t)), Some(Ok(t)));
    assert_eq!(
        start_time_given_zone(&zoned, ZoneResolution::Ambiguous),
        Some(Err(String::from("start time unavailable")))
    );
    assert_eq!(start_time_given_zone(&zoned, ZoneResolution::UnknownZone), None);
    assert_eq!(start_time_given_zone(&Some(EventStart::Utc(t)), ZoneResolution::UnknownZone), Some(Ok(t)));
}
