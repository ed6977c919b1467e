use chrono::{Duration, NaiveDate, TimeZone, Utc};
use concert_calendar::calendar_parser::start_time_checked;
use concert_calendar::models::{later_than, EventStart, Timestamp};
use concert_calendar::models::ZoneResolution;
use concert_calendar::schedule::{
    concerts_from_reading, is_future_at_checked, is_future_event, is_future_event_checked,
    is_future_given_zone, upcoming_concerts, upcoming_concerts_at, upcoming_concerts_reporting,
};
use icalendar::parser::{read_calendar, unfold};
use icalendar::{Calendar, CalendarComponent, CalendarDateTime, Component, Event, EventLike};

fn stamp_of(t: chrono::DateTime<Utc>) -> Timestamp {
    Timestamp { secs: t.timestamp(), nanos: t.timestamp_subsec_nanos() }
}

#[test]
fn future_and_past_events() {
    let future = Event::new().starts(Utc::now() + Duration::days(30)).done();
    assert!(is_future_event(&future));
    let past = Event::new().starts(Utc::now() - Duration::days(30)).done();
    assert!(!is_future_event(&past));
    let no_start = Event::new().done();
    assert!(!is_future_event(&no_start));
    let tomorrow = Event::new().starts((Utc::now() + Duration::days(2)).date_naive()).done();
    assert!(is_future_event(&tomorrow));
    let today = Event::new().starts(Utc::now().date_naive()).done();
    assert!(!is_future_event(&today));
}

#[test]
fn future_with_unknown_zone_has_no_outcome() {
    let event = Event::new()
        .starts(CalendarDateTime::WithTimezone {
            date_time: NaiveDate::from_ymd_opt(2099, 1, 1).unwrap().and_hms_opt(0, 0, 0).unwrap(),
            tzid: "Atlantis/Capital".to_string(),
        })
        .done();
    assert_eq!(is_future_event_checked(&event), None);
    let known = Event::new()
        .starts(CalendarDateTime::WithTimezone {
            date_time: NaiveDate::from_ymd_opt(2099, 1, 1).unwrap().and_hms_opt(0, 0, 0).unwrap(),
            tzid: "Europe/Paris".to_string(),
        })
        .done();
    assert_eq!(is_future_event_checked(&known), Some(true));
}

#[test]
fn floating_starts_are_read_in_tokyo() {
    let now = stamp_of(Utc.with_ymd_and_hms(2000, 1, 1, 0, 0, 0).unwrap());
    // 05:00 on the wall clock in Tokyo is 20:00 UTC the day before.
    let local = stamp_of(Utc.with_ymd_and_hms(2000, 1, 1, 5, 0, 0).unwrap());
    assert_eq!(is_future_at_checked(&Some(EventStart::Floating(local)), now), Some(false));
    let later = stamp_of(Utc.with_ymd_and_hms(2000, 1, 1, 10, 0, 0).unwrap());
    assert_eq!(is_future_at_checked(&Some(EventStart::Floating(later)), now), Some(true));
}

#[test]
fn future_of_pure_values() {
    let now = Timestamp { secs: 100, nanos: 5 };
    assert_eq!(is_future_at_checked(&None, now), Some(false));
    assert_eq!(is_future_at_checked(&Some(EventStart::Utc(Timestamp { secs: 100, nanos: 6 })), now), Some(true));
    assert_eq!(is_future_at_checked(&Some(EventStart::Utc(Timestamp { secs: 100, nanos: 5 })), now), Some(false));
    assert_eq!(is_future_at_checked(&Some(EventStart::Date { days_from_ce: 719_164 }), now), Some(true));
    assert_eq!(is_future_at_checked(&Some(EventStart::Date { days_from_ce: 719_163 }), now), Some(false));
    let midnight = Timestamp { secs: -86_400, nanos: 0 };
    assert_eq!(is_future_at_checked(&Some(EventStart::Date { days_from_ce: 719_163 }), midnight), Some(true));
}

#[test]
fn future_agrees_with_start_time_on_values() {
    let now = Timestamp { secs: 1_000_000, nanos: 0 };
    for start in [
        Some(EventStart::Date { days_from_ce: 719_175 }),
        Some(EventStart::Date { days_from_ce: 719_174 }),
        Some(EventStart::Utc(Timestamp { secs: 999_999, nanos: 0 })),
        Some(EventStart::WithTimezone { local: Timestamp { secs: 1_040_000, nanos: 0 }, tzid: "Asia/Tokyo".to_string() }),
        None,
    ] {
        let expected = match start_time_checked(&start).unwrap() {
            Ok(t) => later_than(t, now),
            Err(_) => false,
        };
        assert_eq!(is_future_at_checked(&start, now), Some(expected));
    }
}

#[test]
fn future_monotone_on_values() {
    let start = Some(EventStart::Date { days_from_ce: 719_200 });
    let later = Timestamp { secs: 3_000_000, nanos: 0 };
    let earlier = Timestamp { secs: -5, nanos: 0 };
    assert_eq!(is_future_at_checked(&start, later), Some(true));
    assert_eq!(is_future_at_checked(&start, earlier), Some(true));
}

fn components(events: &str) -> Vec<CalendarComponent> {
    let text = format!("BEGIN:VCALENDAR\r\nVERSION:2.0\r\nPRODID:-//test//EN\r\n{}END:VCALENDAR\r\n", events);
    let calendar: Calendar = read_calendar(&unfold(&text)).unwrap().into();
    calendar.components
}

fn vevent(uid: &str, start: &str, summary: &str, category: &str, description: &str) -> String {
    format!(
        "BEGIN:VEVENT\r\nUID:{}\r\nDTSTAMP:20240101T000000Z\r\nDTSTART{}\r\nSUMMARY:{}\r\nCATEGORIES:{}\r\nDESCRIPTION:{}\r\nEND:VEVENT\r\n",
        uid, start, summary, category, description
    )
}

#[test]
fn upcoming_concerts_of_a_calendar() {
    let list = components(&format!(
        "{}{}{}{}BEGIN:VJOURNAL\r\nUID:5\r\nSUMMARY:(¥1)(🌐)Journal\r\nEND:VJOURNAL\r\n",
        vevent("1", ":20991231T100000Z", "(¥3500)(🌐)Future Live", "SPWN", "Great show"),
        vevent("2", ":20000101T100000Z", "(¥3500)(🌐)Past Live", "SPWN", "Old show"),
        vevent("3", ":20991231T100000Z", "No price here", "SPWN", "Broken"),
        vevent("4", ";VALUE=DATE:20981231", "(Free)(🪑)Day Live", "Other", "All day"),
    ));
    let concerts = upcoming_concerts(&list).unwrap();
    let titles: Vec<&str> = concerts.iter().map(|c| c.title.as_str()).collect();
    assert_eq!(titles, vec!["Future Live", "Day Live"]);
    assert_eq!(concerts[0].description, "Great show");
    assert_ne!(concerts[0].id, concerts[1].id);
}

#[test]
fn empty_calendar_has_no_concerts() {
    assert_eq!(upcoming_concerts(&components("")).map(|v| v.len()), Some(0));
}

#[test]
fn calendar_with_unknown_zone() {
    let list = components(&vevent("9", ";TZID=Nowhere/Land:20991231T100000", "(¥1)(🌐)X", "SPWN", "x"));
    assert!(upcoming_concerts(&list).is_none());
    let past = components(&vevent("9", ";TZID=Nowhere/Land:20001231T100000", "(¥1)(🌐)X", "SPWN", "x"));
    assert!(upcoming_concerts(&past).is_none());
}

#[test]
fn upcoming_concerts_at_given_times() {
    let list = components(&format!(
        "{}BEGIN:VJOURNAL\r\nUID:7\r\nEND:VJOURNAL\r\n{}{}",
        vevent("1", ":20300101T100000Z", "(¥10)(🌐)A", "SPWN", "a"),
        vevent("2", ":20300101T100000Z", "(¥20)(🪑)B", "ZAIKO", "b"),
        vevent("3", ":20300101T100000Z", "(¥30)(🌐)C", "Other", "c"),
    ));
    let before = stamp_of(Utc.with_ymd_and_hms(2029, 1, 1, 0, 0, 0).unwrap());
    let after = stamp_of(Utc.with_ymd_and_hms(2031, 1, 1, 0, 0, 0).unwrap());
    let nows = vec![before, after, after, before];
    let concerts = upcoming_concerts_at(&list, &nows).unwrap();
    let titles: Vec<&str> = concerts.iter().map(|c| c.title.as_str()).collect();
    assert_eq!(titles, vec!["A", "C"]);
    let all = upcoming_concerts_at(&list, &vec![before; 4]).unwrap();
    assert_eq!(all.len(), 3);
    assert_eq!(upcoming_concerts_at(&list, &vec![after; 4]).unwrap().len(), 0);
}

#[test]
fn upcoming_concerts_at_with_unknown_zone() {
    let list = components(&format!(
        "{}{}",
        vevent("1", ":20300101T100000Z", "(¥10)(🌐)A", "SPWN", "a"),
        vevent("2", ";TZID=Nowhere/Land:20300101T100000", "(¥1)(🌐)X", "SPWN", "x"),
    ));
    let t = Timestamp { secs: 0, nanos: 0 };
    assert!(upcoming_concerts_at(&list, &vec![t, t]).is_none());
}

#[test]
fn reading_outcomes() {
    assert_eq!(
        concerts_from_reading(Err(String::from("cannot read"))).map(|o| o.map(|(v, _)| v.len())),
        Err(String::from("cannot read"))
    );
    let list = components(&vevent("1", ":20990101T100000Z", "(¥10)(🌐)A", "SPWN", "a"));
    let (got, failed) = concerts_from_reading(Ok(list)).unwrap().unwrap();
    assert_eq!(got.len(), 1);
    assert_eq!(got[0].title, "A");
    assert!(failed.is_empty());
}

#[test]
fn unreadable_upcoming_events_are_reported() {
    let list = components(&format!(
        "{}BEGIN:VJOURNAL\r\nUID:5\r\nEND:VJOURNAL\r\n{}{}{}",
        vevent("1", ":20991231T100000Z", "(¥3500)(🌐)Future Live", "SPWN", "Great show"),
        vevent("2", ":20991231T100000Z", "No price here", "SPWN", "Broken"),
        vevent("3", ":20000101T100000Z", "Also broken", "SPWN", "Old"),
        vevent("4", ":20991231T100000Z", "(¥1)(🌐)Odd", "Unknown Site", "x"),
    ));
    let (concerts, failed) = upcoming_concerts_reporting(&list).unwrap();
    let titles: Vec<&str> = concerts.iter().map(|c| c.title.as_str()).collect();
    assert_eq!(titles, vec!["Future Live"]);
    assert_eq!(
        failed,
        vec![
            (2, String::from("Calendar event summary parsing failed, the text is \"No price here\"")),
            (4, String::from("Calendar category parsing failed, the text is Unknown Site")),
        ]
    );
    let (_, none_failed) = concerts_from_reading(Ok(components(""))).unwrap().unwrap();
    assert!(none_failed.is_empty());
}

#[test]
fn future_given_zone_values() {
    let now = Timestamp { secs: 1_000, nanos: 0 };
    let local = Timestamp { secs: 5_000, nanos: 0 };
    let zoned = Some(EventStart::WithTimezone { local, tzid: "Anywhere".to_string() });
    let later = ZoneResolution::Single(Timestamp { secs: 2_000, nanos: 0 });
    let earlier = ZoneResolution::Single(Timestamp { secs: 500, nanos: 0 });
    assert_eq!(is_future_given_zone(&zoned, now, later), Some(true));
    assert_eq!(is_future_given_zone(&zoned, now, earlier), Some(false));
    assert_eq!(is_future_given_zone(&zoned, now, ZoneResolution::Ambiguous), Some(false));
    assert_eq!(is_future_given_zone(&zoned, now, ZoneResolution::UnknownZone), None);
    let floating = Some(EventStart::Floating(local));
    assert_eq!(is_future_given_zone(&floating, now, later), Some(true));
    assert_eq!(is_future_given_zone(&floating, now, ZoneResolution::Nonexistent), None);
}

#[test]
fn starts_before_1970_are_never_ahead() {
    let old = Event::new().starts(Utc.with_ymd_and_hms(1969, 12, 31, 23, 0, 0).unwrap()).done();
    assert_eq!(is_future_event_checked(&old), Some(false));
}
