# concert_calendar

Reads a concert calendar published in iCalendar format. Each event's summary
is written `(price)(format)title`, its category names the streaming or ticket
platform, and its description may carry an image link and a twitter link. The
library turns such events into `LiveConcert` values; the web service in `app/`
fetches the feed and answers with the concerts still to come.

Layout:

- `src/text.rs` — substring search, whitespace trimming, replacement and
  integer parsing over characters, each with its meaning stated over `Seq<char>`.
- `src/models.rs` — formats, platforms, prices, timestamps, event starts and
  concerts.
- `src/outside.rs` — the calls into `std`'s Unicode tables, `regex`, `url`,
  `chrono`/`chrono-tz`, `icalendar` and `uuid`, with the contracts they are
  trusted to meet.
- `src/calendar_parser.rs` — reading summaries, prices, formats, platforms,
  links, descriptions, start times and whole concerts from events.
- `src/schedule.rs` — which events lie ahead, and the upcoming concerts of a
  calendar, with the upcoming events whose concert could not be read.
- `src/laws.rs` — properties that hold across these functions.
- `tests/` — tests against the real outside crates.
- `app/` — the Rocket web service.
