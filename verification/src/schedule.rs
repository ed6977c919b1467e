//! Which calendar events lie ahead, and the concerts of a calendar's upcoming
//! events.

use vstd::prelude::*;
use crate::calendar_parser::{concert_spec, get_concert_from_event, props_concert, start_time_spec};
use crate::models::{
    is_later, later_than, ConcertView, EventStart, LiveConcert, StartView, Timestamp,
    ZoneResolution,
};
use crate::outside::{
    component_event, component_events, event_properties, event_start, event_start_of,
    props_start, resolve_local_time, start_view, utc_now, zone_resolution, PropertyView,
};

verus! {

/// The zone in which a start with no time zone is read.
pub open spec fn tokyo() -> Seq<char> {
    "Asia/Tokyo"@
}

/// The day number (from the common era) of the UTC date at `now`.
pub open spec fn utc_date_of(now: Timestamp) -> int {
    (now.secs as int) / 86_400 + 719_163
}

/// What the time zone database gives for the wall-clock reading of a start:
/// in Tokyo for a start with no zone, in its own zone for a zoned one (a start
/// of any other kind needs no zone; `UnknownZone` stands in for it).
pub open spec fn future_zone(start: Option<StartView>) -> ZoneResolution {
    match start {
        Some(StartView::Floating(t)) => zone_resolution(tokyo(), t),
        Some(StartView::WithTimezone { local, tzid }) => zone_resolution(tzid, local),
        _ => ZoneResolution::UnknownZone,
    }
}

/// Whether an event with start `start` lies ahead of `now`, where the
/// wall-clock reading of a start with no zone or with a zone resolves to
/// `zone`: a date when it comes after today's UTC date, a date-time when its
/// instant comes after `now`, never where a zoned reading is ambiguous or
/// skipped. `None` where the start has no defined outcome: an unknown zone, or
/// a reading with no zone that is not a single instant.
pub open spec fn future_given(start: Option<StartView>, now: Timestamp, zone: ZoneResolution) -> Option<bool> {
    match start {
        None => Some(false),
        Some(StartView::Date { days_from_ce }) => Some(days_from_ce > utc_date_of(now)),
        Some(StartView::Utc(t)) => Some(is_later(t, now)),
        Some(StartView::Floating(_)) => match zone {
            ZoneResolution::Single(u) => Some(is_later(u, now)),
            _ => None,
        },
        Some(StartView::WithTimezone { .. }) => match zone {
            ZoneResolution::UnknownZone => None,
            ZoneResolution::Single(u) => Some(is_later(u, now)),
            _ => Some(false),
        },
    }
}

/// Whether an event with start `start` lies ahead of `now`: one with no zone
/// read in Tokyo, one with a zone read there.
pub open spec fn future_spec(start: Option<StartView>, now: Timestamp) -> Option<bool> {
    future_given(start, now, future_zone(start))
}

/// Whether an event with start `start` can be placed in time at all.
pub open spec fn future_defined(start: Option<StartView>) -> bool {
    match start {
        Some(StartView::Floating(t)) => zone_resolution(tokyo(), t) is Single,
        Some(StartView::WithTimezone { local, tzid }) => !(zone_resolution(
            tzid,
            local,
        ) is UnknownZone),
        _ => true,
    }
}

/// Whether an event lies ahead has a defined outcome on the same starts at
/// every time.
pub proof fn lemma_future_defined(start: Option<StartView>, now: Timestamp)
    ensures
        future_defined(start) <==> future_spec(start, now) is Some,
{
}

/// A day starts after `secs` exactly when it comes after the UTC date at `secs`.
pub proof fn lemma_day_after(d: int, secs: int)
    ensures
        (d > secs / 86_400 + 719_163) == ((d - 719_163) * 86_400 > secs),
{
    let q = secs / 86_400;
    let k = d - 719_163;
    assert(secs == 86_400 * q + secs % 86_400 && 0 <= secs % 86_400 < 86_400);
    if k > q {
        assert(k * 86_400 >= (q + 1) * 86_400) by (nonlinear_arith)
            requires
                k >= q + 1,
        ;
    } else {
        assert(k * 86_400 <= q * 86_400) by (nonlinear_arith)
            requires
                k <= q,
        ;
    }
}

/// Whether an event with start `start` lies ahead of `now`, given `zone`, what
/// the wall-clock reading of a start with no zone or with a zone resolves to;
/// `None` where the start has no defined outcome.
pub fn is_future_given_zone(start: &Option<EventStart>, now: Timestamp, zone: ZoneResolution) -> (r:
    Option<bool>)
    ensures
        r == future_given(start_view(*start), now, zone),
{
    match start {
        None => Some(false),
        Some(EventStart::Date { days_from_ce }) => {
            let midnight: i64 = (*days_from_ce as i64 - 719_163) * 86_400;
            proof {
                lemma_day_after(*days_from_ce as int, now.secs as int);
            }
            Some(midnight > now.secs)
        },
        Some(EventStart::Utc(t)) => Some(later_than(*t, now)),
        Some(EventStart::Floating(_)) => match zone {
            ZoneResolution::Single(u) => Some(later_than(u, now)),
            _ => None,
        },
        Some(EventStart::WithTimezone { .. }) => match zone {
            ZoneResolution::UnknownZone => None,
            ZoneResolution::Single(u) => Some(later_than(u, now)),
            _ => Some(false),
        },
    }
}

/// Whether an event with start `start` lies ahead of `now`, or `None` where its
/// start has no defined outcome.
pub fn is_future_at_checked(start: &Option<EventStart>, now: Timestamp) -> (r: Option<bool>)
    ensures
        r == future_spec(start_view(*start), now),
{
    let zone = match start {
        Some(EventStart::Floating(t)) => resolve_local_time("Asia/Tokyo", *t),
        Some(EventStart::WithTimezone { local, tzid }) => resolve_local_time(tzid.as_str(), *local),
        _ => ZoneResolution::UnknownZone,
    };
    is_future_given_zone(start, now, zone)
}

/// Whether `event` starts after the current time.
pub fn is_future_event(event: &icalendar::Event) -> (r: bool)
    requires
        future_defined(event_start_of(*event)),
    ensures
        exists|now: Timestamp|
            now.wf() && now.is_clock_reading() && #[trigger] future_spec(event_start_of(*event), now)
                == Some(r),
{
    let start = event_start(event);
    let now = utc_now();
    proof {
        lemma_future_defined(event_start_of(*event), now);
    }
    match is_future_at_checked(&start, now) {
        Some(b) => {
            assert(now.wf() && now.is_clock_reading() && future_spec(event_start_of(*event), now) == Some(b));
            b
        },
        None => {
            proof {
                assert(false);
            }
            false
        },
    }
}

/// Whether `event` starts after the current time, or `None` where its start
/// has no defined outcome.
pub fn is_future_event_checked(event: &icalendar::Event) -> (r: Option<bool>)
    ensures
        r is None <==> !future_defined(event_start_of(*event)),
        r matches Some(b) ==> exists|now: Timestamp|
            now.wf() && now.is_clock_reading() && #[trigger] future_spec(event_start_of(*event), now)
                == Some(b),
{
    let start = event_start(event);
    let now = utc_now();
    proof {
        lemma_future_defined(event_start_of(*event), now);
    }
    let r = is_future_at_checked(&start, now);
    if let Some(b) = r {
        assert(now.wf() && now.is_clock_reading() && future_spec(event_start_of(*event), now) == Some(b));
    }
    r
}

/// The properties of the event that component `i` of `cs` holds (meaningful
/// where it holds one).
pub open spec fn held_event(cs: Seq<icalendar::CalendarComponent>, i: int) -> Map<
    Seq<char>,
    PropertyView,
> {
    component_events(cs[i])[0]
}

/// Component `i` of `cs` holds an event.
pub open spec fn holds_event(cs: Seq<icalendar::CalendarComponent>, i: int) -> bool {
    0 <= i < cs.len() && component_events(cs[i]).len() > 0
}

/// Component `i` of `cs` holds an event whose start cannot be placed in time.
pub open spec fn unplaceable_at(cs: Seq<icalendar::CalendarComponent>, i: int) -> bool {
    holds_event(cs, i) && !future_defined(props_start(held_event(cs, i)))
}

/// Some component of `cs` holds an event whose start cannot be placed in time.
pub open spec fn holds_unplaceable(cs: Seq<icalendar::CalendarComponent>) -> bool {
    exists|i: int| #[trigger] unplaceable_at(cs, i)
}

/// What component `i` of `cs` adds to the upcoming concerts when looked at at
/// `now`: the concert of the event it holds, where that event lies ahead of
/// `now` and describes a concert; nothing otherwise.
pub open spec fn contribution(cs: Seq<icalendar::CalendarComponent>, i: int, now: Timestamp) -> Seq<
    ConcertView,
> {
    if holds_event(cs, i) && future_spec(props_start(held_event(cs, i)), now) == Some(true) {
        match props_concert(held_event(cs, i)) {
            Some(Ok(c)) => seq![c],
            _ => Seq::empty(),
        }
    } else {
        Seq::empty()
    }
}

/// The upcoming concerts of the first `n` components of `cs`, in order, each
/// component looked at at its time in `nows`.
pub open spec fn upcoming_prefix(
    cs: Seq<icalendar::CalendarComponent>,
    nows: Seq<Timestamp>,
    n: int,
) -> Seq<ConcertView>
    decreases n,
{
    if n <= 0 {
        Seq::empty()
    } else {
        upcoming_prefix(cs, nows, n - 1) + contribution(cs, n - 1, nows[n - 1])
    }
}

/// The upcoming concerts of the components `cs`, in calendar order, component
/// `j` looked at at `nows[j]`.
pub open spec fn upcoming_list(cs: Seq<icalendar::CalendarComponent>, nows: Seq<Timestamp>) -> Seq<
    ConcertView,
> {
    upcoming_prefix(cs, nows, cs.len() as int)
}

/// What component `i` of `cs` reports as a failure when looked at at `now`:
/// its index and the error, where it holds an event that lies ahead of `now`
/// but does not describe a readable concert; nothing otherwise.
pub open spec fn failure(cs: Seq<icalendar::CalendarComponent>, i: int, now: Timestamp) -> Seq<
    (usize, Seq<char>),
> {
    if holds_event(cs, i) && future_spec(props_start(held_event(cs, i)), now) == Some(true) {
        match props_concert(held_event(cs, i)) {
            Some(Err(e)) => seq![(i as usize, e)],
            _ => Seq::empty(),
        }
    } else {
        Seq::empty()
    }
}

/// The failures of the first `n` components of `cs`, in order, each component
/// looked at at its time in `nows`.
pub open spec fn failures_prefix(
    cs: Seq<icalendar::CalendarComponent>,
    nows: Seq<Timestamp>,
    n: int,
) -> Seq<(usize, Seq<char>)>
    decreases n,
{
    if n <= 0 {
        Seq::empty()
    } else {
        failures_prefix(cs, nows, n - 1) + failure(cs, n - 1, nows[n - 1])
    }
}

/// The failures of the components `cs`, in calendar order, component `j`
/// looked at at `nows[j]`.
pub open spec fn failure_list(cs: Seq<icalendar::CalendarComponent>, nows: Seq<Timestamp>) -> Seq<
    (usize, Seq<char>),
> {
    failures_prefix(cs, nows, cs.len() as int)
}

/// Reported failures with their errors as sequences of characters.
pub open spec fn failures_view(v: Vec<(usize, String)>) -> Seq<(usize, Seq<char>)> {
    v@.map_values(|f: (usize, String)| (f.0, f.1@))
}

/// Concerts as their views.
pub open spec fn concerts_view(v: Vec<LiveConcert>) -> Seq<ConcertView> {
    v@.map_values(|c: LiveConcert| c@)
}

/// An event whose start can be placed in time has a defined concert reading.
pub proof fn lemma_future_defined_concert(e: icalendar::Event)
    requires
        future_defined(event_start_of(e)),
    ensures
        concert_spec(e) is Some,
{
    assert(start_time_spec(event_start_of(e)) is Some);
}

/// Looks at component `i` of `components` at `now`, adding its concert to
/// `concerts` where it holds an upcoming event with one, and its index and
/// error to `failures` where it holds an upcoming event without a readable
/// concert; `false` where its event's start cannot be placed in time.
fn look_at_component(
    components: &Vec<icalendar::CalendarComponent>,
    i: usize,
    now: Timestamp,
    concerts: &mut Vec<LiveConcert>,
    failures: &mut Vec<(usize, String)>,
) -> (placed: bool)
    requires
        i < components.len(),
    ensures
        placed <==> !unplaceable_at(components@, i as int),
        placed ==> concerts_view(*final(concerts)) == concerts_view(*old(concerts)) + contribution(
            components@,
            i as int,
            now,
        ),
        placed ==> failures_view(*final(failures)) == failures_view(*old(failures)) + failure(
            components@,
            i as int,
            now,
        ),
{
    let ghost cs = components@;
    let ghost before = concerts_view(*concerts);
    let ghost failed_before = failures_view(*failures);
    match component_event(&components[i]) {
        None => {
            assert(contribution(cs, i as int, now) =~= Seq::<ConcertView>::empty());
            assert(failure(cs, i as int, now) =~= Seq::<(usize, Seq<char>)>::empty());
            assert(concerts_view(*concerts) =~= before + contribution(cs, i as int, now));
            assert(failures_view(*failures) =~= failed_before + failure(cs, i as int, now));
            true
        },
        Some(event) => {
            assert(holds_event(cs, i as int));
            assert(held_event(cs, i as int) == event_properties(event));
            let start = event_start(&event);
            proof {
                lemma_future_defined(event_start_of(event), now);
            }
            match is_future_at_checked(&start, now) {
                None => false,
                Some(true) => {
                    proof {
                        lemma_future_defined_concert(event);
                    }
                    let concert = get_concert_from_event(&event);
                    match concert {
                        Ok(c) => {
                            assert(contribution(cs, i as int, now) =~= seq![c@]);
                            assert(failure(cs, i as int, now) =~= Seq::<(usize, Seq<char>)>::empty());
                            concerts.push(c);
                            assert(concerts_view(*concerts) =~= before + seq![c@]);
                            assert(failures_view(*failures) =~= failed_before + failure(cs, i as int, now));
                        },
                        Err(e) => {
                            assert(contribution(cs, i as int, now) =~= Seq::<ConcertView>::empty());
                            assert(failure(cs, i as int, now) =~= seq![(i, e@)]);
                            failures.push((i, e));
                            assert(concerts_view(*concerts) =~= before + contribution(cs, i as int, now));
                            assert(failures_view(*failures) =~= failed_before + seq![(i, e@)]);
                        },
                    }
                    true
                },
                Some(false) => {
                    assert(contribution(cs, i as int, now) =~= Seq::<ConcertView>::empty());
                    assert(failure(cs, i as int, now) =~= Seq::<(usize, Seq<char>)>::empty());
                    assert(concerts_view(*concerts) =~= before + contribution(cs, i as int, now));
                    assert(failures_view(*failures) =~= failed_before + failure(cs, i as int, now));
                    true
                },
            }
        },
    }
}

/// The concerts of the events among `components`, component `j` looked at at
/// `nows[j]`: in calendar order, the concert of each event that lies ahead of
/// its time and describes a concert. `None` exactly where some event's start
/// cannot be placed in time.
pub fn upcoming_concerts_at(
    components: &Vec<icalendar::CalendarComponent>,
    nows: &Vec<Timestamp>,
) -> (r: Option<Vec<LiveConcert>>)
    requires
        nows@.len() == components@.len(),
    ensures
        r is None <==> holds_unplaceable(components@),
        r matches Some(v) ==> concerts_view(v) == upcoming_list(components@, nows@),
{
    let mut concerts: Vec<LiveConcert> = Vec::new();
    let mut failures: Vec<(usize, String)> = Vec::new();
    let mut i: usize = 0;
    assert(concerts_view(concerts) =~= upcoming_prefix(components@, nows@, 0));
    while i < components.len()
        invariant
            i <= components.len(),
            nows@.len() == components@.len(),
            forall|j: int| 0 <= j < i ==> !#[trigger] unplaceable_at(components@, j),
            concerts_view(concerts) == upcoming_prefix(components@, nows@, i as int),
        decreases components.len() - i,
    {
        if !look_at_component(components, i, nows[i], &mut concerts, &mut failures) {
            assert(unplaceable_at(components@, i as int));
            return None;
        }
        i = i + 1;
    }
    Some(concerts)
}

/// The clock readings `nows`, one per component of `cs`, at which `v` and
/// `failed` are the upcoming concerts and the failures of `cs`.
pub open spec fn read_at(
    cs: Seq<icalendar::CalendarComponent>,
    nows: Seq<Timestamp>,
    v: Seq<ConcertView>,
    failed: Seq<(usize, Seq<char>)>,
) -> bool {
    &&& nows.len() == cs.len()
    &&& forall|j: int| 0 <= j < nows.len() ==> (#[trigger] nows[j]).is_clock_reading()
    &&& v == upcoming_list(cs, nows)
    &&& failed == failure_list(cs, nows)
}

/// The concerts of the events among `components` that start after the time at
/// which each is looked at, the clock being read as each component is looked
/// at, together with the failures: in calendar order, the concert of each
/// event that lies ahead and describes a concert, and the index and error of
/// each event that lies ahead but does not. `None` exactly where some event's
/// start cannot be placed in time.
pub fn upcoming_concerts_reporting(components: &Vec<icalendar::CalendarComponent>) -> (r: Option<
    (Vec<LiveConcert>, Vec<(usize, String)>),
>)
    ensures
        r is None <==> holds_unplaceable(components@),
        r is Some ==> exists|nows: Seq<Timestamp>|
            #[trigger] read_at(components@, nows, concerts_view(r.unwrap().0), failures_view(r.unwrap().1)),
{
    let mut concerts: Vec<LiveConcert> = Vec::new();
    let mut failures: Vec<(usize, String)> = Vec::new();
    let mut i: usize = 0;
    let ghost mut times: Seq<Timestamp> = Seq::empty();
    assert(concerts_view(concerts) =~= upcoming_prefix(components@, times, 0));
    assert(failures_view(failures) =~= failures_prefix(components@, times, 0));
    while i < components.len()
        invariant
            i <= components.len(),
            times.len() == i,
            forall|j: int| 0 <= j < times.len() ==> (#[trigger] times[j]).is_clock_reading(),
            forall|j: int| 0 <= j < i ==> !#[trigger] unplaceable_at(components@, j),
            concerts_view(concerts) == upcoming_prefix(components@, times, i as int),
            failures_view(failures) == failures_prefix(components@, times, i as int),
        decreases components.len() - i,
    {
        let now = utc_now();
        if !look_at_component(components, i, now, &mut concerts, &mut failures) {
            assert(unplaceable_at(components@, i as int));
            return None;
        }
        proof {
            let earlier = times;
            times = times.push(now);
            lemma_prefix_ignores_later(components@, earlier, times, i as int);
        }
        i = i + 1;
    }
    let r = Some((concerts, failures));
    assert(read_at(components@, times, concerts_view(r.unwrap().0), failures_view(r.unwrap().1)));
    r
}

/// The concerts of the events among `components` that start after the time at
/// which each is looked at, the clock being read as each component is looked
/// at: in calendar order, the concert of each event that lies ahead and
/// describes a concert. `None` exactly where some event's start cannot be
/// placed in time.
pub fn upcoming_concerts(components: &Vec<icalendar::CalendarComponent>) -> (r: Option<
    Vec<LiveConcert>,
>)
    ensures
        r is None <==> holds_unplaceable(components@),
        r matches Some(v) ==> exists|nows: Seq<Timestamp>|
            {
                &&& nows.len() == components@.len()
                &&& forall|j: int| 0 <= j < nows.len() ==> (#[trigger] nows[j]).is_clock_reading()
                &&& concerts_view(v) == upcoming_list(components@, nows)
            },
{
    match upcoming_concerts_reporting(components) {
        Some((v, failed)) => {
            let ghost nows = choose|nows: Seq<Timestamp>|
                #[trigger] read_at(components@, nows, concerts_view(v), failures_view(failed));
            assert(read_at(components@, nows, concerts_view(v), failures_view(failed)));
            Some(v)
        },
        None => None,
    }
}

/// The answer for a calendar as its reader gave it: the reader's error where
/// it could not read the text; otherwise the upcoming concerts of the
/// components it read with their failures, as `upcoming_concerts_reporting`
/// gives them.
pub fn concerts_from_reading(reading: Result<Vec<icalendar::CalendarComponent>, String>) -> (r:
    Result<Option<(Vec<LiveConcert>, Vec<(usize, String)>)>, String>)
    ensures
        match reading {
            Err(e) => r == Err::<Option<(Vec<LiveConcert>, Vec<(usize, String)>)>, String>(e),
            Ok(cs) => match r {
                Err(_) => false,
                Ok(o) => {
                    &&& (o is None <==> holds_unplaceable(cs@))
                    &&& o matches Some(found) ==> exists|nows: Seq<Timestamp>|
                        #[trigger] read_at(cs@, nows, concerts_view(found.0), failures_view(found.1))
                },
            },
        },
{
    match reading {
        Err(e) => Err(e),
        Ok(cs) => Ok(upcoming_concerts_reporting(&cs)),
    }
}

/// The upcoming concerts and the failures of the first `n` components depend
/// only on the first `n` times.
pub proof fn lemma_prefix_ignores_later(
    cs: Seq<icalendar::CalendarComponent>,
    a: Seq<Timestamp>,
    b: Seq<Timestamp>,
    n: int,
)
    requires
        0 <= n <= a.len(),
        n <= b.len(),
        forall|j: int| 0 <= j < n ==> a[j] == b[j],
    ensures
        upcoming_prefix(cs, a, n) == upcoming_prefix(cs, b, n),
        failures_prefix(cs, a, n) == failures_prefix(cs, b, n),
    decreases n,
{
    if n > 0 {
        lemma_prefix_ignores_later(cs, a, b, n - 1);
    }
}

} // verus!
