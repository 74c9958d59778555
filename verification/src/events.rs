//! From options to the ordered list of events.
//!
//! Years run from `year_start` to `year_end`. Within a year the quarter days
//! come first, in the configured order, then the cross-quarter days in theirs.
//! A quarter day of which the almanac knows no instant in a year is left out;
//! a day that is configured twice is shown twice.

use crate::almanac::SolarAlmanac;
use crate::kinds::{CrossQuarterDays, SolarEventKind, CROSS_QUARTER_SLOT_OFFSET};
use crate::options::CalendarOptions;
use crate::template::{render_template, substitute};
use chrono::NaiveDateTime;
use vstd::prelude::*;

verus! {

/// Who may see an event.
#[derive(Debug, Copy, Clone, PartialEq, Eq, Structural)]
pub enum EventClass {
    Public,
    Private,
    Confidential,
}

/// When an event takes place.
#[derive(Debug, Copy, Clone, PartialEq, Eq)]
pub enum EventTime {
    /// At one instant, read as UTC: the event starts and ends there.
    Instant(NaiveDateTime),
    /// On a whole day.
    AllDay { year: i32, month: u32, day: u32 },
}

/// One entry of the calendar.
#[derive(Debug, Clone, PartialEq, Eq)]
pub struct CalendarEvent {
    pub summary: String,
    pub class: EventClass,
    pub time: EventTime,
}

/// An event as contracts see it: the summary as its characters.
pub struct EventView {
    pub summary: Seq<char>,
    pub class: EventClass,
    pub time: EventTime,
}

impl View for CalendarEvent {
    type V = EventView;

    open spec fn view(&self) -> EventView {
        EventView { summary: self.summary@, class: self.class, time: self.time }
    }
}

/// A list of events as contracts see it.
pub open spec fn events_view(events: Seq<CalendarEvent>) -> Seq<EventView> {
    events.map_values(|event: CalendarEvent| event@)
}

/// The name that fills `{pagan_name}` for a quarter day: the custom name in
/// the slot of its code, else its traditional name.
pub open spec fn solar_pagan_name(
    opts: &CalendarOptions,
    almanac: &SolarAlmanac,
    kind: SolarEventKind,
) -> Seq<char> {
    match opts.spec_custom_name(kind.spec_slot()) {
        Some(text) => text,
        None => almanac.spec_pagan_name(kind),
    }
}

/// The name that fills `{pagan_name}` for a cross-quarter day: the custom name
/// in the slot of its code plus four, else its built-in name.
pub open spec fn cross_quarter_pagan_name(opts: &CalendarOptions, kind: CrossQuarterDays) -> Seq<
    char,
> {
    match opts.spec_custom_name(kind.spec_slot()) {
        Some(text) => text,
        None => kind.spec_name(),
    }
}

/// The summary of a quarter day.
pub open spec fn solar_summary(
    opts: &CalendarOptions,
    almanac: &SolarAlmanac,
    kind: SolarEventKind,
) -> Seq<char> {
    substitute(
        opts.quarter_days_fmt@,
        Some(almanac.spec_name(kind)),
        solar_pagan_name(opts, almanac, kind),
    )
}

/// The summary of a cross-quarter day. `{name}` is no placeholder here.
pub open spec fn cross_quarter_summary(opts: &CalendarOptions, kind: CrossQuarterDays) -> Seq<
    char,
> {
    substitute(opts.cross_quarter_days_fmt@, None, cross_quarter_pagan_name(opts, kind))
}

/// The event of a quarter day that falls at `at`.
pub open spec fn solar_event(
    opts: &CalendarOptions,
    almanac: &SolarAlmanac,
    kind: SolarEventKind,
    at: NaiveDateTime,
) -> EventView {
    EventView {
        summary: solar_summary(opts, almanac, kind),
        class: EventClass::Public,
        time: EventTime::Instant(at),
    }
}

/// The event of a cross-quarter day in a year: the whole first day of the
/// kind's month.
pub open spec fn cross_quarter_event(
    opts: &CalendarOptions,
    kind: CrossQuarterDays,
    year: int,
) -> EventView {
    EventView {
        summary: cross_quarter_summary(opts, kind),
        class: EventClass::Public,
        time: EventTime::AllDay { year: year as i32, month: kind.spec_month() as u32, day: 1 },
    }
}

/// The events of the first `count` configured quarter days in a year.
pub open spec fn solar_events(
    opts: &CalendarOptions,
    almanac: &SolarAlmanac,
    year: int,
    count: int,
) -> Seq<EventView>
    decreases count,
{
    if count <= 0 || count > opts.quarter_days@.len() {
        Seq::empty()
    } else {
        let before = solar_events(opts, almanac, year, count - 1);
        let kind = opts.quarter_days@[count - 1];
        match almanac.spec_datetime(kind, year) {
            Some(at) => before.push(solar_event(opts, almanac, kind, at)),
            None => before,
        }
    }
}

/// The events of the first `count` configured cross-quarter days in a year.
pub open spec fn cross_quarter_events(opts: &CalendarOptions, year: int, count: int) -> Seq<
    EventView,
>
    decreases count,
{
    if count <= 0 || count > opts.cross_quarter_days@.len() {
        Seq::empty()
    } else {
        cross_quarter_events(opts, year, count - 1).push(
            cross_quarter_event(opts, opts.cross_quarter_days@[count - 1], year),
        )
    }
}

/// The events of one year: quarter days, then cross-quarter days.
pub open spec fn year_events(opts: &CalendarOptions, almanac: &SolarAlmanac, year: int) -> Seq<
    EventView,
> {
    solar_events(opts, almanac, year, opts.quarter_days@.len() as int) + cross_quarter_events(
        opts,
        year,
        opts.cross_quarter_days@.len() as int,
    )
}

/// The events of the years from `year_start` to `last`, in ascending order of
/// the years.
pub open spec fn events_through(opts: &CalendarOptions, almanac: &SolarAlmanac, last: int) -> Seq<
    EventView,
>
    decreases last - opts.year_start + 1,
{
    if last < opts.year_start {
        Seq::empty()
    } else {
        events_through(opts, almanac, last - 1) + year_events(opts, almanac, last)
    }
}

/// All events of the calendar.
pub open spec fn calendar_events(opts: &CalendarOptions, almanac: &SolarAlmanac) -> Seq<
    EventView,
> {
    events_through(opts, almanac, opts.year_end as int)
}

/// An all-day event lies on the first day of a month, in a year of the span.
pub open spec fn all_day_on_first(opts: &CalendarOptions, event: EventView) -> bool {
    match event.time {
        EventTime::AllDay { year, month, day } => {
            &&& day == 1
            &&& 1 <= month <= 12
            &&& opts.year_start <= year <= opts.year_end
        },
        EventTime::Instant(_) => true,
    }
}

/// The custom name in a slot, or `builtin` where the slot holds none.
fn resolve_name<'a>(opts: &'a CalendarOptions, slot: usize, builtin: &'a str) -> (text: &'a str)
    ensures
        text@ == (match opts.spec_custom_name(slot as nat) {
            Some(custom) => custom,
            None => builtin@,
        }),
{
    if slot < opts.custom_names.len() {
        match &opts.custom_names[slot] {
            Some(custom) => custom.as_str(),
            None => builtin,
        }
    } else {
        builtin
    }
}

/// The summary of a quarter day: the quarter-day template, with `{name}`
/// filled by the canonical name and `{pagan_name}` by the custom name of the
/// kind's slot or, without one, by the traditional name.
pub fn solar_summary_text(
    opts: &CalendarOptions,
    almanac: &SolarAlmanac,
    kind: SolarEventKind,
) -> (summary: String)
    ensures
        summary@ == solar_summary(opts, almanac, kind),
{
    let pagan_name = resolve_name(opts, kind.index(), almanac.pagan_name(kind));
    render_template(opts.quarter_days_fmt.as_str(), Some(almanac.name(kind)), pagan_name)
}

/// The summary of a cross-quarter day: the cross-quarter template, with
/// `{pagan_name}` filled by the custom name of the kind's slot or, without
/// one, by the built-in name.
pub fn cross_quarter_summary_text(opts: &CalendarOptions, kind: CrossQuarterDays) -> (summary:
    String)
    ensures
        summary@ == cross_quarter_summary(opts, kind),
{
    let pagan_name = resolve_name(opts, CROSS_QUARTER_SLOT_OFFSET + kind.index(), kind.name());
    render_template(opts.cross_quarter_days_fmt.as_str(), None, pagan_name)
}

/// The events of the calendar, in their order: year by year, quarter days
/// before cross-quarter days, each group in the configured order.
pub fn make_events(opts: &CalendarOptions, almanac: &SolarAlmanac) -> (events: Vec<CalendarEvent>)
    ensures
        events_view(events@) == calendar_events(opts, almanac),
        opts.year_start > opts.year_end ==> events@.len() == 0,
        forall|i: int| 0 <= i < events@.len() ==> events@[i].class == EventClass::Public,
        forall|i: int| 0 <= i < events@.len() ==> all_day_on_first(opts, #[trigger] events@[i]@),
{
    let mut events: Vec<CalendarEvent> = Vec::new();
    let mut year: i32 = opts.year_start as i32;
    let last: i32 = opts.year_end as i32;
    proof {
        assert(events_view(events@) =~= events_through(opts, almanac, year - 1));
    }
    while year <= last
        invariant
            opts.year_start <= year <= last + 1 || (year == opts.year_start && year > last),
            last == opts.year_end,
            events_view(events@) == events_through(opts, almanac, year - 1),
            forall|i: int| 0 <= i < events@.len() ==> events@[i].class == EventClass::Public,
            forall|i: int|
                0 <= i < events@.len() ==> all_day_on_first(opts, #[trigger] events@[i]@),
        decreases last - year + 1,
    {
        let ghost earlier = events_through(opts, almanac, year - 1);
        let mut k: usize = 0;
        proof {
            assert(earlier + solar_events(opts, almanac, year as int, 0) =~= earlier);
        }
        while k < opts.quarter_days.len()
            invariant
                k <= opts.quarter_days@.len(),
                opts.year_start <= year <= opts.year_end,
                events_view(events@) == earlier + solar_events(
                    opts,
                    almanac,
                    year as int,
                    k as int,
                ),
                forall|i: int| 0 <= i < events@.len() ==> events@[i].class == EventClass::Public,
                forall|i: int|
                    0 <= i < events@.len() ==> all_day_on_first(opts, #[trigger] events@[i]@),
            decreases opts.quarter_days@.len() - k,
        {
            let kind = opts.quarter_days[k];
            match almanac.datetime(kind, year as i16) {
                Some(at) => {
                    let ghost before = events@;
                    let event = CalendarEvent {
                        summary: solar_summary_text(opts, almanac, kind),
                        class: EventClass::Public,
                        time: EventTime::Instant(at),
                    };
                    events.push(event);
                    proof {
                        assert(events_view(events@) =~= events_view(before).push(event@));
                        assert(earlier + solar_events(opts, almanac, year as int, k + 1)
                            =~= (earlier + solar_events(opts, almanac, year as int, k as int)).push(
                            event@,
                        ));
                    }
                },
                None => {},
            }
            k += 1;
        }
        let ghost solar = earlier + solar_events(
            opts,
            almanac,
            year as int,
            opts.quarter_days@.len() as int,
        );
        let mut c: usize = 0;
        proof {
            assert(solar + cross_quarter_events(opts, year as int, 0) =~= solar);
        }
        while c < opts.cross_quarter_days.len()
            invariant
                c <= opts.cross_quarter_days@.len(),
                opts.year_start <= year <= opts.year_end,
                events_view(events@) == solar + cross_quarter_events(opts, year as int, c as int),
                forall|i: int| 0 <= i < events@.len() ==> events@[i].class == EventClass::Public,
                forall|i: int|
                    0 <= i < events@.len() ==> all_day_on_first(opts, #[trigger] events@[i]@),
            decreases opts.cross_quarter_days@.len() - c,
        {
            let kind = opts.cross_quarter_days[c];
            let ghost before = events@;
            let event = CalendarEvent {
                summary: cross_quarter_summary_text(opts, kind),
                class: EventClass::Public,
                time: EventTime::AllDay { year, month: kind.month(), day: 1 },
            };
            events.push(event);
            proof {
                assert(events_view(events@) =~= events_view(before).push(event@));
                assert(solar + cross_quarter_events(opts, year as int, c + 1) =~= (solar
                    + cross_quarter_events(opts, year as int, c as int)).push(event@));
            }
            c += 1;
        }
        proof {
            assert(solar + cross_quarter_events(
                opts,
                year as int,
                opts.cross_quarter_days@.len() as int,
            ) =~= earlier + year_events(opts, almanac, year as int));
        }
        year += 1;
    }
    events
}

} // verus!
