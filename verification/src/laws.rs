//! What holds of every calendar: statements over the events that
//! [`make_events`](crate::events::make_events) returns, each proved from the
//! definitions in [`crate::events`].

use crate::almanac::SolarAlmanac;
use crate::events::{
    calendar_events, cross_quarter_event, cross_quarter_events, cross_quarter_pagan_name,
    cross_quarter_summary, events_through, solar_event, solar_events, solar_pagan_name,
    solar_summary, year_events, EventTime, EventView,
};
use crate::kinds::{CrossQuarterDays, SolarEventKind};
use crate::options::{
    default_cross_quarter_days, default_cross_quarter_days_fmt, default_quarter_days,
    default_quarter_days_fmt, CalendarOptions,
};
use crate::template::{
    lemma_literal_template_unchanged, lemma_pagan_name_template, name_placeholder, occurs_at,
    pagan_name_placeholder, substitute, substitute_from,
};
use vstd::prelude::*;

verus! {

/// An empty span of years gives no event.
pub proof fn lemma_inverted_span_is_empty(opts: &CalendarOptions, almanac: &SolarAlmanac)
    requires
        opts.year_start > opts.year_end,
    ensures
        calendar_events(opts, almanac) == Seq::<EventView>::empty(),
{
}

/// The cross-quarter days of a year come out one event each, in the configured
/// order.
pub proof fn lemma_cross_quarter_events_listed(opts: &CalendarOptions, year: int, count: int)
    requires
        0 <= count <= opts.cross_quarter_days@.len(),
    ensures
        cross_quarter_events(opts, year, count).len() == count,
        forall|j: int|
            0 <= j < count ==> cross_quarter_events(opts, year, count)[j] == cross_quarter_event(
                opts,
                opts.cross_quarter_days@[j],
                year,
            ),
    decreases count,
{
    if count > 0 {
        lemma_cross_quarter_events_listed(opts, year, count - 1);
    }
}

/// Where the almanac knows every configured quarter day of a year, they come
/// out one event each, in the configured order, each at its instant.
pub proof fn lemma_solar_events_listed(
    opts: &CalendarOptions,
    almanac: &SolarAlmanac,
    year: int,
    count: int,
)
    requires
        0 <= count <= opts.quarter_days@.len(),
        forall|j: int|
            0 <= j < count ==> almanac.spec_datetime(opts.quarter_days@[j], year) is Some,
    ensures
        solar_events(opts, almanac, year, count).len() == count,
        forall|j: int|
            0 <= j < count ==> solar_events(opts, almanac, year, count)[j] == solar_event(
                opts,
                almanac,
                opts.quarter_days@[j],
                almanac.spec_datetime(opts.quarter_days@[j], year).unwrap(),
            ),
    decreases count,
{
    if count > 0 {
        lemma_solar_events_listed(opts, almanac, year, count - 1);
    }
}

/// What is asked of a property of events for it to hold of every event of a
/// calendar: it holds of the event of each configured quarter day at each
/// instant that the almanac knows in a year of the span, and of the event of
/// each configured cross-quarter day in each year of the span.
pub open spec fn holds_of_each_kind(
    opts: &CalendarOptions,
    almanac: &SolarAlmanac,
    holds: spec_fn(EventView) -> bool,
) -> bool {
    &&& forall|kind: SolarEventKind, year: int|
        opts.year_start <= year <= opts.year_end && opts.quarter_days@.contains(kind)
            && (#[trigger] almanac.spec_datetime(kind, year)) is Some ==> holds(
            solar_event(opts, almanac, kind, almanac.spec_datetime(kind, year).unwrap()),
        )
    &&& forall|kind: CrossQuarterDays, year: int|
        opts.year_start <= year <= opts.year_end && opts.cross_quarter_days@.contains(kind)
            ==> holds(#[trigger] cross_quarter_event(opts, kind, year))
}

proof fn lemma_each_solar_event(
    opts: &CalendarOptions,
    almanac: &SolarAlmanac,
    holds: spec_fn(EventView) -> bool,
    year: int,
    count: int,
)
    requires
        holds_of_each_kind(opts, almanac, holds),
        opts.year_start <= year <= opts.year_end,
        0 <= count <= opts.quarter_days@.len(),
    ensures
        forall|i: int|
            0 <= i < solar_events(opts, almanac, year, count).len() ==> holds(
                #[trigger] solar_events(opts, almanac, year, count)[i],
            ),
    decreases count,
{
    let events = solar_events(opts, almanac, year, count);
    if count > 0 {
        lemma_each_solar_event(opts, almanac, holds, year, count - 1);
        let before = solar_events(opts, almanac, year, count - 1);
        let kind = opts.quarter_days@[count - 1];
        assert(opts.quarter_days@.contains(kind));
        assert forall|i: int| 0 <= i < events.len() implies holds(#[trigger] events[i]) by {
            if i < before.len() {
                assert(events[i] == before[i]);
            } else {
                assert(almanac.spec_datetime(kind, year) is Some);
                assert(events[i] == solar_event(
                    opts,
                    almanac,
                    kind,
                    almanac.spec_datetime(kind, year).unwrap(),
                ));
            }
        }
    }
}

proof fn lemma_each_cross_quarter_event(
    opts: &CalendarOptions,
    almanac: &SolarAlmanac,
    holds: spec_fn(EventView) -> bool,
    year: int,
    count: int,
)
    requires
        holds_of_each_kind(opts, almanac, holds),
        opts.year_start <= year <= opts.year_end,
        0 <= count <= opts.cross_quarter_days@.len(),
    ensures
        forall|i: int|
            0 <= i < cross_quarter_events(opts, year, count).len() ==> holds(
                #[trigger] cross_quarter_events(opts, year, count)[i],
            ),
    decreases count,
{
    let events = cross_quarter_events(opts, year, count);
    if count > 0 {
        lemma_each_cross_quarter_event(opts, almanac, holds, year, count - 1);
        let before = cross_quarter_events(opts, year, count - 1);
        let kind = opts.cross_quarter_days@[count - 1];
        assert(opts.cross_quarter_days@.contains(kind));
        assert forall|i: int| 0 <= i < events.len() implies holds(#[trigger] events[i]) by {
            if i < before.len() {
                assert(events[i] == before[i]);
            } else {
                assert(events[i] == cross_quarter_event(opts, kind, year));
            }
        }
    }
}

proof fn lemma_each_event_through(
    opts: &CalendarOptions,
    almanac: &SolarAlmanac,
    holds: spec_fn(EventView) -> bool,
    last: int,
)
    requires
        holds_of_each_kind(opts, almanac, holds),
        last <= opts.year_end,
    ensures
        forall|i: int|
            0 <= i < events_through(opts, almanac, last).len() ==> holds(
                #[trigger] events_through(opts, almanac, last)[i],
            ),
    decreases last - opts.year_start + 1,
{
    let events = events_through(opts, almanac, last);
    if last >= opts.year_start {
        lemma_each_event_through(opts, almanac, holds, last - 1);
        lemma_each_solar_event(opts, almanac, holds, last, opts.quarter_days@.len() as int);
        lemma_each_cross_quarter_event(
            opts,
            almanac,
            holds,
            last,
            opts.cross_quarter_days@.len() as int,
        );
        let earlier = events_through(opts, almanac, last - 1);
        let solar = solar_events(opts, almanac, last, opts.quarter_days@.len() as int);
        let cross = cross_quarter_events(opts, last, opts.cross_quarter_days@.len() as int);
        assert forall|i: int| 0 <= i < events.len() implies holds(#[trigger] events[i]) by {
            if i < earlier.len() {
                assert(events[i] == earlier[i]);
            } else if i < earlier.len() + solar.len() {
                assert(events[i] == solar[i - earlier.len()]);
            } else {
                assert(events[i] == cross[i - earlier.len() - solar.len()]);
            }
        }
    }
}

/// A property that holds of the event of each configured day, in each year of
/// the span, holds of every event of the calendar: the calendar holds no other
/// event.
pub proof fn lemma_each_event(
    opts: &CalendarOptions,
    almanac: &SolarAlmanac,
    holds: spec_fn(EventView) -> bool,
)
    requires
        holds_of_each_kind(opts, almanac, holds),
    ensures
        forall|i: int|
            0 <= i < calendar_events(opts, almanac).len() ==> holds(
                #[trigger] calendar_events(opts, almanac)[i],
            ),
{
    lemma_each_event_through(opts, almanac, holds, opts.year_end as int);
}

/// An all-day event lies on the first day of the month of a configured
/// cross-quarter day, in a year of the span.
pub open spec fn on_first_of_configured_month(opts: &CalendarOptions, event: EventView) -> bool {
    match event.time {
        EventTime::AllDay { year, month, day } => {
            &&& day == 1
            &&& opts.year_start <= year <= opts.year_end
            &&& exists|kind: CrossQuarterDays|
                opts.cross_quarter_days@.contains(kind) && month == #[trigger] kind.spec_month()
        },
        EventTime::Instant(_) => true,
    }
}

/// Every all-day event of a calendar lies on the first day of the month of a
/// configured cross-quarter day, in a year of the span, whatever the custom
/// names and the templates are.
pub proof fn lemma_all_day_events_on_first(opts: &CalendarOptions, almanac: &SolarAlmanac)
    ensures
        forall|i: int|
            0 <= i < calendar_events(opts, almanac).len() ==> on_first_of_configured_month(
                opts,
                #[trigger] calendar_events(opts, almanac)[i],
            ),
{
    let holds = |event: EventView| on_first_of_configured_month(opts, event);
    assert forall|kind: CrossQuarterDays, year: int|
        opts.year_start <= year <= opts.year_end && opts.cross_quarter_days@.contains(
            kind,
        ) implies holds(#[trigger] cross_quarter_event(opts, kind, year)) by {
        assert(cross_quarter_event(opts, kind, year).time == (EventTime::AllDay {
            year: year as i32,
            month: kind.spec_month() as u32,
            day: 1,
        }));
    }
    lemma_each_event(opts, almanac, holds);
}

/// The summary of an event is the template of its family.
pub open spec fn summary_is_template(opts: &CalendarOptions, event: EventView) -> bool {
    match event.time {
        EventTime::Instant(_) => event.summary == opts.quarter_days_fmt@,
        EventTime::AllDay { .. } => event.summary == opts.cross_quarter_days_fmt@,
    }
}

/// Where no placeholder stands in either template, every event of the
/// calendar has its family's template as its summary, unchanged.
pub proof fn lemma_literal_templates_are_summaries(opts: &CalendarOptions, almanac: &SolarAlmanac)
    requires
        forall|i: int| !occurs_at(opts.quarter_days_fmt@, i, name_placeholder()),
        forall|i: int| !occurs_at(opts.quarter_days_fmt@, i, pagan_name_placeholder()),
        forall|i: int| !occurs_at(opts.cross_quarter_days_fmt@, i, pagan_name_placeholder()),
    ensures
        forall|i: int|
            0 <= i < calendar_events(opts, almanac).len() ==> summary_is_template(
                opts,
                #[trigger] calendar_events(opts, almanac)[i],
            ),
{
    let holds = |event: EventView| summary_is_template(opts, event);
    assert forall|kind: SolarEventKind, year: int|
        opts.year_start <= year <= opts.year_end && opts.quarter_days@.contains(kind)
            && (#[trigger] almanac.spec_datetime(kind, year)) is Some implies holds(
        solar_event(opts, almanac, kind, almanac.spec_datetime(kind, year).unwrap()),
    ) by {
        lemma_literal_quarter_days_fmt(opts, almanac, kind);
    }
    assert forall|kind: CrossQuarterDays, year: int|
        opts.year_start <= year <= opts.year_end && opts.cross_quarter_days@.contains(
            kind,
        ) implies holds(#[trigger] cross_quarter_event(opts, kind, year)) by {
        lemma_literal_cross_quarter_days_fmt(opts, kind);
    }
    lemma_each_event(opts, almanac, holds);
}

/// With the default selection of days and a span of one year, of which the
/// almanac knows all four quarter days, the calendar has eight events: the
/// four quarter days at their instants, in calendar order, then the four
/// cross-quarter days, Beltane first.
pub proof fn lemma_default_single_year(opts: &CalendarOptions, almanac: &SolarAlmanac)
    requires
        opts.year_start == opts.year_end,
        opts.quarter_days@ == default_quarter_days(),
        opts.cross_quarter_days@ == default_cross_quarter_days(),
        forall|kind: SolarEventKind|
            almanac.spec_datetime(kind, opts.year_start as int) is Some,
    ensures
        calendar_events(opts, almanac).len() == 8,
        forall|j: int|
            0 <= j < 4 ==> calendar_events(opts, almanac)[j] == solar_event(
                opts,
                almanac,
                default_quarter_days()[j],
                almanac.spec_datetime(default_quarter_days()[j], opts.year_start as int).unwrap(),
            ),
        forall|j: int|
            0 <= j < 4 ==> calendar_events(opts, almanac)[4 + j] == cross_quarter_event(
                opts,
                default_cross_quarter_days()[j],
                opts.year_start as int,
            ),
{
    let year = opts.year_start as int;
    lemma_solar_events_listed(opts, almanac, year, 4);
    lemma_cross_quarter_events_listed(opts, year, 4);
    assert(events_through(opts, almanac, year - 1) == Seq::<EventView>::empty());
    assert(calendar_events(opts, almanac) =~= year_events(opts, almanac, year));
}

/// The day of a cross-quarter event is the first of the kind's month in the
/// year asked for. Neither the custom names nor the templates have a part in
/// it: two sets of options give the same day.
pub proof fn lemma_cross_quarter_date(
    opts: &CalendarOptions,
    other: &CalendarOptions,
    kind: CrossQuarterDays,
    year: i16,
)
    ensures
        cross_quarter_event(opts, kind, year as int).time == (EventTime::AllDay {
            year: year as i32,
            month: kind.spec_month() as u32,
            day: 1,
        }),
        cross_quarter_event(opts, kind, year as int).time == cross_quarter_event(
            other,
            kind,
            year as int,
        ).time,
        kind.spec_month() == 2 || kind.spec_month() == 5 || kind.spec_month() == 8
            || kind.spec_month() == 11,
{
}

/// With the template `{pagan_name}` for the quarter days, the summary of a
/// quarter day whose slot holds a custom name is that name and nothing else,
/// whatever the almanac calls the day.
pub proof fn lemma_custom_name_is_summary(
    opts: &CalendarOptions,
    almanac: &SolarAlmanac,
    kind: SolarEventKind,
    custom: Seq<char>,
)
    requires
        opts.quarter_days_fmt@ == pagan_name_placeholder(),
        opts.spec_custom_name(kind.spec_index()) == Some(custom),
    ensures
        solar_summary(opts, almanac, kind) == custom,
{
    lemma_pagan_name_template(Some(almanac.spec_name(kind)), custom);
}

/// With the template `{pagan_name}` for the cross-quarter days, the summary of
/// a cross-quarter day whose slot holds a custom name is that name and nothing
/// else.
pub proof fn lemma_custom_cross_quarter_name_is_summary(
    opts: &CalendarOptions,
    kind: CrossQuarterDays,
    custom: Seq<char>,
)
    requires
        opts.cross_quarter_days_fmt@ == pagan_name_placeholder(),
        opts.spec_custom_name(4 + kind.spec_index()) == Some(custom),
    ensures
        cross_quarter_summary(opts, kind) == custom,
{
    lemma_pagan_name_template(None, custom);
}

/// A quarter-day template in which no placeholder stands is the summary of
/// every quarter day.
pub proof fn lemma_literal_quarter_days_fmt(
    opts: &CalendarOptions,
    almanac: &SolarAlmanac,
    kind: SolarEventKind,
)
    requires
        forall|i: int| !occurs_at(opts.quarter_days_fmt@, i, name_placeholder()),
        forall|i: int| !occurs_at(opts.quarter_days_fmt@, i, pagan_name_placeholder()),
    ensures
        solar_summary(opts, almanac, kind) == opts.quarter_days_fmt@,
{
    lemma_literal_template_unchanged(
        opts.quarter_days_fmt@,
        Some(almanac.spec_name(kind)),
        solar_pagan_name(opts, almanac, kind),
    );
}

/// A cross-quarter template in which `{pagan_name}` does not stand is the
/// summary of every cross-quarter day.
pub proof fn lemma_literal_cross_quarter_days_fmt(opts: &CalendarOptions, kind: CrossQuarterDays)
    requires
        forall|i: int| !occurs_at(opts.cross_quarter_days_fmt@, i, pagan_name_placeholder()),
    ensures
        cross_quarter_summary(opts, kind) == opts.cross_quarter_days_fmt@,
{
    lemma_literal_template_unchanged(
        opts.cross_quarter_days_fmt@,
        None,
        cross_quarter_pagan_name(opts, kind),
    );
}

/// The default template of the quarter days gives the traditional name, a
/// space, and the canonical name in round brackets.
pub proof fn lemma_default_quarter_days_summary(name: Seq<char>, pagan_name: Seq<char>)
    ensures
        substitute(default_quarter_days_fmt(), Some(name), pagan_name) == pagan_name + seq![
            ' ',
            '(',
        ] + name + seq![')'],
{
    reveal_strlit("{pagan_name} ({name})");
    let t = default_quarter_days_fmt();
    let given = Some(name);
    assert(t.len() == 21);
    assert(substitute_from(t, 21, given, pagan_name) =~= Seq::<char>::empty());
    assert(substitute_from(t, 20, given, pagan_name) =~= seq![')']);
    assert(t.subrange(14, 20) =~= name_placeholder());
    assert(substitute_from(t, 14, given, pagan_name) =~= name + seq![')']);
    assert(t.subrange(13, 19)[0] == '(');
    assert(substitute_from(t, 13, given, pagan_name) =~= seq!['('] + name + seq![')']);
    assert(t.subrange(12, 18)[0] == ' ');
    assert(substitute_from(t, 12, given, pagan_name) =~= seq![' ', '('] + name + seq![')']);
    assert(t.subrange(0, 6)[1] == 'p');
    assert(t.subrange(0, 12) =~= pagan_name_placeholder());
    assert(substitute_from(t, 0, given, pagan_name) =~= pagan_name + seq![' ', '('] + name + seq![
        ')',
    ]);
}

/// The default template of the cross-quarter days gives the traditional name
/// alone.
pub proof fn lemma_default_cross_quarter_days_summary(pagan_name: Seq<char>)
    ensures
        substitute(default_cross_quarter_days_fmt(), None, pagan_name) == pagan_name,
{
    reveal_strlit("{pagan_name}");
    assert(default_cross_quarter_days_fmt() =~= pagan_name_placeholder());
    lemma_pagan_name_template(None, pagan_name);
}

proof fn lemma_solar_events_at_most(
    opts: &CalendarOptions,
    almanac: &SolarAlmanac,
    year: int,
    count: int,
)
    requires
        0 <= count <= opts.quarter_days@.len(),
    ensures
        solar_events(opts, almanac, year, count).len() <= count,
    decreases count,
{
    if count > 0 {
        lemma_solar_events_at_most(opts, almanac, year, count - 1);
    }
}

/// Up to the year `last`, each year of the span has given one event for each
/// configured cross-quarter day and at most one more for each configured
/// quarter day.
pub proof fn lemma_event_count_through(opts: &CalendarOptions, almanac: &SolarAlmanac, last: int)
    requires
        opts.year_start - 1 <= last,
    ensures
        (last - opts.year_start + 1) * opts.cross_quarter_days@.len() <= events_through(
            opts,
            almanac,
            last,
        ).len(),
        events_through(opts, almanac, last).len() <= (last - opts.year_start + 1) * (
        opts.quarter_days@.len() + opts.cross_quarter_days@.len()),
    decreases last - opts.year_start + 1,
{
    let q = opts.quarter_days@.len() as int;
    let c = opts.cross_quarter_days@.len() as int;
    let n = last - opts.year_start;
    if last >= opts.year_start {
        lemma_event_count_through(opts, almanac, last - 1);
        lemma_solar_events_at_most(opts, almanac, last, q);
        lemma_cross_quarter_events_listed(opts, last, c);
        assert((n + 1) * c == n * c + c) by (nonlinear_arith);
        assert((n + 1) * (q + c) == n * (q + c) + (q + c)) by (nonlinear_arith);
    } else {
        assert((n + 1) * c == 0) by (nonlinear_arith)
            requires
                n + 1 == 0,
        ;
        assert((n + 1) * (q + c) == 0) by (nonlinear_arith)
            requires
                n + 1 == 0,
        ;
    }
}

/// Over a span of `n` years a calendar has at least `n` times as many events
/// as cross-quarter days are configured, and at most `n` times as many as days
/// are configured in all.
pub proof fn lemma_event_count(opts: &CalendarOptions, almanac: &SolarAlmanac)
    requires
        opts.year_start <= opts.year_end,
    ensures
        (opts.year_end - opts.year_start + 1) * opts.cross_quarter_days@.len() <= calendar_events(
            opts,
            almanac,
        ).len(),
        calendar_events(opts, almanac).len() <= (opts.year_end - opts.year_start + 1) * (
        opts.quarter_days@.len() + opts.cross_quarter_days@.len()),
{
    lemma_event_count_through(opts, almanac, opts.year_end as int);
}

} // verus!
