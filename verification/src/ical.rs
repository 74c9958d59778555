//! From the events to an iCalendar document.
//!
//! The document is composed by the `icalendar` crate. Each of its functions
//! that is used stands behind a small function of this module, whose contract
//! is taken from the crate's source and not proved. What a document and an
//! entry hold is named here, so that the contracts can say what the composer
//! is given: which properties, which entries, in which order. The composer
//! stamps every entry with the current time and a random identifier when it
//! writes the text, so one document has many texts: of the text it is stated
//! of which document it is the text, and no more.

use crate::almanac::SolarAlmanac;
use crate::events::{
    all_day_on_first, calendar_events, events_view, make_events, CalendarEvent, EventClass,
    EventTime, EventView,
};
use crate::options::CalendarOptions;
use chrono::{NaiveDate, NaiveDateTime};
use icalendar::{Calendar, Class, Component, Event, EventLike};
use vstd::prelude::*;

verus! {

/// `icalendar::Calendar`, the document under construction.
#[verifier::external_type_specification]
#[verifier::external_body]
pub struct ExCalendar(icalendar::Calendar);

/// `icalendar::CalendarComponent`, what a document is a list of. The library
/// never holds one: the declaration is needed for that of the document.
#[verifier::external_type_specification]
#[verifier::external_body]
pub struct ExCalendarComponent(icalendar::CalendarComponent);

/// `icalendar::Event`, one entry of the document.
#[verifier::external_type_specification]
#[verifier::external_body]
pub struct ExEvent(icalendar::Event);

/// `chrono::NaiveDate`, a calendar day.
#[verifier::external_type_specification]
#[verifier::external_body]
pub struct ExNaiveDate(chrono::NaiveDate);

/// What an entry holds: for each key of a property, the property's value.
pub uninterp spec fn event_properties(event: Event) -> Map<Seq<char>, Seq<char>>;

/// The document's own properties, each as key and value, in their order.
pub uninterp spec fn calendar_properties(calendar: Calendar) -> Seq<(Seq<char>, Seq<char>)>;

/// The document's entries in their order, each as what it holds.
pub uninterp spec fn calendar_entries(calendar: Calendar) -> Seq<Map<Seq<char>, Seq<char>>>;

/// The day that `chrono` makes of a year, a month and a day of the month, if
/// there is such a day.
pub uninterp spec fn naive_date_of(year: int, month: int, day: int) -> Option<NaiveDate>;

/// The text that the composer writes for a whole day.
pub uninterp spec fn date_stamp(date: NaiveDate) -> Seq<char>;

/// The text that `chrono` writes for an instant: date and time without
/// separators, `T` between them and `Z` at the end.
pub uninterp spec fn utc_stamp_text(at: NaiveDateTime) -> Seq<char>;

/// An entry that holds no property.
pub open spec fn no_properties() -> Map<Seq<char>, Seq<char>> {
    Map::empty()
}

/// A document without entries.
pub open spec fn no_entries() -> Seq<Map<Seq<char>, Seq<char>>> {
    Seq::empty()
}

/// `text` is a text that the composer writes for a document with these
/// properties and these entries. A document has more than one text: each
/// writing stamps the entries with the time of writing and with identifiers
/// of its own.
pub uninterp spec fn is_text_of(
    properties: Seq<(Seq<char>, Seq<char>)>,
    entries: Seq<Map<Seq<char>, Seq<char>>>,
    text: Seq<char>,
) -> bool;

/// The properties of a document that was just made.
pub open spec fn new_calendar_properties() -> Seq<(Seq<char>, Seq<char>)> {
    seq![("VERSION"@, "2.0"@), ("PRODID"@, "ICALENDAR-RS"@), ("CALSCALE"@, "GREGORIAN"@)]
}

/// The value of the property `CLASS` for a class.
pub open spec fn class_text(class: EventClass) -> Seq<char> {
    match class {
        EventClass::Public => "PUBLIC"@,
        EventClass::Private => "PRIVATE"@,
        EventClass::Confidential => "CONFIDENTIAL"@,
    }
}

/// What the entry of an event holds: summary and class, and start and end,
/// which are the same instant or the same day.
pub open spec fn entry_properties(event: EventView) -> Map<Seq<char>, Seq<char>> {
    let named = no_properties().insert("SUMMARY"@, event.summary).insert(
        "CLASS"@,
        class_text(event.class),
    );
    match event.time {
        EventTime::Instant(at) => named.insert("DTSTART"@, utc_stamp_text(at)).insert(
            "DTEND"@,
            utc_stamp_text(at),
        ),
        EventTime::AllDay { year, month, day } => match naive_date_of(
            year as int,
            month as int,
            day as int,
        ) {
            Some(date) => named.insert("DTSTART"@, date_stamp(date)).insert(
                "DTEND"@,
                date_stamp(date),
            ),
            None => named,
        },
    }
}

/// The entries of a list of events, in the order of the list.
pub open spec fn entries_of(events: Seq<EventView>) -> Seq<Map<Seq<char>, Seq<char>>> {
    events.map_values(|event: EventView| entry_properties(event))
}

/// The properties of the document of a calendar: those of a new document, the
/// title under its two keys and, where there is one, the description under
/// its two keys.
pub open spec fn document_properties(opts: &CalendarOptions) -> Seq<(Seq<char>, Seq<char>)> {
    let titled = new_calendar_properties().push(("NAME"@, opts.name@)).push(
        ("X-WR-CALNAME"@, opts.name@),
    );
    match opts.description {
        Some(description) => titled.push(("DESCRIPTION"@, description@)).push(
            ("X-WR-CALDESC"@, description@),
        ),
        None => titled,
    }
}

/// `icalendar::Calendar::new`. Claimed: the document holds the three
/// properties that the crate gives every new document, and no entry.
#[verifier::external_body]
fn calendar_new() -> (calendar: Calendar)
    ensures
        calendar_properties(calendar) == new_calendar_properties(),
        calendar_entries(calendar) == no_entries(),
{
    Calendar::new()
}

/// `icalendar::Calendar::name`. Claimed: the title is appended to the
/// document's properties under `NAME` and under `X-WR-CALNAME`; the entries
/// stay.
#[verifier::external_body]
fn calendar_name(calendar: &mut Calendar, name: &str)
    ensures
        calendar_properties(*final(calendar)) == calendar_properties(*old(calendar)).push(
            ("NAME"@, name@),
        ).push(("X-WR-CALNAME"@, name@)),
        calendar_entries(*final(calendar)) == calendar_entries(*old(calendar)),
{
    calendar.name(name);
}

/// `icalendar::Calendar::description`. Claimed: the description is appended
/// to the document's properties under `DESCRIPTION` and under `X-WR-CALDESC`;
/// the entries stay.
#[verifier::external_body]
fn calendar_description(calendar: &mut Calendar, description: &str)
    ensures
        calendar_properties(*final(calendar)) == calendar_properties(*old(calendar)).push(
            ("DESCRIPTION"@, description@),
        ).push(("X-WR-CALDESC"@, description@)),
        calendar_entries(*final(calendar)) == calendar_entries(*old(calendar)),
{
    calendar.description(description);
}

/// `icalendar::Calendar::push`. Claimed: the entry is appended after those
/// that are there; the document's properties stay.
#[verifier::external_body]
fn calendar_push(calendar: &mut Calendar, event: Event)
    ensures
        calendar_entries(*final(calendar)) == calendar_entries(*old(calendar)).push(
            event_properties(event),
        ),
        calendar_properties(*final(calendar)) == calendar_properties(*old(calendar)),
{
    calendar.push(event);
}

/// `to_string` of `icalendar::Calendar`: the document as text. Claimed: the
/// result is a text of the document that is handed in, with its properties
/// and its entries. The text also holds the time of the call and random
/// identifiers, so it is not claimed which of the document's texts it is.
#[verifier::external_body]
fn calendar_text(calendar: &Calendar) -> (text: String)
    ensures
        is_text_of(calendar_properties(*calendar), calendar_entries(*calendar), text@),
{
    calendar.to_string()
}

/// `icalendar::Event::new`. Claimed: the entry holds no property.
#[verifier::external_body]
fn event_new() -> (event: Event)
    ensures
        event_properties(event) == no_properties(),
{
    Event::new()
}

/// `icalendar::Component::summary` on an event. Claimed: the property
/// `SUMMARY` is set to the text, and the other properties stay.
#[verifier::external_body]
fn event_summary(event: &mut Event, summary: &str)
    ensures
        event_properties(*final(event)) == event_properties(*old(event)).insert(
            "SUMMARY"@,
            summary@,
        ),
{
    event.summary(summary);
}

/// `icalendar::Component::class` on an event. Claimed: the property `CLASS`
/// is set to the class in capitals, and the other properties stay.
#[verifier::external_body]
fn event_class(event: &mut Event, class: EventClass)
    ensures
        event_properties(*final(event)) == event_properties(*old(event)).insert(
            "CLASS"@,
            class_text(class),
        ),
{
    event.class(
        match class {
            EventClass::Public => Class::Public,
            EventClass::Private => Class::Private,
            EventClass::Confidential => Class::Confidential,
        },
    );
}

/// `icalendar::Component::add_property` on an event. Claimed: the property
/// `key` is set to `value`, and the other properties stay.
#[verifier::external_body]
fn event_add_property(event: &mut Event, key: &str, value: &str)
    ensures
        event_properties(*final(event)) == event_properties(*old(event)).insert(key@, value@),
{
    event.add_property(key, value);
}

/// `icalendar::EventLike::all_day` on an event. Claimed: the properties
/// `DTSTART` and `DTEND` are both set to the text of the day, and the other
/// properties stay. The crate also marks both as dates without a time; that
/// mark is a parameter of the property, and parameters are not part of what
/// is named here.
#[verifier::external_body]
fn event_all_day(event: &mut Event, date: NaiveDate)
    ensures
        event_properties(*final(event)) == event_properties(*old(event)).insert(
            "DTSTART"@,
            date_stamp(date),
        ).insert("DTEND"@, date_stamp(date)),
{
    event.all_day(date);
}

/// `chrono::NaiveDate::from_ymd_opt`. Claimed: the result is the day that the
/// crate makes of the three numbers, and there is one for each of the first
/// 28 days of each month of a year that an `i16` holds (the crate's years
/// reach beyond 262,000 either way).
#[verifier::external_body]
fn naive_date(year: i32, month: u32, day: u32) -> (date: Option<NaiveDate>)
    ensures
        date == naive_date_of(year as int, month as int, day as int),
        -32768 <= year <= 32767 && 1 <= month <= 12 && 1 <= day <= 28 ==> date is Some,
{
    NaiveDate::from_ymd_opt(year, month, day)
}

/// `chrono::NaiveDateTime::format`, and `to_string` of what it returns, for
/// the one pattern of date and time without separators that the calendar
/// uses. Claimed: the result is the text that the crate writes for the
/// instant.
#[verifier::external_body]
fn utc_stamp(at: &NaiveDateTime, pattern: &str) -> (stamp: String)
    requires
        pattern@ == "%Y%m%dT%H%M%SZ"@,
    ensures
        stamp@ == utc_stamp_text(*at),
{
    at.format(pattern).to_string()
}

/// The entry of the document for one event of the library. An event at an
/// instant starts and ends there; an all-day event takes its day.
fn event_entry(event: &CalendarEvent) -> (entry: Event)
    requires
        event.time matches EventTime::AllDay { year, month, day } ==> -32768 <= year <= 32767 && 1
            <= month <= 12 && 1 <= day <= 28,
    ensures
        event_properties(entry) == entry_properties(event@),
{
    let mut entry = event_new();
    event_summary(&mut entry, event.summary.as_str());
    event_class(&mut entry, event.class);
    match event.time {
        EventTime::Instant(at) => {
            let stamp = utc_stamp(&at, "%Y%m%dT%H%M%SZ");
            event_add_property(&mut entry, "DTSTART", stamp.as_str());
            event_add_property(&mut entry, "DTEND", stamp.as_str());
        },
        EventTime::AllDay { year, month, day } => {
            let date = naive_date(year, month, day);
            event_all_day(&mut entry, date.unwrap());
        },
    }
    entry
}

/// The document of a calendar: its title, its description where there is one,
/// and the events of [`make_events`], in their order.
pub fn make_calendar(opts: &CalendarOptions, almanac: &SolarAlmanac) -> (calendar: Calendar)
    ensures
        calendar_properties(calendar) == document_properties(opts),
        calendar_entries(calendar) == entries_of(calendar_events(opts, almanac)),
{
    let mut calendar = calendar_new();
    calendar_name(&mut calendar, opts.name.as_str());
    match &opts.description {
        Some(description) => {
            calendar_description(&mut calendar, description.as_str());
        },
        None => {},
    }
    let events = make_events(opts, almanac);
    let ghost views = events_view(events@);
    let mut i: usize = 0;
    proof {
        assert(entries_of(views.take(0)) =~= no_entries());
    }
    while i < events.len()
        invariant
            i <= events@.len(),
            views == events_view(events@),
            calendar_properties(calendar) == document_properties(opts),
            calendar_entries(calendar) == entries_of(views.take(i as int)),
            forall|j: int|
                0 <= j < events@.len() ==> all_day_on_first(opts, #[trigger] events@[j]@),
        decreases events@.len() - i,
    {
        assert(all_day_on_first(opts, events@[i as int]@));
        let entry = event_entry(&events[i]);
        calendar_push(&mut calendar, entry);
        proof {
            assert(views[i as int] == events@[i as int]@);
            assert(entries_of(views.take(i + 1)) =~= entries_of(views.take(i as int)).push(
                entry_properties(views[i as int]),
            ));
        }
        i += 1;
    }
    proof {
        assert(views.take(i as int) =~= views);
    }
    calendar
}

/// The calendar as iCalendar text: the text that the composer writes for the
/// document that holds the calendar's title and description and, in their
/// order, the events of [`make_events`].
pub fn make_ics(opts: &CalendarOptions, almanac: &SolarAlmanac) -> (text: String)
    ensures
        is_text_of(document_properties(opts), entries_of(calendar_events(opts, almanac)), text@),
{
    let calendar = make_calendar(opts, almanac);
    calendar_text(&calendar)
}

/// The entry of an event holds its summary and its class, and its start and
/// its end are the same text: the instant of a timed event, the day of an
/// all-day event whose day exists.
pub proof fn lemma_entry_holds_event(event: EventView)
    ensures
        entry_properties(event)["SUMMARY"@] == event.summary,
        entry_properties(event)["CLASS"@] == class_text(event.class),
        event.time matches EventTime::Instant(at) ==> entry_properties(event)["DTSTART"@]
            == utc_stamp_text(at) && entry_properties(event)["DTEND"@] == utc_stamp_text(at),
        event.time matches EventTime::AllDay { year, month, day } ==> (naive_date_of(
            year as int,
            month as int,
            day as int,
        ) matches Some(date) ==> entry_properties(event)["DTSTART"@] == date_stamp(date)
            && entry_properties(event)["DTEND"@] == date_stamp(date)),
{
    reveal_strlit("SUMMARY");
    reveal_strlit("CLASS");
    reveal_strlit("DTSTART");
    reveal_strlit("DTEND");
    assert("SUMMARY"@[0] == 'S' && "CLASS"@[0] == 'C' && "DTSTART"@[0] == 'D' && "DTEND"@[0] == 'D');
    assert("SUMMARY"@.len() == 7 && "CLASS"@.len() == 5);
    assert("DTSTART"@.len() == 7 && "DTEND"@.len() == 5);
}

/// The document of a calendar has one entry for each event of the calendar,
/// in the order of the events, and each entry is that of its event.
pub proof fn lemma_document_entries(opts: &CalendarOptions, almanac: &SolarAlmanac)
    ensures
        entries_of(calendar_events(opts, almanac)).len() == calendar_events(opts, almanac).len(),
        forall|i: int|
            0 <= i < calendar_events(opts, almanac).len() ==> entries_of(
                calendar_events(opts, almanac),
            )[i] == entry_properties(calendar_events(opts, almanac)[i]),
        opts.year_start > opts.year_end ==> entries_of(calendar_events(opts, almanac))
            == no_entries(),
{
    if opts.year_start > opts.year_end {
        assert(entries_of(calendar_events(opts, almanac)) =~= no_entries());
    }
}

} // verus!
