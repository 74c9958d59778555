use chrono::{NaiveDate, NaiveDateTime};
use quarter_days::events::{cross_quarter_summary_text, solar_summary_text};
use quarter_days::{
    make_events, make_ics, CalendarEvent, CalendarOptions, CrossQuarterDays, EventClass,
    EventTime, SolarAlmanac, SolarEventKind, SolarNames, SolarYear,
};

fn names(name: &str, pagan_name: &str) -> SolarNames {
    SolarNames { name: name.to_string(), pagan_name: pagan_name.to_string() }
}

fn instant(year: i32, month: u32, day: u32, hour: u32, minute: u32) -> NaiveDateTime {
    NaiveDate::from_ymd_opt(year, month, day).unwrap().and_hms_opt(hour, minute, 7).unwrap()
}

fn known_year(year: i16) -> SolarYear {
    let y = i32::from(year);
    SolarYear {
        march_equinox: Some(instant(y, 3, 20, 3, 6)),
        june_solstice: Some(instant(y, 6, 20, 20, 51)),
        september_equinox: Some(instant(y, 9, 22, 12, 44)),
        december_solstice: Some(instant(y, 12, 21, 9, 21)),
    }
}

fn almanac(first_year: i16, years: i16) -> SolarAlmanac {
    let mut almanac = SolarAlmanac::new(
        names("MarchEquinox", "Ostara"),
        names("JuneSolstice", "Litha"),
        names("SeptemberEquinox", "Mabon"),
        names("DecemberSolstice", "Yule"),
        first_year,
    );
    for offset in 0..years {
        almanac.push_year(known_year(first_year + offset));
    }
    almanac
}

fn all_day(summary: &str, year: i32, month: u32) -> CalendarEvent {
    CalendarEvent {
        summary: summary.to_string(),
        class: EventClass::Public,
        time: EventTime::AllDay { year, month, day: 1 },
    }
}

fn timed(summary: &str, at: NaiveDateTime) -> CalendarEvent {
    CalendarEvent {
        summary: summary.to_string(),
        class: EventClass::Public,
        time: EventTime::Instant(at),
    }
}

#[test]
fn almanac_finds_what_was_pushed() {
    let mut almanac = almanac(2024, 1);
    assert_eq!(almanac.name(SolarEventKind::JuneSolstice), "JuneSolstice");
    assert_eq!(almanac.pagan_name(SolarEventKind::DecemberSolstice), "Yule");
    assert_eq!(
        almanac.datetime(SolarEventKind::SeptemberEquinox, 2024),
        Some(instant(2024, 9, 22, 12, 44))
    );
    assert_eq!(almanac.datetime(SolarEventKind::SeptemberEquinox, 2023), None);
    assert_eq!(almanac.datetime(SolarEventKind::SeptemberEquinox, 2025), None);
    assert_eq!(almanac.datetime(SolarEventKind::SeptemberEquinox, i16::MIN), None);
    assert_eq!(almanac.datetime(SolarEventKind::SeptemberEquinox, i16::MAX), None);
    let mut next = known_year(2025);
    next.june_solstice = None;
    almanac.push_year(next);
    assert_eq!(
        almanac.datetime(SolarEventKind::SeptemberEquinox, 2025),
        Some(instant(2025, 9, 22, 12, 44))
    );
    assert_eq!(almanac.datetime(SolarEventKind::JuneSolstice, 2025), None);
    assert_eq!(
        almanac.datetime(SolarEventKind::JuneSolstice, 2024),
        Some(instant(2024, 6, 20, 20, 51))
    );
    assert_eq!(known_year(2024).at(SolarEventKind::MarchEquinox), Some(instant(2024, 3, 20, 3, 6)));
}

#[test]
fn almanac_spans_the_whole_range_of_years() {
    let mut almanac = almanac(i16::MIN, 0);
    let mut year = i16::MIN;
    loop {
        almanac.push_year(known_year(year));
        if year == i16::MAX {
            break;
        }
        year += 1;
    }
    assert_eq!(
        almanac.datetime(SolarEventKind::MarchEquinox, i16::MIN),
        Some(instant(-32768, 3, 20, 3, 6))
    );
    assert_eq!(
        almanac.datetime(SolarEventKind::DecemberSolstice, i16::MAX),
        Some(instant(32767, 12, 21, 9, 21))
    );
}

#[test]
fn inverted_span_gives_no_event() {
    let opts = CalendarOptions::new("Wheel", 2025, 2024);
    assert_eq!(make_events(&opts, &almanac(2024, 2)), vec![]);
    let far = CalendarOptions::new("Wheel", i16::MAX, i16::MIN);
    assert_eq!(make_events(&far, &almanac(2024, 1)), vec![]);
}

#[test]
fn default_single_year_gives_eight_events() {
    let opts = CalendarOptions::new("Wheel", 2024, 2024);
    let events = make_events(&opts, &almanac(2024, 1));
    assert_eq!(
        events,
        vec![
            timed("Ostara (MarchEquinox)", instant(2024, 3, 20, 3, 6)),
            timed("Litha (JuneSolstice)", instant(2024, 6, 20, 20, 51)),
            timed("Mabon (SeptemberEquinox)", instant(2024, 9, 22, 12, 44)),
            timed("Yule (DecemberSolstice)", instant(2024, 12, 21, 9, 21)),
            all_day("Beltane", 2024, 5),
            all_day("Imbolc", 2024, 2),
            all_day("Lammas", 2024, 8),
            all_day("Samhain", 2024, 11),
        ]
    );
}

#[test]
fn years_come_in_ascending_order() {
    let mut opts = CalendarOptions::new("Wheel", 2023, 2025);
    opts.set_quarter_days(vec![1]);
    opts.set_cross_quarter_days(vec![3]);
    let events = make_events(&opts, &almanac(2023, 3));
    assert_eq!(
        events,
        vec![
            timed("Litha (JuneSolstice)", instant(2023, 6, 20, 20, 51)),
            all_day("Samhain", 2023, 11),
            timed("Litha (JuneSolstice)", instant(2024, 6, 20, 20, 51)),
            all_day("Samhain", 2024, 11),
            timed("Litha (JuneSolstice)", instant(2025, 6, 20, 20, 51)),
            all_day("Samhain", 2025, 11),
        ]
    );
}

#[test]
fn unknown_occurrence_is_skipped() {
    let mut opts = CalendarOptions::new("Wheel", 2023, 2024);
    opts.set_cross_quarter_days(vec![0]);
    let events = make_events(&opts, &almanac(2024, 1));
    assert_eq!(events.len(), 6);
    assert_eq!(events[0], all_day("Imbolc", 2023, 2));
    assert_eq!(events[1], timed("Ostara (MarchEquinox)", instant(2024, 3, 20, 3, 6)));
    assert_eq!(events[5], all_day("Imbolc", 2024, 2));
}

#[test]
fn quarter_day_without_instant_is_skipped() {
    let mut almanac = almanac(2024, 0);
    let mut year = known_year(2024);
    year.june_solstice = None;
    year.december_solstice = None;
    almanac.push_year(year);
    let mut opts = CalendarOptions::new("Wheel", 2024, 2024);
    opts.set_cross_quarter_days(vec![]);
    let events = make_events(&opts, &almanac);
    assert_eq!(
        events,
        vec![
            timed("Ostara (MarchEquinox)", instant(2024, 3, 20, 3, 6)),
            timed("Mabon (SeptemberEquinox)", instant(2024, 9, 22, 12, 44)),
        ]
    );
}

#[test]
fn a_day_configured_twice_is_shown_twice() {
    let mut opts = CalendarOptions::new("Wheel", 2024, 2024);
    opts.set_quarter_days(vec![2, 2]);
    opts.set_cross_quarter_days(vec![1, 1, 1]);
    let events = make_events(&opts, &almanac(2024, 1));
    assert_eq!(
        events,
        vec![
            timed("Mabon (SeptemberEquinox)", instant(2024, 9, 22, 12, 44)),
            timed("Mabon (SeptemberEquinox)", instant(2024, 9, 22, 12, 44)),
            all_day("Beltane", 2024, 5),
            all_day("Beltane", 2024, 5),
            all_day("Beltane", 2024, 5),
        ]
    );
}

#[test]
fn cross_quarter_days_fall_on_the_first_of_their_month() {
    let mut opts = CalendarOptions::new("Wheel", -5, -5);
    opts.set_quarter_days(vec![]);
    opts.set_cross_quarter_days(vec![0, 1, 2, 3]);
    opts.set_cross_quarter_days_fmt("The {pagan_name} feast".to_string());
    opts.set_custom_names(vec![
        None,
        None,
        None,
        None,
        Some("Candlemas".to_string()),
        None,
        Some("Lughnasadh".to_string()),
    ]);
    let events = make_events(&opts, &almanac(0, 0));
    assert_eq!(
        events,
        vec![
            all_day("The Candlemas feast", -5, 2),
            all_day("The Beltane feast", -5, 5),
            all_day("The Lughnasadh feast", -5, 8),
            all_day("The Samhain feast", -5, 11),
        ]
    );
}

#[test]
fn custom_name_replaces_the_traditional_one() {
    let mut opts = CalendarOptions::new("Wheel", 2024, 2024);
    opts.set_quarter_days(vec![0, 1]);
    opts.set_cross_quarter_days(vec![]);
    opts.set_quarter_days_fmt("{pagan_name}".to_string());
    opts.set_custom_names(vec![Some("X".to_string())]);
    let events = make_events(&opts, &almanac(2024, 1));
    assert_eq!(
        events,
        vec![
            timed("X", instant(2024, 3, 20, 3, 6)),
            timed("Litha", instant(2024, 6, 20, 20, 51)),
        ]
    );
}

#[test]
fn empty_custom_name_is_still_a_name() {
    let mut opts = CalendarOptions::new("Wheel", 2024, 2024);
    opts.set_quarter_days(vec![3]);
    opts.set_cross_quarter_days(vec![3]);
    let mut custom = vec![None; 8];
    custom[3] = Some(String::new());
    custom[7] = Some("{name}".to_string());
    opts.set_custom_names(custom);
    let events = make_events(&opts, &almanac(2024, 1));
    assert_eq!(
        events,
        vec![
            timed(" (DecemberSolstice)", instant(2024, 12, 21, 9, 21)),
            all_day("{name}", 2024, 11),
        ]
    );
}

#[test]
fn literal_template_is_every_summary() {
    let mut opts = CalendarOptions::new("Wheel", 2024, 2024);
    opts.set_quarter_days_fmt("Quarter {day}".to_string());
    opts.set_cross_quarter_days_fmt("Cross-quarter {name}".to_string());
    let events = make_events(&opts, &almanac(2024, 1));
    assert_eq!(events.len(), 8);
    for event in &events[..4] {
        assert_eq!(event.summary, "Quarter {day}");
    }
    for event in &events[4..] {
        assert_eq!(event.summary, "Cross-quarter {name}");
    }
}

#[test]
fn march_equinox_example() {
    let mut opts = CalendarOptions::new("Test", 2024, 2024);
    opts.quarter_days = vec![SolarEventKind::MarchEquinox];
    opts.cross_quarter_days = Vec::<CrossQuarterDays>::new();
    opts.set_quarter_days_fmt("{pagan_name} ({name})".to_string());
    let events = make_events(&opts, &almanac(2024, 1));
    assert_eq!(events, vec![timed("Ostara (MarchEquinox)", instant(2024, 3, 20, 3, 6))]);
}

#[test]
fn last_year_of_the_range_is_reached() {
    let mut opts = CalendarOptions::new("Wheel", i16::MAX - 1, i16::MAX);
    opts.set_quarter_days(vec![]);
    opts.set_cross_quarter_days(vec![2]);
    let events = make_events(&opts, &almanac(0, 0));
    assert_eq!(events, vec![all_day("Lammas", 32766, 8), all_day("Lammas", 32767, 8)]);
}

#[test]
fn document_holds_title_and_events() {
    let mut opts = CalendarOptions::new("Wheel of the Year", 2024, 2024);
    opts.set_description(Some("Eight days".to_string()));
    opts.set_quarter_days(vec![0]);
    opts.set_cross_quarter_days(vec![1]);
    let text = make_ics(&opts, &almanac(2024, 1));
    assert!(text.starts_with("BEGIN:VCALENDAR"));
    assert!(text.contains("VERSION:2.0\r\n"));
    assert!(text.contains("PRODID:ICALENDAR-RS\r\n"));
    assert!(text.contains("CALSCALE:GREGORIAN\r\n"));
    assert!(text.contains("\r\nNAME:Wheel of the Year\r\n"));
    assert!(text.contains("X-WR-CALNAME:Wheel of the Year\r\n"));
    assert!(text.contains("\r\nDESCRIPTION:Eight days\r\n"));
    assert!(text.contains("X-WR-CALDESC:Eight days\r\n"));
    assert!(text.find("CALSCALE:").unwrap() < text.find("\r\nNAME:").unwrap());
    assert!(text.find("X-WR-CALNAME:").unwrap() < text.find("\r\nDESCRIPTION:").unwrap());
    assert_eq!(text.matches("BEGIN:VEVENT").count(), 2);
    assert!(text.contains("SUMMARY:Ostara (MarchEquinox)\r\n"));
    assert!(text.contains("DTSTART:20240320T030607Z\r\n"));
    assert!(text.contains("DTEND:20240320T030607Z\r\n"));
    assert!(text.contains("SUMMARY:Beltane\r\n"));
    assert!(text.contains("DTSTART;VALUE=DATE:20240501\r\n"));
    assert!(text.contains("DTEND;VALUE=DATE:20240501\r\n"));
    assert_eq!(text.matches("CLASS:PUBLIC\r\n").count(), 2);
    let first = text.find("SUMMARY:Ostara").unwrap();
    let second = text.find("SUMMARY:Beltane").unwrap();
    assert!(first < second);
}

#[test]
fn document_without_description_or_events() {
    let opts = CalendarOptions::new("Empty", 2, 1);
    let text = make_ics(&opts, &almanac(0, 0));
    assert!(text.contains("NAME:Empty\r\n"));
    assert!(!text.contains("DESCRIPTION"));
    assert!(!text.contains("BEGIN:VEVENT"));
}

#[test]
fn summaries_follow_template_and_slot() {
    let mut opts = CalendarOptions::new("Wheel", 2024, 2024);
    let almanac = almanac(2024, 1);
    assert_eq!(
        solar_summary_text(&opts, &almanac, SolarEventKind::SeptemberEquinox),
        "Mabon (SeptemberEquinox)"
    );
    assert_eq!(cross_quarter_summary_text(&opts, CrossQuarterDays::Lammas), "Lammas");
    let mut custom = vec![None; 8];
    custom[2] = Some("Harvest Home".to_string());
    custom[6] = Some("Lughnasadh".to_string());
    opts.set_custom_names(custom);
    opts.set_quarter_days_fmt("{name}: {pagan_name}".to_string());
    opts.set_cross_quarter_days_fmt("{name}: {pagan_name}".to_string());
    assert_eq!(
        solar_summary_text(&opts, &almanac, SolarEventKind::SeptemberEquinox),
        "SeptemberEquinox: Harvest Home"
    );
    assert_eq!(
        solar_summary_text(&opts, &almanac, SolarEventKind::MarchEquinox),
        "MarchEquinox: Ostara"
    );
    assert_eq!(
        cross_quarter_summary_text(&opts, CrossQuarterDays::Lammas),
        "{name}: Lughnasadh"
    );
    assert_eq!(cross_quarter_summary_text(&opts, CrossQuarterDays::Imbolc), "{name}: Imbolc");
}

#[test]
fn slots_of_the_two_families_do_not_mix() {
    let mut opts = CalendarOptions::new("Wheel", 2024, 2024);
    opts.set_custom_names(vec![
        Some("s0".to_string()),
        Some("s1".to_string()),
        Some("s2".to_string()),
        Some("s3".to_string()),
        Some("c0".to_string()),
        Some("c1".to_string()),
        Some("c2".to_string()),
        Some("c3".to_string()),
        Some("beyond".to_string()),
    ]);
    opts.set_quarter_days_fmt("{pagan_name}".to_string());
    let summaries: Vec<String> = make_events(&opts, &almanac(2024, 1))
        .into_iter()
        .map(|event| event.summary)
        .collect();
    assert_eq!(summaries, vec!["s0", "s1", "s2", "s3", "c1", "c0", "c2", "c3"]);
}

#[test]
fn document_lists_the_events_in_their_order() {
    let mut opts = CalendarOptions::new("Wheel", 2023, 2024);
    opts.set_quarter_days(vec![3]);
    opts.set_cross_quarter_days(vec![0]);
    let text = make_ics(&opts, &almanac(2023, 2));
    let order: Vec<usize> = [
        "DTSTART:20231221T092107Z",
        "DTSTART;VALUE=DATE:20230201",
        "DTSTART:20241221T092107Z",
        "DTSTART;VALUE=DATE:20240201",
    ]
    .iter()
    .map(|line| text.find(line).unwrap())
    .collect();
    assert!(order[0] < order[1] && order[1] < order[2] && order[2] < order[3]);
    assert_eq!(text.matches("BEGIN:VEVENT").count(), 4);
    assert_eq!(text.matches("SUMMARY:Yule (DecemberSolstice)\r\n").count(), 2);
    assert_eq!(text.matches("SUMMARY:Imbolc\r\n").count(), 2);
}
